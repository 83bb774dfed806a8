[package]
name = "replicate_rs"
version = "0.1.0"
edition = "2021"
publish = false

[dependencies]
base64 = "*"
bytes = "*"
mime_guess = "*"
reqwest = { version = "*", default-features = false, features = ["json", "multipart"] }
reqwest-middleware = "*"
reqwest-retry = "*"
retry-policies = "*"
serde = { version = "*", features = ["derive"] }
serde_json = "*"
thiserror = "*"
tokio = { version = "*", features = ["fs", "macros", "rt", "time"] }
