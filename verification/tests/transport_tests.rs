use replicate_rs::client::Client;
use replicate_rs::config::{HttpConfig, RetryConfig, TimeoutConfig};
use replicate_rs::error::Error;
use replicate_rs::transport::HttpClient;

#[test]
fn test_build_url() {
    let client = HttpClient::new("test-token".to_string()).unwrap();

    assert_eq!(
        client.build_url("/v1/predictions"),
        "https://api.replicate.com/v1/predictions"
    );

    assert_eq!(
        client.build_url("v1/predictions"),
        "https://api.replicate.com/v1/predictions"
    );
}

#[test]
fn test_build_url_trims_trailing_slashes() {
    let client =
        HttpClient::with_base_url("test-token".to_string(), "https://example.com//".to_string())
            .unwrap();
    assert_eq!(client.build_url("/v1/files"), "https://example.com/v1/files");
    assert_eq!(client.build_url("v1/files"), "https://example.com/v1/files");
}

#[test]
fn test_empty_token_error() {
    let result = HttpClient::new(String::new());
    assert!(result.is_err());
    assert!(matches!(result.unwrap_err(), Error::Auth(_)));
}

#[test]
fn test_client_creation_with_retry() {
    let client = HttpClient::new("test-token".to_string());
    assert!(client.is_ok());

    // The client dispatches through the retry-decorated middleware client.
    let client = client.unwrap();
    let _inner = client.inner();

    let retry_config = client.retry_config();
    assert_eq!(retry_config.max_retries, 3);
    assert_eq!(retry_config.min_delay, 500);
    assert_eq!(retry_config.max_delay, 30_000);
    assert_eq!(retry_config.base_multiplier, 2);
}

#[test]
fn test_retry_configuration() {
    let mut client = HttpClient::new("test-token".to_string()).unwrap();

    let initial_config = client.retry_config();
    assert_eq!(initial_config.max_retries, 3);

    let result = client.configure_retries(5, 100, 60_000);
    assert!(result.is_ok());

    let new_config = client.retry_config();
    assert_eq!(new_config.max_retries, 5);
    assert_eq!(new_config.min_delay, 100);
    assert_eq!(new_config.max_delay, 60_000);
    assert_eq!(new_config.base_multiplier, 2);
}

#[test]
fn test_custom_retry_config() {
    let custom_config = RetryConfig {
        max_retries: 2,
        min_delay: 200,
        max_delay: 10_000,
        base_multiplier: 3,
    };

    let client = HttpClient::with_retry_config("test-token".to_string(), custom_config);
    assert!(client.is_ok());

    let client = client.unwrap();
    let actual_config = client.retry_config();
    assert_eq!(actual_config.max_retries, custom_config.max_retries);
    assert_eq!(actual_config.min_delay, custom_config.min_delay);
    assert_eq!(actual_config.max_delay, custom_config.max_delay);
    assert_eq!(actual_config.base_multiplier, custom_config.base_multiplier);
}

#[test]
fn test_timeout_configuration() {
    let timeout_config = TimeoutConfig {
        connect_timeout: Some(15_000),
        request_timeout: Some(90_000),
    };

    let http_config = HttpConfig {
        retry: RetryConfig::default(),
        timeout: timeout_config,
    };

    let client = HttpClient::with_http_config("test-token".to_string(), http_config);
    assert!(client.is_ok());

    let client = client.unwrap();
    let returned_timeout_config = client.timeout_config();
    assert_eq!(returned_timeout_config.connect_timeout, Some(15_000));
    assert_eq!(returned_timeout_config.request_timeout, Some(90_000));
}

#[test]
fn test_timeout_reconfiguration() {
    let mut client = HttpClient::new("test-token".to_string()).unwrap();

    let initial_config = client.timeout_config();
    assert_eq!(initial_config.connect_timeout, Some(30_000));
    assert_eq!(initial_config.request_timeout, Some(60_000));

    let result = client.configure_timeouts(Some(5_000), Some(120_000));
    assert!(result.is_ok());

    let updated_config = client.timeout_config();
    assert_eq!(updated_config.connect_timeout, Some(5_000));
    assert_eq!(updated_config.request_timeout, Some(120_000));
}

#[test]
fn test_timeout_disable() {
    let mut client = HttpClient::new("test-token".to_string()).unwrap();

    let result = client.configure_timeouts(None, None);
    assert!(result.is_ok());

    let config = client.timeout_config();
    assert_eq!(config.connect_timeout, None);
    assert_eq!(config.request_timeout, None);
}

#[test]
fn test_http_config_accessors() {
    let http_config = HttpConfig {
        retry: RetryConfig {
            max_retries: 2,
            min_delay: 100,
            max_delay: 20_000,
            base_multiplier: 4,
        },
        timeout: TimeoutConfig {
            connect_timeout: Some(10_000),
            request_timeout: Some(45_000),
        },
    };

    let client = HttpClient::with_http_config("test-token".to_string(), http_config);
    assert!(client.is_ok());

    let client = client.unwrap();
    let returned_config = client.http_config();
    assert_eq!(returned_config.retry.max_retries, 2);
    assert_eq!(returned_config.retry.min_delay, 100);
    assert_eq!(returned_config.retry.max_delay, 20_000);
    assert_eq!(returned_config.retry.base_multiplier, 4);
    assert_eq!(returned_config.timeout.connect_timeout, Some(10_000));
    assert_eq!(returned_config.timeout.request_timeout, Some(45_000));
}

#[test]
fn test_client_creation() {
    let client = Client::new("test-token".to_string());
    assert!(client.is_ok());
}

#[test]
fn test_client_empty_token() {
    let client = Client::new(String::new());
    assert!(client.is_err());
    assert!(matches!(client.unwrap_err(), Error::Auth(_)));
}

#[test]
fn test_client_reconfiguration_via_facade() {
    let mut client = Client::new("test-token".to_string()).unwrap();
    client.configure_retries(4, 250, 8_000).unwrap();
    assert_eq!(client.http_client().retry_config().max_retries, 4);
    client.configure_timeouts(Some(1_000), None).unwrap();
    assert_eq!(client.timeout_config().connect_timeout, Some(1_000));
    assert_eq!(client.timeout_config().request_timeout, None);
    assert_eq!(client.http_config().retry.min_delay, 250);

    client.http_client_mut().configure_retries(1, 50, 60).unwrap();
    assert_eq!(client.http_config().retry.max_retries, 1);
}

#[test]
fn test_classify_status_passes_success_through() {
    assert_eq!(
        replicate_rs::transport::classify_status(200, String::new()).unwrap(),
        200
    );
    assert_eq!(
        replicate_rs::transport::classify_status(204, "ignored".to_string()).unwrap(),
        204
    );
}

#[test]
fn test_classify_status_maps_errors() {
    match replicate_rs::transport::classify_status(404, String::new()).unwrap_err() {
        Error::Api { status, message, detail } => {
            assert_eq!(status, 404);
            assert_eq!(message, "Resource not found");
            assert_eq!(detail, None);
        }
        other => panic!("expected Api error, got {:?}", other),
    }
    match replicate_rs::transport::classify_status(401, String::new()).unwrap_err() {
        Error::Auth(message) => assert_eq!(message, "Invalid API token"),
        other => panic!("expected Auth error, got {:?}", other),
    }
}

#[test]
fn test_multipart_error_parses_json_detail() {
    let body = "{\"detail\": \"File too large\"}".to_string();
    match replicate_rs::transport::multipart_error_for_body(413, body.clone()) {
        Error::Api { status, message, detail } => {
            assert_eq!(status, 413);
            assert_eq!(message, "File too large");
            assert_eq!(detail, Some(body));
        }
        other => panic!("expected Api error, got {:?}", other),
    }
}

#[test]
fn test_multipart_error_json_without_detail() {
    let body = "{\"title\": \"nope\"}".to_string();
    match replicate_rs::transport::multipart_error_for_body(500, body.clone()) {
        Error::Api { status, message, detail } => {
            assert_eq!(status, 500);
            assert_eq!(message, "Unknown API error");
            assert_eq!(detail, Some(body));
        }
        other => panic!("expected Api error, got {:?}", other),
    }
}

#[test]
fn test_multipart_auth_statuses_map_to_auth() {
    // Credential failures on the multipart path follow the same taxonomy as
    // every other request: Auth, never Api, whatever the body holds.
    match replicate_rs::transport::multipart_error_for_body(
        401,
        "{\"detail\": \"bad token\"}".to_string(),
    ) {
        Error::Auth(message) => assert_eq!(message, "Invalid API token"),
        other => panic!("expected Auth error, got {:?}", other),
    }
    match replicate_rs::transport::multipart_error_for_body(402, "no credits".to_string()) {
        Error::Auth(message) => assert_eq!(message, "Insufficient credits"),
        other => panic!("expected Auth error, got {:?}", other),
    }
    match replicate_rs::transport::multipart_error_for_body(403, String::new()) {
        Error::Auth(message) => assert_eq!(message, "Forbidden"),
        other => panic!("expected Auth error, got {:?}", other),
    }
}

#[test]
fn test_multipart_error_plain_body() {
    let body = "gateway exploded".to_string();
    match replicate_rs::transport::multipart_error_for_body(502, body.clone()) {
        Error::Api { status, message, detail } => {
            assert_eq!(status, 502);
            assert_eq!(message, body);
            assert_eq!(detail, None);
        }
        other => panic!("expected Api error, got {:?}", other),
    }
}
