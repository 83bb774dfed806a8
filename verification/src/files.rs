//! File records and the file-input encoding dispatcher.
//!
//! A file input is resolved into a plain request value in one of two ways:
//! inlined as a base64 data URL, or uploaded out of band and referenced by
//! the URL of the stored file.  Everything that decides and computes is
//! here; reading a local file and the upload call itself are the caller's
//! side of the split, driven by the [`FileResolution`] this module hands
//! back.

use vstd::prelude::*;

use crate::common::assoc_lookup;
use crate::error::Error;
use crate::file::{FileEncodingStrategy, FileInput};

verus! {

/// What the standard, padded base64 encoding of the given bytes reads as.
pub uninterp spec fn base64_of(bytes: Seq<u8>) -> Seq<char>;

/// Relies on base64's `STANDARD` engine: the encoding is a pure function of
/// the bytes, four characters for every three bytes, padded.
#[verifier::external_body]
fn base64_encode(data: &Vec<u8>) -> (r: String)
    requires
        ((data@.len() + 2) / 3) * 4 <= usize::MAX,
    ensures
        r@ == base64_of(data@),
        r@.len() == ((data@.len() + 2) / 3) * 4,
{
    base64::Engine::encode(&base64::engine::general_purpose::STANDARD, data)
}

/// What `mime_guess` answers for the given path: a pure function of the
/// path (in practice, of its extension), `application/octet-stream` when
/// nothing matches.
pub uninterp spec fn mime_for_path(path: Seq<char>) -> Seq<char>;

/// Relies on mime_guess::from_path and MimeGuess::first_or_octet_stream:
/// the guess depends on the path alone.
#[verifier::external_body]
fn guess_content_type(path: &String) -> (r: String)
    ensures
        r@ == mime_for_path(path@),
{
    mime_guess::from_path(path.as_str()).first_or_octet_stream().to_string()
}

/// The data URL carrying `payload` as base64 text of the given content
/// type.
pub open spec fn data_url(content_type: Seq<char>, payload: Seq<char>) -> Seq<char> {
    "data:"@ + content_type + ";base64,"@ + payload
}

/// The fallback content type for content nothing more specific is known
/// about.
pub open spec fn spec_octet_stream() -> Seq<char> {
    "application/octet-stream"@
}

/// Build the data URL inlining `data` under the given content type.
pub fn encode_bytes_as_data_url(data: &Vec<u8>, content_type: &str) -> (r: String)
    requires
        ((data@.len() + 2) / 3) * 4 <= usize::MAX,
    ensures
        r@ == data_url(content_type@, base64_of(data@)),
{
    let mut s = "data:".to_owned();
    s.append(content_type);
    s.append(";base64,");
    let payload = base64_encode(data);
    s.append(payload.as_str());
    s
}

/// Build the data URL for a local file's content, with the content type
/// guessed from the path.
pub fn data_url_for_path(path: &String, content: &Vec<u8>) -> (r: String)
    requires
        ((content@.len() + 2) / 3) * 4 <= usize::MAX,
    ensures
        r@ == data_url(mime_for_path(path@), base64_of(content@)),
{
    let content_type = guess_content_type(path);
    encode_bytes_as_data_url(content, content_type.as_str())
}

/// What still has to happen before a file input is a plain request value.
#[derive(Debug, Clone)]
pub enum FileResolution {
    /// Nothing: this is the value.
    Resolved(String),
    /// Read this local path, then inline the content with
    /// [`data_url_for_path`].
    NeedsFileContent(String),
    /// Upload the input out of band, then take the stored file's URL with
    /// [`upload_url`].
    NeedsUpload,
}

/// The exact resolution `plan_file_input` owes for each input and strategy.
pub open spec fn planned_resolution(
    input: FileInput,
    strategy: FileEncodingStrategy,
    uploader_available: bool,
    r: Result<FileResolution, Error>,
) -> bool {
    match strategy {
        FileEncodingStrategy::Base64DataUrl => match input {
            FileInput::Url(_) => r matches Err(e) && (e matches Error::InvalidInput(m) && m@
                == "Cannot encode URL as data URL without downloading"@),
            FileInput::Path(p) => r matches Ok(s) && (s matches FileResolution::NeedsFileContent(q)
                && q@ == p@),
            FileInput::Bytes { data, filename: _, content_type } => r matches Ok(s) && (
            s matches FileResolution::Resolved(v) && v@ == data_url(
                match content_type {
                    Some(ct) => ct@,
                    None => spec_octet_stream(),
                },
                base64_of(data@),
            )),
        },
        FileEncodingStrategy::Multipart => {
            if !uploader_available {
                r matches Err(e) && (e matches Error::InvalidInput(m) && m@
                    == "Files API required for multipart upload"@)
            } else {
                match input {
                    FileInput::Url(_) => r matches Err(e) && (e matches Error::InvalidInput(m)
                        && m@ == "Cannot upload from URL - file must be local or bytes"@),
                    _ => r matches Ok(s) && s is NeedsUpload,
                }
            }
        },
    }
}

/// The rejection an out-of-band upload of a URL input gets: only local or
/// in-memory content can be uploaded; a pre-existing URL should be passed
/// straight through by the caller instead.
pub fn url_upload_rejection() -> (e: Error)
    ensures
        e matches Error::InvalidInput(m) && m@
            == "Cannot upload from URL - file must be local or bytes"@,
{
    Error::invalid_input("Cannot upload from URL - file must be local or bytes".to_owned())
}

/// Decide how one file input is resolved under the given strategy.
///
/// Inlining reads no network: a URL input cannot become a data URL without
/// a fetch this library never performs implicitly, so it is rejected.  The
/// out-of-band strategy needs an uploader, and only local or in-memory
/// content can be uploaded: a URL input is rejected there too, whatever
/// else holds.
pub fn plan_file_input(
    input: &FileInput,
    strategy: &FileEncodingStrategy,
    uploader_available: bool,
) -> (r: Result<FileResolution, Error>)
    requires
        input matches FileInput::Bytes { data, .. } ==> ((data@.len() + 2) / 3) * 4 <= usize::MAX,
    ensures
        planned_resolution(*input, *strategy, uploader_available, r),
        input is Url ==> (r matches Err(e) && e is InvalidInput),
{
    match strategy {
        FileEncodingStrategy::Base64DataUrl => match input {
            FileInput::Url(_) => Err(
                Error::invalid_input(
                    "Cannot encode URL as data URL without downloading".to_owned(),
                ),
            ),
            FileInput::Path(p) => Ok(FileResolution::NeedsFileContent(p.clone())),
            FileInput::Bytes { data, filename: _, content_type } => {
                let url = match content_type {
                    Some(ct) => encode_bytes_as_data_url(data, ct.as_str()),
                    None => encode_bytes_as_data_url(data, "application/octet-stream"),
                };
                Ok(FileResolution::Resolved(url))
            },
        },
        FileEncodingStrategy::Multipart => {
            if !uploader_available {
                Err(Error::invalid_input("Files API required for multipart upload".to_owned()))
            } else {
                match input {
                    FileInput::Url(_) => Err(url_upload_rejection()),
                    _ => Ok(FileResolution::NeedsUpload),
                }
            }
        },
    }
}

/// A file stored by the service.
#[derive(Debug, Clone)]
pub struct File {
    /// The unique ID of the file.
    pub id: String,
    /// The name of the file.
    pub name: String,
    /// The content type of the file.
    pub content_type: String,
    /// The size of the file in bytes.
    pub size: i64,
    /// The entity tag of the file.
    pub etag: String,
    /// File checksums, by algorithm.
    pub checksums: Vec<(String, String)>,
    /// File metadata, kept opaque.
    pub metadata: Vec<(String, serde_json::Value)>,
    /// When the file was created.
    pub created_at: String,
    /// When the file expires, if it does.
    pub expires_at: Option<String>,
    /// File URLs, by purpose.
    pub urls: Vec<(String, String)>,
}

/// The retrieval URL of a stored file: the one filed under `get`.  A record
/// without one cannot be referenced from a request.
pub fn upload_url(file: &File) -> (r: Result<String, Error>)
    ensures
        assoc_lookup(file.urls@, "get"@) matches Some(u) ==> r matches Ok(ru) && ru@ == u@,
        assoc_lookup(file.urls@, "get"@) is None ==> (r matches Err(e) && (
        e matches Error::InvalidInput(m) && m@ == "File missing URL"@)),
{
    let key = "get".to_owned();
    match crate::common::assoc_get(&file.urls, &key) {
        Some(u) => Ok(u.clone()),
        None => Err(Error::invalid_input("File missing URL".to_owned())),
    }
}

/// The filename a multipart upload carries when none was given.
pub fn effective_filename(filename: Option<&String>) -> (r: String)
    ensures
        filename matches Some(f) ==> r@ == f@,
        filename is None ==> r@ == "file"@,
{
    match filename {
        Some(f) => f.clone(),
        None => "file".to_owned(),
    }
}

/// The content type a multipart upload carries when none was given.
pub fn effective_content_type(content_type: Option<&String>) -> (r: String)
    ensures
        content_type matches Some(c) ==> r@ == c@,
        content_type is None ==> r@ == spec_octet_stream(),
{
    match content_type {
        Some(c) => c.clone(),
        None => "application/octet-stream".to_owned(),
    }
}

} // verus!
