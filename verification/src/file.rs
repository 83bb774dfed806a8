//! File handling types for inputs and outputs.

use vstd::prelude::*;

verus! {

/// The ways to hand a file to a model.  Immutable once constructed.
#[derive(Debug, Clone)]
pub enum FileInput {
    /// A URL to a publicly accessible file.
    Url(String),
    /// A local file path.
    Path(String),
    /// Raw bytes with optional filename and content type.
    Bytes { data: Vec<u8>, filename: Option<String>, content_type: Option<String> },
}

/// Whether the string names a web resource: it starts with a scheme this
/// library recognizes as remote.
pub open spec fn spec_is_remote(s: Seq<char>) -> bool {
    has_prefix(s, "http://"@) || has_prefix(s, "https://"@)
}

/// `p` is a prefix of `s`.
pub open spec fn has_prefix(s: Seq<char>, p: Seq<char>) -> bool {
    p.len() <= s.len() && s.subrange(0, p.len() as int) == p
}

/// Whether `p` is a prefix of `s`, by characters.
pub fn str_has_prefix(s: &str, p: &str) -> (r: bool)
    ensures
        r == has_prefix(s@, p@),
{
    let s_len = s.unicode_len();
    let p_len = p.unicode_len();
    if p_len > s_len {
        assert(!has_prefix(s@, p@));
        return false;
    }
    let mut i: usize = 0;
    while i < p_len
        invariant
            i <= p_len <= s_len,
            s_len == s@.len(),
            p_len == p@.len(),
            forall|j: int| 0 <= j < i ==> s@[j] == p@[j],
        decreases p_len - i,
    {
        if s.get_char(i) != p.get_char(i) {
            assert(s@.subrange(0, p@.len() as int)[i as int] != p@[i as int]);
            return false;
        }
        i = i + 1;
    }
    assert(s@.subrange(0, p@.len() as int) =~= p@);
    true
}

impl FileInput {
    /// A file input from a URL.
    pub fn from_url(url: String) -> (r: Self)
        ensures
            r == FileInput::Url(url),
    {
        FileInput::Url(url)
    }

    /// A file input from a local path.
    pub fn from_path(path: String) -> (r: Self)
        ensures
            r == FileInput::Path(path),
    {
        FileInput::Path(path)
    }

    /// A file input from raw bytes, with no metadata.
    pub fn from_bytes(data: Vec<u8>) -> (r: Self)
        ensures
            r matches FileInput::Bytes { data: d, filename: f, content_type: c } && d == data && f
                is None && c is None,
    {
        FileInput::Bytes { data, filename: None, content_type: None }
    }

    /// A file input from raw bytes with filename and content type.
    pub fn from_bytes_with_metadata(
        data: Vec<u8>,
        filename: Option<String>,
        content_type: Option<String>,
    ) -> (r: Self)
        ensures
            r matches FileInput::Bytes { data: d, filename: f, content_type: c } && d == data && f
                == filename && c == content_type,
    {
        FileInput::Bytes { data, filename, content_type }
    }

    /// Whether this is a URL input.
    pub fn is_url(&self) -> (r: bool)
        ensures
            r == (self is Url),
    {
        match self {
            FileInput::Url(_) => true,
            _ => false,
        }
    }

    /// Whether this is a file path input.
    pub fn is_path(&self) -> (r: bool)
        ensures
            r == (self is Path),
    {
        match self {
            FileInput::Path(_) => true,
            _ => false,
        }
    }

    /// Whether this is a bytes input.
    pub fn is_bytes(&self) -> (r: bool)
        ensures
            r == (self is Bytes),
    {
        match self {
            FileInput::Bytes { .. } => true,
            _ => false,
        }
    }

    /// The URL, if this is a URL input.
    pub fn as_url(&self) -> (r: Option<&String>)
        ensures
            self matches FileInput::Url(u) ==> r == Some(u),
            !(self is Url) ==> r is None,
    {
        match self {
            FileInput::Url(url) => Some(url),
            _ => None,
        }
    }

    /// The path, if this is a path input.
    pub fn as_path(&self) -> (r: Option<&String>)
        ensures
            self matches FileInput::Path(p) ==> r == Some(p),
            !(self is Path) ==> r is None,
    {
        match self {
            FileInput::Path(path) => Some(path),
            _ => None,
        }
    }
}

impl From<String> for FileInput {
    /// A string that starts with a web scheme is a URL; anything else is a
    /// local path.
    fn from(s: String) -> (r: Self) {
        if str_has_prefix(s.as_str(), "http://") || str_has_prefix(s.as_str(), "https://") {
            FileInput::Url(s)
        } else {
            FileInput::Path(s)
        }
    }
}

impl vstd::std_specs::convert::FromSpecImpl<String> for FileInput {
    open spec fn obeys_from_spec() -> bool {
        true
    }

    open spec fn from_spec(s: String) -> Self {
        if spec_is_remote(s@) {
            FileInput::Url(s)
        } else {
            FileInput::Path(s)
        }
    }
}

/// A file output from a model: a download URL with optional metadata.
#[derive(Debug, Clone)]
pub struct FileOutput {
    /// The URL to download the file.
    pub url: String,
    /// Optional filename.
    pub filename: Option<String>,
    /// Optional content type.
    pub content_type: Option<String>,
    /// Optional file size in bytes.
    pub size: Option<u64>,
}

impl FileOutput {
    /// A new file output with only the URL set.
    pub fn new(url: String) -> (r: Self)
        ensures
            r.url == url,
            r.filename is None,
            r.content_type is None,
            r.size is None,
    {
        FileOutput { url, filename: None, content_type: None, size: None }
    }

    /// Set the filename.
    pub fn with_filename(self, filename: String) -> (r: Self)
        ensures
            r == (FileOutput { filename: Some(filename), ..self }),
    {
        FileOutput { filename: Some(filename), ..self }
    }

    /// Set the content type.
    pub fn with_content_type(self, content_type: String) -> (r: Self)
        ensures
            r == (FileOutput { content_type: Some(content_type), ..self }),
    {
        FileOutput { content_type: Some(content_type), ..self }
    }

    /// Set the file size.
    pub fn with_size(self, size: u64) -> (r: Self)
        ensures
            r == (FileOutput { size: Some(size), ..self }),
    {
        FileOutput { size: Some(size), ..self }
    }
}

impl From<String> for FileOutput {
    /// A file output is just its URL until metadata is added.
    fn from(url: String) -> (r: Self) {
        FileOutput::new(url)
    }
}

impl vstd::std_specs::convert::FromSpecImpl<String> for FileOutput {
    open spec fn obeys_from_spec() -> bool {
        true
    }

    open spec fn from_spec(url: String) -> Self {
        FileOutput { url, filename: None, content_type: None, size: None }
    }
}

/// How file inputs are turned into plain request values.
#[derive(Debug, Clone, PartialEq, Eq, Structural)]
pub enum FileEncodingStrategy {
    /// Inline the content as a base64 data URL.
    Base64DataUrl,
    /// Upload the content out of band and reference it by URL.
    Multipart,
}

impl Default for FileEncodingStrategy {
    /// Out-of-band upload is the default.
    fn default() -> (r: Self)
        ensures
            r == FileEncodingStrategy::Multipart,
    {
        FileEncodingStrategy::Multipart
    }
}

} // verus!
