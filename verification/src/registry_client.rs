//! The Harbor registry API as this library sees it: endpoint URLs, the
//! multipart upload body, and how an HTTP failure becomes a
//! [`RegistryError`]. Sending requests and decoding JSON replies are the
//! caller's business.

use vstd::prelude::*;
use vstd::utf8::encode_utf8;

use crate::text::{
    chars_of, debug_text, decimal, decimal_of, extend_chars, extend_str, find_char, first_index_of, slice_chars,
    spec_debug_text, string_of, trim, trim_chars,
};

verus! {

/// Reply to `POST /auth/token`.
#[derive(Debug, Clone, PartialEq, Eq)]
pub struct LoginResponse {
    pub token: String,
    pub username: String,
}

/// Reply to `POST /packages`.
#[derive(Debug, Clone, PartialEq, Eq)]
pub struct PublishResponse {
    pub ok: bool,
    pub name: String,
    pub version: String,
}

/// One version record of `GET /packages/{owner}/{package}`.
#[derive(Debug, Clone, PartialEq, Eq)]
pub struct VersionRecordResponse {
    pub version: String,
    pub checksum: String,
    pub published_at: String,
    pub yanked: Option<bool>,
}

/// Reply to `GET /packages/{owner}/{package}`.
#[derive(Debug, Clone, PartialEq, Eq)]
pub struct PackageInfoResponse {
    pub owner: String,
    pub name: String,
    pub latest_version: Option<String>,
    pub description: String,
    pub package_type: String,
    pub language: String,
    pub runtime: String,
    pub entrypoint: String,
    pub license: String,
    pub permissions: Vec<String>,
    pub features: Vec<String>,
    pub versions: Vec<VersionRecordResponse>,
}

/// The body of an error reply.
#[derive(Debug, Clone, PartialEq, Eq)]
pub struct ApiError {
    pub detail: Option<String>,
}

/// Errors of registry operations.
#[derive(Debug, Clone, PartialEq, Eq)]
pub enum RegistryError {
    /// The request did not get an HTTP reply.
    Network(String),
    /// The registry answered 401.
    Auth(String),
    /// The registry answered another error status.
    Api { status: u16, message: String },
    /// A file to upload could not be read.
    FileIo(String),
    /// A reply body did not decode.
    ResponseParse(String),
}

/// `s` without its trailing `/` characters.
pub open spec fn trim_trailing_slashes(s: Seq<char>) -> Seq<char>
    decreases s.len(),
{
    if s.len() > 0 && s.last() == '/' {
        trim_trailing_slashes(s.drop_last())
    } else {
        s
    }
}

/// A client of the registry at `base_url`.
#[derive(Debug, Clone, PartialEq, Eq)]
pub struct RegistryClient {
    /// Base URL, without trailing slashes.
    pub base_url: String,
}

impl RegistryClient {
    /// A client for the registry at `base_url` (trailing `/`s dropped).
    pub fn new(base_url: &str) -> (res: RegistryClient)
        ensures
            res.base_url@ == trim_trailing_slashes(base_url@),
    {
        let v = chars_of(base_url);
        let mut n = v.len();
        assert(v@.take(n as int) =~= v@);
        while n > 0 && v[n - 1] == '/'
            invariant
                n <= v@.len(),
                trim_trailing_slashes(v@.take(n as int)) == trim_trailing_slashes(v@),
            decreases n,
        {
            proof {
                assert(v@.take(n as int).drop_last() =~= v@.take(n - 1));
            }
            n = n - 1;
        }
        proof {
            assert(v@.take(v@.len() as int) =~= v@);
        }
        let mut out: Vec<char> = Vec::new();
        let mut i: usize = 0;
        while i < n
            invariant
                n <= v@.len(),
                i <= n,
                out@ == v@.take(i as int),
            decreases n - i,
        {
            out.push(v[i]);
            proof {
                assert(v@.take(i + 1) =~= v@.take(i as int).push(v@[i as int]));
            }
            i = i + 1;
        }
        RegistryClient { base_url: string_of(out.as_slice()) }
    }

    /// `<base>/auth/token`.
    pub fn login_url(&self) -> (res: String)
        ensures
            res@ == self.base_url@ + "/auth/token"@,
    {
        let mut v = chars_of(self.base_url.as_str());
        extend_str(&mut v, "/auth/token");
        string_of(v.as_slice())
    }

    /// `<base>/packages/<owner>/<name>`.
    pub fn package_url(&self, owner: &str, name: &str) -> (res: String)
        ensures
            res@ == self.base_url@ + "/packages/"@ + owner@ + "/"@ + name@,
    {
        let mut v = chars_of(self.base_url.as_str());
        extend_str(&mut v, "/packages/");
        extend_str(&mut v, owner);
        extend_str(&mut v, "/");
        extend_str(&mut v, name);
        string_of(v.as_slice())
    }

    /// `<base>/packages/<owner>/<name>/<version>`, where a version is
    /// yanked or restored.
    pub fn version_url(&self, owner: &str, name: &str, version: &str) -> (res: String)
        ensures
            res@ == self.base_url@ + "/packages/"@ + owner@ + "/"@ + name@ + "/"@ + version@,
    {
        let mut v = chars_of(self.base_url.as_str());
        extend_str(&mut v, "/packages/");
        extend_str(&mut v, owner);
        extend_str(&mut v, "/");
        extend_str(&mut v, name);
        extend_str(&mut v, "/");
        extend_str(&mut v, version);
        string_of(v.as_slice())
    }

    /// `<base>/download/<owner>/<name>/<version>`.
    pub fn download_url(&self, owner: &str, name: &str, version: &str) -> (res: String)
        ensures
            res@ == self.base_url@ + "/download/"@ + owner@ + "/"@ + name@ + "/"@ + version@,
    {
        let mut v = chars_of(self.base_url.as_str());
        extend_str(&mut v, "/download/");
        extend_str(&mut v, owner);
        extend_str(&mut v, "/");
        extend_str(&mut v, name);
        extend_str(&mut v, "/");
        extend_str(&mut v, version);
        string_of(v.as_slice())
    }

    /// `<base>/packages`, where packages are published.
    pub fn publish_url(&self) -> (res: String)
        ensures
            res@ == self.base_url@ + "/packages"@,
    {
        let mut v = chars_of(self.base_url.as_str());
        extend_str(&mut v, "/packages");
        string_of(v.as_slice())
    }
}

/// `Bearer <token>`, the `Authorization` header value.
pub fn bearer(token: &str) -> (res: String)
    ensures
        res@ == "Bearer "@ + token@,
{
    let mut v = chars_of("Bearer ");
    extend_str(&mut v, token);
    string_of(v.as_slice())
}

/// The error for an HTTP error status `code`: `Auth` for 401, else `Api`;
/// the message is the reply's `detail` when it has one, else
/// `registry returned status <code>`.
pub fn status_error(code: u16, detail: Option<String>) -> (res: RegistryError)
    ensures
        ({
            let message = match detail {
                Some(d) => d@,
                None => "registry returned status "@ + decimal(code as nat),
            };
            if code == 401 {
                res matches RegistryError::Auth(m) && m@ == message
            } else {
                res matches RegistryError::Api { status, message: m } && status == code && m@ == message
            }
        }),
{
    let message = match detail {
        Some(d) => d,
        None => {
            let mut v = chars_of("registry returned status ");
            let d = decimal_of(code as u64);
            extend_chars(&mut v, d.as_slice());
            string_of(v.as_slice())
        },
    };
    if code == 401 {
        RegistryError::Auth(message)
    } else {
        RegistryError::Api { status: code, message }
    }
}

fn append_bytes(body: &mut Vec<u8>, data: &[u8])
    ensures
        final(body)@ == old(body)@ + data@,
{
    let ghost start = body@;
    let mut i: usize = 0;
    while i < data.len()
        invariant
            i <= data@.len(),
            body@ == start + data@.take(i as int),
        decreases data.len() - i,
    {
        body.push(data[i]);
        proof {
            assert(data@.take(i + 1) =~= data@.take(i as int).push(data@[i as int]));
        }
        i = i + 1;
    }
    assert(data@.take(data@.len() as int) =~= data@);
}

fn append_text(body: &mut Vec<u8>, text: &str)
    ensures
        final(body)@ == old(body)@ + encode_utf8(text@),
{
    append_bytes(body, text.as_bytes());
}

/// The header lines of a multipart field, up to the blank line.
pub open spec fn field_head(boundary: Seq<char>, field_name: Seq<char>, file_meta: Option<(Seq<char>, Seq<char>)>) -> Seq<char> {
    "--"@ + boundary + "\r\n"@ + match file_meta {
        Some((filename, content_type)) => "Content-Disposition: form-data; name=\""@ + field_name
            + "\"; filename=\""@ + filename + "\"\r\n"@ + "Content-Type: "@ + content_type + "\r\n\r\n"@,
        None => "Content-Disposition: form-data; name=\""@ + field_name + "\"\r\n\r\n"@,
    }
}

/// Appends one multipart/form-data field to `body`: the boundary line,
/// `Content-Disposition` (with a file name and a `Content-Type` line for a
/// file field), a blank line, the data and a closing CRLF.
pub fn write_field(
    body: &mut Vec<u8>,
    boundary: &str,
    field_name: &str,
    file_meta: Option<(&str, &str)>,
    data: &[u8],
)
    ensures
        final(body)@ == old(body)@ + encode_utf8(
            field_head(
                boundary@,
                field_name@,
                match file_meta {
                    Some((f, c)) => Some((f@, c@)),
                    None => None,
                },
            ),
        ) + data@ + encode_utf8("\r\n"@),
{
    let mut head = chars_of("--");
    extend_str(&mut head, boundary);
    extend_str(&mut head, "\r\n");
    match file_meta {
        Some((filename, content_type)) => {
            extend_str(&mut head, "Content-Disposition: form-data; name=\"");
            extend_str(&mut head, field_name);
            extend_str(&mut head, "\"; filename=\"");
            extend_str(&mut head, filename);
            extend_str(&mut head, "\"\r\n");
            extend_str(&mut head, "Content-Type: ");
            extend_str(&mut head, content_type);
            extend_str(&mut head, "\r\n\r\n");
        },
        None => {
            extend_str(&mut head, "Content-Disposition: form-data; name=\"");
            extend_str(&mut head, field_name);
            extend_str(&mut head, "\"\r\n\r\n");
        },
    }
    let h = string_of(head.as_slice());
    proof {
        assert(h@ =~= field_head(
            boundary@,
            field_name@,
            match file_meta {
                Some((f, c)) => Some((f@, c@)),
                None => None,
            },
        ));
    }
    append_text(body, h.as_str());
    append_bytes(body, data);
    append_text(body, "\r\n");
}

/// The closing boundary of a multipart body, `--<boundary>--\r\n`.
pub fn write_closing_boundary(body: &mut Vec<u8>, boundary: &str)
    ensures
        final(body)@ == old(body)@ + encode_utf8("--"@ + boundary@ + "--\r\n"@),
{
    let mut v = chars_of("--");
    extend_str(&mut v, boundary);
    extend_str(&mut v, "--\r\n");
    let s = string_of(v.as_slice());
    append_text(body, s.as_str());
}

/// The `Content-Type` of an upload with `boundary`.
pub fn multipart_content_type(boundary: &str) -> (res: String)
    ensures
        res@ == "multipart/form-data; boundary="@ + boundary@,
{
    let mut v = chars_of("multipart/form-data; boundary=");
    extend_str(&mut v, boundary);
    string_of(v.as_slice())
}

/// The multipart body of a publish upload: the `owner` and `name` text
/// fields, the archive as `archive.harbor`
/// (`application/octet-stream`), the lock file as `harbor.lock`
/// (`application/toml`), and the closing boundary.
pub fn publish_body(boundary: &str, owner: &str, name: &str, archive: &[u8], lockfile: &[u8]) -> (res: Vec<u8>)
    ensures
        res@ == encode_utf8(field_head(boundary@, "owner"@, None)) + encode_utf8(owner@) + encode_utf8("\r\n"@)
            + encode_utf8(field_head(boundary@, "name"@, None)) + encode_utf8(name@) + encode_utf8("\r\n"@)
            + encode_utf8(
            field_head(boundary@, "archive"@, Some(("archive.harbor"@, "application/octet-stream"@))),
        ) + archive@ + encode_utf8("\r\n"@) + encode_utf8(
            field_head(boundary@, "lockfile"@, Some(("harbor.lock"@, "application/toml"@))),
        ) + lockfile@ + encode_utf8("\r\n"@) + encode_utf8("--"@ + boundary@ + "--\r\n"@),
{
    let mut body: Vec<u8> = Vec::new();
    write_field(&mut body, boundary, "owner", None, owner.as_bytes());
    write_field(&mut body, boundary, "name", None, name.as_bytes());
    write_field(&mut body, boundary, "archive", Some(("archive.harbor", "application/octet-stream")), archive);
    write_field(&mut body, boundary, "lockfile", Some(("harbor.lock", "application/toml")), lockfile);
    write_closing_boundary(&mut body, boundary);
    assert(body@ =~= Seq::<u8>::empty() + encode_utf8(field_head(boundary@, "owner"@, None)) + encode_utf8(
        owner@,
    ) + encode_utf8("\r\n"@) + encode_utf8(field_head(boundary@, "name"@, None)) + encode_utf8(name@)
        + encode_utf8("\r\n"@) + encode_utf8(
        field_head(boundary@, "archive"@, Some(("archive.harbor"@, "application/octet-stream"@))),
    ) + archive@ + encode_utf8("\r\n"@) + encode_utf8(
        field_head(boundary@, "lockfile"@, Some(("harbor.lock"@, "application/toml"@))),
    ) + lockfile@ + encode_utf8("\r\n"@) + encode_utf8("--"@ + boundary@ + "--\r\n"@));
    body
}

/// A trimmed base URL has no trailing `/`, and trimming it again changes
/// nothing: `RegistryClient::new` is idempotent on its own base URL.
pub proof fn lemma_trim_trailing_slashes_idempotent(s: Seq<char>)
    ensures
        trim_trailing_slashes(s).len() == 0 || trim_trailing_slashes(s).last() != '/',
        trim_trailing_slashes(trim_trailing_slashes(s)) == trim_trailing_slashes(s),
    decreases s.len(),
{
    if s.len() > 0 && s.last() == '/' {
        lemma_trim_trailing_slashes_idempotent(s.drop_last());
    }
}

/// The `owner` and `name` of a `harbor yank` target: the trimmed text
/// around its first `/`.
pub fn yank_target(target: &str) -> (res: Result<(String, String), String>)
    ensures
        ({
            let t = trim(target@);
            match first_index_of(t, '/') {
                Some(i) => res matches Ok((o, n)) && o@ == t.take(i) && n@ == t.skip(i + 1),
                None => res matches Err(m) && m@ == "yank target must be in owner/name format, got "@
                    + spec_debug_text(t),
            }
        }),
{
    let t = trim_chars(chars_of(target).as_slice());
    match find_char(t.as_slice(), '/') {
        Some(i) => {
            let n = t.len();
            let o = slice_chars(t.as_slice(), 0, i);
            let rest = slice_chars(t.as_slice(), i + 1, n);
            Ok((string_of(o.as_slice()), string_of(rest.as_slice())))
        },
        None => {
            let ts = string_of(t.as_slice());
            let mut m = chars_of("yank target must be in owner/name format, got ");
            extend_str(&mut m, debug_text(ts.as_str()).as_str());
            Err(string_of(m.as_slice()))
        },
    }
}

/// What a registry error says.
pub open spec fn registry_error_text(e: RegistryError) -> Seq<char> {
    match e {
        RegistryError::Network(m) => "network error: "@ + m@,
        RegistryError::Auth(m) => "authentication failed: "@ + m@,
        RegistryError::Api { status, message } => "registry returned "@ + decimal(status as nat) + ": "@ + message@,
        RegistryError::FileIo(m) => "failed to read file for upload: "@ + m@,
        RegistryError::ResponseParse(m) => "failed to parse registry response: "@ + m@,
    }
}

impl RegistryError {
    /// Human-readable description of the error.
    pub fn message(&self) -> (res: String)
        ensures
            res@ == registry_error_text(*self),
    {
        match self {
            RegistryError::Network(m) => crate::text::concat2("network error: ", m.as_str()),
            RegistryError::Auth(m) => crate::text::concat2("authentication failed: ", m.as_str()),
            RegistryError::Api { status, message } => {
                let mut v = chars_of("registry returned ");
                let d = decimal_of(*status as u64);
                extend_chars(&mut v, d.as_slice());
                extend_str(&mut v, ": ");
                extend_str(&mut v, message.as_str());
                string_of(v.as_slice())
            },
            RegistryError::FileIo(m) => crate::text::concat2("failed to read file for upload: ", m.as_str()),
            RegistryError::ResponseParse(m) => crate::text::concat2("failed to parse registry response: ", m.as_str()),
        }
    }
}

} // verus!
