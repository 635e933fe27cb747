use vstd::prelude::*;

use crate::errors::PasteErrorKind;

verus! {

/// Why a request was not answered by a handler, as the HTTP layer reports it.
#[derive(Debug, Clone, Copy, PartialEq, Eq, Structural)]
pub enum Failure {
    /// No route matched the path.
    NoRoute,
    /// A handler failed with an error of the service.
    Paste(PasteErrorKind),
    /// The body, a header or the query could not be parsed, a length was
    /// required and missing, or the body was too large.
    Malformed,
    /// A required header or cookie was missing.
    MissingCredential,
    /// The content type is not one the route takes.
    UnsupportedMediaType,
    /// The path exists but not with this method.
    MethodNotAllowed,
    /// Anything else.
    Unrecognized,
}

/// A status code with a plain-text message.
pub struct Reply {
    pub status: u16,
    pub message: String,
}

pub open spec fn usage_hint() -> Seq<char> {
    "bad request\n\nhttps://github.com/s-thom/paste#creating-new-pastes"@
}

/// The status code that a failure is answered with.
pub open spec fn status_of(f: Failure) -> u16 {
    match f {
        Failure::NoRoute => 404,
        Failure::Paste(k) => match k {
            PasteErrorKind::FileNotFound => 404,
            PasteErrorKind::InvalidRequest => 400,
            PasteErrorKind::FileRead => 500,
            PasteErrorKind::FileWrite => 500,
            PasteErrorKind::InvalidAuthorization => 401,
        },
        Failure::Malformed => 400,
        Failure::MissingCredential => 401,
        Failure::UnsupportedMediaType => 400,
        Failure::MethodNotAllowed => 405,
        Failure::Unrecognized => 500,
    }
}

/// The message that a failure is answered with.
pub open spec fn message_of(f: Failure) -> Seq<char> {
    match f {
        Failure::NoRoute => "not found"@,
        Failure::Paste(k) => match k {
            PasteErrorKind::FileNotFound => "not found"@,
            PasteErrorKind::InvalidRequest => usage_hint(),
            PasteErrorKind::FileRead => "unknown error"@,
            PasteErrorKind::FileWrite => "unknown error"@,
            PasteErrorKind::InvalidAuthorization => "unauthorized"@,
        },
        Failure::Malformed => "bad request"@,
        Failure::MissingCredential => "unauthorized"@,
        Failure::UnsupportedMediaType => "bad request"@,
        Failure::MethodNotAllowed => "method not allowed"@,
        Failure::Unrecognized => "unexpected error"@,
    }
}

/// Answers a failure: every failure gets exactly one status and message.
pub fn recover(f: Failure) -> (r: Reply)
    ensures
        r.status == status_of(f),
        r.message@ == message_of(f),
{
    match f {
        Failure::NoRoute => Reply { status: 404, message: "not found".to_owned() },
        Failure::Paste(k) => match k {
            PasteErrorKind::FileNotFound => Reply { status: 404, message: "not found".to_owned() },
            PasteErrorKind::InvalidRequest => Reply {
                status: 400,
                message: "bad request\n\nhttps://github.com/s-thom/paste#creating-new-pastes".to_owned(),
            },
            PasteErrorKind::FileRead => Reply { status: 500, message: "unknown error".to_owned() },
            PasteErrorKind::FileWrite => Reply { status: 500, message: "unknown error".to_owned() },
            PasteErrorKind::InvalidAuthorization => Reply {
                status: 401,
                message: "unauthorized".to_owned(),
            },
        },
        Failure::Malformed => Reply { status: 400, message: "bad request".to_owned() },
        Failure::MissingCredential => Reply { status: 401, message: "unauthorized".to_owned() },
        Failure::UnsupportedMediaType => Reply { status: 400, message: "bad request".to_owned() },
        Failure::MethodNotAllowed => Reply { status: 405, message: "method not allowed".to_owned() },
        Failure::Unrecognized => Reply { status: 500, message: "unexpected error".to_owned() },
    }
}

pub open spec fn banner_tail() -> Seq<char> {
    "\n\nA tiny paste utility for self-hosting.\nhttps://github.com/s-thom/paste\n"@
}

/// The text served at the root: the service name, its version and where it
/// comes from.
pub fn banner(version: &str) -> (r: String)
    ensures
        r@ == "paste v"@ + version@ + banner_tail(),
{
    let mut r = "paste v".to_owned();
    r.append(version);
    r.append("\n\nA tiny paste utility for self-hosting.\nhttps://github.com/s-thom/paste\n");
    r
}

pub open spec fn forced_header_list() -> Seq<(Seq<char>, Seq<char>)> {
    seq![
        ("content-type"@, "text/plain"@),
        ("x-content-type-options"@, "nosniff"@),
        ("content-security-policy"@, "default-src 'none'; sandbox"@),
    ]
}

/// The headers set on every response, whatever the handler, so that pastes
/// are never served as active content.
pub fn forced_headers() -> (r: Vec<(String, String)>)
    ensures
        r@.len() == forced_header_list().len(),
        forall|i: int|
            0 <= i < r@.len() ==> (#[trigger] r@[i]).0@ == forced_header_list()[i].0 && r@[i].1@
                == forced_header_list()[i].1,
{
    let mut r: Vec<(String, String)> = Vec::new();
    r.push(("content-type".to_owned(), "text/plain".to_owned()));
    r.push(("x-content-type-options".to_owned(), "nosniff".to_owned()));
    r.push(("content-security-policy".to_owned(), "default-src 'none'; sandbox".to_owned()));
    r
}

} // verus!
