use vstd::prelude::*;

verus! {

/// What went wrong, as the reply to the client sees it.
#[derive(Debug, Clone, Copy, PartialEq, Eq, Structural)]
pub enum PasteErrorKind {
    /// No paste is stored under the requested identifier.
    FileNotFound,
    /// The paste exists but could not be read in full.
    FileRead,
    /// The paste directory or a paste file could not be written.
    FileWrite,
    /// The request is not a usable upload.
    InvalidRequest,
    /// The bearer token is absent, malformed or wrong.
    InvalidAuthorization,
}

/// A failure of the service, with a short diagnostic for the log.
#[derive(Debug)]
pub struct PasteError {
    pub error_kind: PasteErrorKind,
    pub details: String,
}

impl PasteError {
    pub fn new(error_kind: PasteErrorKind, msg: &str) -> (r: PasteError)
        ensures
            r.error_kind == error_kind,
            r.details@ == msg@,
    {
        PasteError { error_kind, details: msg.to_owned() }
    }

    /// The diagnostic text of the error.
    pub fn description(&self) -> (r: &str)
        ensures
            r@ == self.details@,
    {
        self.details.as_str()
    }
}

} // verus!
