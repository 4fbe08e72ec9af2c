use vstd::prelude::*;

verus! {

/// The kind of a failure: a closed taxonomy. Variants carry plain-text
/// diagnostics, so callers never depend on a transport library's own
/// error types.
#[derive(Debug)]
pub enum ErrorKind {
    /// A malformed address or domain; surfaced immediately, never retried.
    BadInput,
    /// The HTTP client could not be built.
    BuildHttpClient,
    /// Transport succeeded but the status or content-type check failed.
    InvalidResponse,
    /// A network-level failure (connection refused, unreachable host, ...).
    Transport(String),
    /// A request ran out of time.
    Timeout,
    /// The DNS TXT lookup failed; never fatal on its own.
    Resolve(String),
    /// A lookup returned no usable records.
    NoRecordsFound,
    /// A document was fetched and type-valid, but malformed for the schema.
    ParseXml(String),
    /// Every candidate failed: the discovery error when discovery itself
    /// failed, then one error per attempted candidate, in attempt order.
    NotFound(Vec<Error>),
}

/// A failure, as a kind plus a human-readable message.
#[derive(Debug)]
pub struct Error {
    pub kind: ErrorKind,
    pub message: String,
}

impl Error {
    pub fn new(kind: ErrorKind, message: String) -> (e: Error)
        ensures
            e.kind == kind,
            e.message == message,
    {
        Error { kind, message }
    }

    pub fn kind(&self) -> (k: &ErrorKind)
        ensures
            k == &self.kind,
    {
        &self.kind
    }

    pub fn message(&self) -> (m: &str)
        ensures
            m@ == self.message@,
    {
        self.message.as_str()
    }
}

} // verus!
