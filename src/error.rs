//! The failures the engine reports.
use vstd::prelude::*;

verus! {

/// Every way loading, executing or persisting an action can fail.
#[derive(Clone, Debug)]
pub enum FesiError {
    /// The batch file could not be read; carries the path.
    FileRead(String),
    /// The batch document is not well-formed or has the wrong shape; carries a diagnostic.
    Parse(String),
    /// A header name or value is not valid HTTP header syntax.
    InvalidHeader { name: String, value: String },
    /// The transport failed (connection, DNS, TLS, body decoding); carries its message.
    Request(String),
    /// The method is outside GET, POST, PUT, PATCH and DELETE; carries it as given.
    UnsupportedMethod(String),
    /// The response could not be persisted; carries the reason.
    Write(String),
}

} // verus!
