//! The library's error type.

use vstd::prelude::*;
use vstd::string::StringExecFns;

verus! {

/// Why an operation failed.
#[derive(Debug, Clone, PartialEq, Eq)]
pub enum AdbaError {
    /// The catalog or a tenant database could not be used, or a statement failed.
    Database(String),
    /// The transport could not be started.
    Server(String),
    /// The network could not be reached.
    Network(String),
    /// The service could not be announced or found.
    Discovery(String),
    /// A presented pairing code does not match.
    Auth(String),
    /// No tenant database has the name.
    NotFound(String),
    /// A file-system operation failed.
    Io(String),
}

/// The text that precedes the detail in each kind of error's description.
pub open spec fn error_prefix(e: AdbaError) -> Seq<char> {
    match e {
        AdbaError::Database(_) => "Database error: "@,
        AdbaError::Server(_) => "Server error: "@,
        AdbaError::Network(_) => "Network error: "@,
        AdbaError::Discovery(_) => "Discovery error: "@,
        AdbaError::Auth(_) => "Authentication failed: "@,
        AdbaError::NotFound(_) => "Database not found: "@,
        AdbaError::Io(_) => "IO error: "@,
    }
}

/// The detail that an error carries.
pub open spec fn error_detail(e: AdbaError) -> Seq<char> {
    match e {
        AdbaError::Database(m) => m@,
        AdbaError::Server(m) => m@,
        AdbaError::Network(m) => m@,
        AdbaError::Discovery(m) => m@,
        AdbaError::Auth(m) => m@,
        AdbaError::NotFound(m) => m@,
        AdbaError::Io(m) => m@,
    }
}

impl AdbaError {
    /// The human-readable description: the kind's prefix, then the detail.
    pub fn describe(&self) -> (r: String)
        ensures
            r@ == error_prefix(*self) + error_detail(*self),
    {
        let (prefix, detail) = match self {
            AdbaError::Database(m) => ("Database error: ", m),
            AdbaError::Server(m) => ("Server error: ", m),
            AdbaError::Network(m) => ("Network error: ", m),
            AdbaError::Discovery(m) => ("Discovery error: ", m),
            AdbaError::Auth(m) => ("Authentication failed: ", m),
            AdbaError::NotFound(m) => ("Database not found: ", m),
            AdbaError::Io(m) => ("IO error: ", m),
        };
        let mut out = String::from_str(prefix);
        out.append(detail.as_str());
        out
    }
}

} // verus!
