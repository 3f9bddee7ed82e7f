//! How each endpoint's outcome becomes a reply: its status and the envelope's
//! success flag and error text. The payload itself is rendered by the
//! transport.

use vstd::prelude::*;
use vstd::string::StringExecFns;
use crate::error::{error_detail, error_prefix, AdbaError};

verus! {

pub const STATUS_OK: u16 = 200;
pub const STATUS_CREATED: u16 = 201;
pub const STATUS_BAD_REQUEST: u16 = 400;
pub const STATUS_UNAUTHORIZED: u16 = 401;
pub const STATUS_NOT_FOUND: u16 = 404;
pub const STATUS_INTERNAL_ERROR: u16 = 500;

/// The owner recorded for a database created without one.
pub const UNKNOWN_CLIENT_APP: &'static str = "unknown";

/// The status of a reply, whether it carries data, and its error text.
#[derive(Debug, Clone, PartialEq, Eq)]
pub struct ReplyHead {
    pub status: u16,
    pub success: bool,
    pub error: Option<String>,
}

/// The head of a successful reply with the given status.
pub open spec fn success_head(h: ReplyHead, status: u16) -> bool {
    h.status == status && h.success && h.error is None
}

/// The head of a failed reply with the given status and error text.
pub open spec fn failure_head(h: ReplyHead, status: u16, text: Seq<char>) -> bool {
    &&& h.status == status
    &&& !h.success
    &&& h.error matches Some(m) && m@ == text
}

/// The description of an error, as a reply carries it.
pub open spec fn described(e: AdbaError) -> Seq<char> {
    error_prefix(e) + error_detail(e)
}

fn success(status: u16) -> (r: ReplyHead)
    ensures
        success_head(r, status),
{
    ReplyHead { status, success: true, error: None }
}

fn failure(status: u16, text: String) -> (r: ReplyHead)
    ensures
        failure_head(r, status, text@),
{
    ReplyHead { status, success: false, error: Some(text) }
}

/// The owner named in a creation request, or `unknown`.
pub fn client_app_or_default(client_app: Option<String>) -> (r: String)
    ensures
        r@ == (match client_app {
            Some(c) => c@,
            None => UNKNOWN_CLIENT_APP@,
        }),
{
    match client_app {
        Some(c) => c,
        None => String::from_str(UNKNOWN_CLIENT_APP),
    }
}

/// Creating a database: 201 with the new record, or 400.
pub fn creation_reply<T>(r: &Result<T, AdbaError>) -> (h: ReplyHead)
    ensures
        r is Ok ==> success_head(h, STATUS_CREATED),
        r is Err ==> failure_head(h, STATUS_BAD_REQUEST, described(r->Err_0)),
{
    match r {
        Ok(_) => success(STATUS_CREATED),
        Err(e) => failure(STATUS_BAD_REQUEST, e.describe()),
    }
}

/// Listing or deleting: 200, or 500 when storage failed.
pub fn storage_reply<T>(r: &Result<T, AdbaError>) -> (h: ReplyHead)
    ensures
        r is Ok ==> success_head(h, STATUS_OK),
        r is Err ==> failure_head(h, STATUS_INTERNAL_ERROR, described(r->Err_0)),
{
    match r {
        Ok(_) => success(STATUS_OK),
        Err(e) => failure(STATUS_INTERNAL_ERROR, e.describe()),
    }
}

/// Fetching one database: 200 when found, 404 when absent, 500 when storage
/// failed.
pub fn lookup_reply<T>(r: &Result<Option<T>, AdbaError>) -> (h: ReplyHead)
    ensures
        r matches Ok(Some(_)) ==> success_head(h, STATUS_OK),
        r matches Ok(None) ==> failure_head(h, STATUS_NOT_FOUND, "Database not found"@),
        r is Err ==> failure_head(h, STATUS_INTERNAL_ERROR, described(r->Err_0)),
{
    match r {
        Ok(Some(_)) => success(STATUS_OK),
        Ok(None) => failure(STATUS_NOT_FOUND, String::from_str("Database not found")),
        Err(e) => failure(STATUS_INTERNAL_ERROR, e.describe()),
    }
}

/// Running a statement: 401 when the pairing code was refused, otherwise 200
/// with the result, or 400 when the statement failed.
pub fn query_reply<T>(authorized: bool, r: &Result<T, AdbaError>) -> (h: ReplyHead)
    ensures
        !authorized ==> failure_head(h, STATUS_UNAUTHORIZED, "Invalid pairing code"@),
        authorized && r is Ok ==> success_head(h, STATUS_OK),
        authorized && r is Err ==> failure_head(h, STATUS_BAD_REQUEST, described(r->Err_0)),
{
    if !authorized {
        return failure(STATUS_UNAUTHORIZED, String::from_str("Invalid pairing code"));
    }
    match r {
        Ok(_) => success(STATUS_OK),
        Err(e) => failure(STATUS_BAD_REQUEST, e.describe()),
    }
}

} // verus!
