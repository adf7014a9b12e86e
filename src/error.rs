//! Failures of remote calls and of resolution.
use vstd::prelude::*;
use crate::account::CFMessage;
use crate::route::ShapeError;

verus! {

/// Why an alias operation or a lookup failed.
#[derive(Debug)]
pub enum ApiError {
    /// The provider answered `url` with a status outside 200..300; `body` is its text,
    /// when it could be read.
    Status { url: String, status: i32, body: Option<String> },
    /// The provider reported that the call to `url` failed, with its first message.
    Rejected { url: String, message: Option<CFMessage> },
    /// Nothing carries the key that was searched for.
    NotFound(String),
    /// The rule `id` was found but cannot be read as an alias, for the reason `error`.
    Shape { id: String, error: ShapeError },
    /// The account lists no destination address.
    NoDestination,
    /// An alias operation received an event that it was not waiting for.
    OutOfOrder,
}

/// `e` reports that nothing carries `key`.
pub open spec fn not_found(e: ApiError, key: Seq<char>) -> bool {
    match e {
        ApiError::NotFound(k) => k@ == key,
        _ => false,
    }
}

/// `e` reports that the rule `id` cannot be read as an alias, for the reason `error`.
pub open spec fn malformed(e: ApiError, id: Seq<char>, error: ShapeError) -> bool {
    match e {
        ApiError::Shape { id: k, error: s } => k@ == id && s == error,
        _ => false,
    }
}

} // verus!
