//! The ways in which one update can fail.

use vstd::prelude::*;

verus! {

/// Why an update produced no result. None of these is retried.
#[derive(Debug)]
pub enum UpdateMessageError {
    /// The queue's base address is not a URL, so no message address exists.
    Address,
    /// The transport failed before a response arrived; its own account.
    Transport { message: String },
    /// The service answered with another status than "No Content".
    UnexpectedStatus { status: u16, body: String },
    /// The service answered "No Content" without a header the result needs.
    ResponseParse { header: String },
}

} // verus!
