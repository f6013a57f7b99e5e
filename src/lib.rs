//! Request construction and response resolution for replacing the body and
//! visibility timeout of a queue message that the caller currently holds.

pub mod encoding;
pub mod error;
pub mod laws;
pub mod request;
pub mod response;
pub mod update;
