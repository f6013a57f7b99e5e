//! One update from start to end: build the request, hand it to a transport
//! once, and resolve what comes back.

use vstd::prelude::*;
use crate::encoding::parses_as_url;
use crate::error::UpdateMessageError;
use crate::request::{PopReceipt, UpdateMessageBuilder, UpdateRequest};
use crate::response::{resolve_response, resolves_to, RawResponse, UpdateMessageResponse};

verus! {

/// Whether `r` is what the transport's outcome `out` means for the update.
pub open spec fn transport_outcome(
    out: Result<RawResponse, String>,
    r: Result<UpdateMessageResponse, UpdateMessageError>,
) -> bool {
    match out {
        Ok(resp) => resolves_to(resp, r),
        Err(m) => r matches Err(UpdateMessageError::Transport { message }) && message@ == m@,
    }
}

impl UpdateMessageBuilder {
    /// Replaces the body of the message that `pop_receipt` names with
    /// `new_body`. `send` performs the request and is called at most once:
    /// not at all when the queue's address is no URL, and never again after
    /// a failure.
    pub fn execute<R: PopReceipt, F: FnOnce(UpdateRequest) -> Result<RawResponse, String>>(
        &self,
        pop_receipt: &R,
        new_body: &str,
        send: F,
    ) -> (r: Result<UpdateMessageResponse, UpdateMessageError>)
        requires
            forall|req: UpdateRequest| send.requires((req,)),
        ensures
            !parses_as_url(self.queue_url@) ==> r matches Err(UpdateMessageError::Address),
            parses_as_url(self.queue_url@) ==> exists|
                req: UpdateRequest,
                out: Result<RawResponse, String>,
            |
                self.describes(
                    req,
                    pop_receipt.message_id_view(),
                    pop_receipt.pop_receipt_view(),
                    new_body@,
                ) && #[trigger] send.ensures((req,), out) && transport_outcome(out, r),
    {
        let request = match self.build_request(pop_receipt, new_body) {
            Ok(request) => request,
            Err(e) => {
                return Err(e);
            },
        };
        let ghost sent = request;
        let out = send(request);
        let r = match out {
            Ok(response) => resolve_response(response),
            Err(message) => Err(UpdateMessageError::Transport { message }),
        };
        assert(send.ensures((sent,), out) && transport_outcome(out, r));
        r
    }
}

} // verus!
