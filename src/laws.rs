//! Facts about every update, proved from the contracts of the request and
//! response functions.

use vstd::prelude::*;
use crate::encoding::{decimal_of, form_encoded, path_segment_encoded};
use crate::error::UpdateMessageError;
use crate::request::{
    headers_view, with_final_slash, UpdateMessageBuilder, UpdateRequest,
};
use crate::response::{
    header_value, pop_receipt_name, resolves_to, time_next_visible_name, RawResponse,
    UpdateMessageResponse,
};

verus! {

/// The address of a built request is the queue's address, then the path
/// `messages/<id>`, then the query: `popreceipt`, `visibilitytimeout`, and
/// `timeout` last, present exactly when the configuration has one.
pub proof fn message_url_layout(
    b: UpdateMessageBuilder,
    req: UpdateRequest,
    message_id: Seq<char>,
    pop_receipt: Seq<char>,
    text: Seq<char>,
)
    requires
        b.describes(req, message_id, pop_receipt, text),
    ensures
        req.url@ == with_final_slash(b.queue_url@) + "messages/"@ + path_segment_encoded(message_id)
            + "?popreceipt="@ + form_encoded(pop_receipt) + "&visibilitytimeout="@ + decimal_of(
            b.visibility_timeout.seconds as nat,
        ) + match b.timeout {
            Some(t) => "&timeout="@ + decimal_of(t.seconds as nat),
            None => Seq::empty(),
        },
{
}

/// Without an operation timeout the address ends with the visibility
/// timeout, and without a correlation identifier the request has no header.
pub proof fn plain_configuration_adds_nothing(
    b: UpdateMessageBuilder,
    req: UpdateRequest,
    message_id: Seq<char>,
    pop_receipt: Seq<char>,
    text: Seq<char>,
)
    requires
        b.describes(req, message_id, pop_receipt, text),
    ensures
        b.timeout is None ==> {
            let d = decimal_of(b.visibility_timeout.seconds as nat);
            &&& req.url@.len() >= d.len()
            &&& req.url@.subrange(req.url@.len() - d.len(), req.url@.len() as int) == d
        },
        b.client_request_id is None ==> req.headers@.len() == 0,
{
    if b.timeout is None {
        let d = decimal_of(b.visibility_timeout.seconds as nat);
        let front = with_final_slash(b.queue_url@) + "messages/"@ + path_segment_encoded(message_id)
            + "?popreceipt="@ + form_encoded(pop_receipt) + "&visibilitytimeout="@;
        assert(req.url@ =~= front + d);
        assert(req.url@.subrange(front.len() as int, req.url@.len() as int) =~= d);
    }
    if b.client_request_id is None {
        assert(headers_view(req.headers@).len() == 0);
    }
}

/// A "No Content" answer that carries the pop receipt and the time the
/// message is next visible yields a result holding those two values.
pub proof fn no_content_yields_headers(
    resp: RawResponse,
    r: Result<UpdateMessageResponse, UpdateMessageError>,
)
    requires
        resolves_to(resp, r),
        resp.status == 204,
        header_value(headers_view(resp.headers@), pop_receipt_name()) is Some,
        header_value(headers_view(resp.headers@), time_next_visible_name()) is Some,
    ensures
        r is Ok,
        header_value(headers_view(resp.headers@), pop_receipt_name()) == Some(
            r->Ok_0.pop_receipt@,
        ),
        header_value(headers_view(resp.headers@), time_next_visible_name()) == Some(
            r->Ok_0.time_next_visible@,
        ),
{
}

/// Any other status than "No Content" is an unexpected-status error that
/// carries that status and the answer's body.
pub proof fn other_status_is_unexpected(
    resp: RawResponse,
    r: Result<UpdateMessageResponse, UpdateMessageError>,
)
    requires
        resolves_to(resp, r),
        resp.status != 204,
    ensures
        r matches Err(UpdateMessageError::UnexpectedStatus { status, body }) && status
            == resp.status && body@ == resp.body@,
{
}

} // verus!
