//! What an answer of the service means for one update.

use vstd::prelude::*;
use vstd::string::StringExecFns;
use crate::encoding::{no_content_status, request_id_header, request_id_name};
use crate::error::UpdateMessageError;
use crate::request::{headers_view, opt_view};

verus! {

/// A response as a transport hands it back. Header names are in lower case,
/// as `http` keeps them.
#[derive(Clone, Debug)]
pub struct RawResponse {
    pub status: u16,
    pub headers: Vec<(String, String)>,
    pub body: String,
}

/// What the service reports of an update that took place.
#[derive(Clone, Debug)]
pub struct UpdateMessageResponse {
    /// The token that authorises the next change of the message.
    pub pop_receipt: String,
    /// When the message becomes visible again, as the service wrote it.
    pub time_next_visible: String,
    /// The service's name for the request, when it gave one.
    pub request_id: Option<String>,
}

/// `x-ms-popreceipt`
pub open spec fn pop_receipt_name() -> Seq<char> {
    "x-ms-popreceipt"@
}

/// `x-ms-time-next-visible`
pub open spec fn time_next_visible_name() -> Seq<char> {
    "x-ms-time-next-visible"@
}

/// The value of the first header at or after position `i` named `name`.
pub open spec fn header_value_from(
    headers: Seq<(Seq<char>, Seq<char>)>,
    name: Seq<char>,
    i: int,
) -> Option<Seq<char>>
    decreases headers.len() - i,
{
    if i < 0 || i >= headers.len() {
        None
    } else if headers[i].0 == name {
        Some(headers[i].1)
    } else {
        header_value_from(headers, name, i + 1)
    }
}

/// The value of the first header named `name`.
pub open spec fn header_value(headers: Seq<(Seq<char>, Seq<char>)>, name: Seq<char>) -> Option<
    Seq<char>,
> {
    header_value_from(headers, name, 0)
}

/// Whether `r` is what the response `resp` means: a result only for
/// "No Content" with both required headers, else the error that says why.
pub open spec fn resolves_to(
    resp: RawResponse,
    r: Result<UpdateMessageResponse, UpdateMessageError>,
) -> bool {
    let h = headers_view(resp.headers@);
    if resp.status != 204 {
        r matches Err(UpdateMessageError::UnexpectedStatus { status, body }) && status
            == resp.status && body@ == resp.body@
    } else if header_value(h, pop_receipt_name()) is None {
        r matches Err(UpdateMessageError::ResponseParse { header }) && header@ == pop_receipt_name()
    } else if header_value(h, time_next_visible_name()) is None {
        r matches Err(UpdateMessageError::ResponseParse { header }) && header@
            == time_next_visible_name()
    } else {
        r matches Ok(v) && Some(v.pop_receipt@) == header_value(h, pop_receipt_name()) && Some(
            v.time_next_visible@,
        ) == header_value(h, time_next_visible_name()) && opt_view(v.request_id) == header_value(
            h,
            request_id_name(),
        )
    }
}

/// The value of the first header named `name`, if any.
pub fn find_header(headers: &Vec<(String, String)>, name: &String) -> (r: Option<String>)
    ensures
        opt_view(r) == header_value(headers_view(headers@), name@),
{
    let ghost h = headers_view(headers@);
    let mut i: usize = 0;
    while i < headers.len()
        invariant
            i <= headers@.len(),
            h == headers_view(headers@),
            header_value(h, name@) == header_value_from(h, name@, i as int),
        decreases headers@.len() - i,
    {
        if headers[i].0 == *name {
            return Some(headers[i].1.clone());
        }
        i = i + 1;
    }
    None
}

/// Turns a response into the outcome of the update: only "No Content" is
/// success, and then the result is read from its headers.
pub fn resolve_response(response: RawResponse) -> (r: Result<UpdateMessageResponse, UpdateMessageError>)
    ensures
        resolves_to(response, r),
{
    if response.status != no_content_status() {
        return Err(UpdateMessageError::UnexpectedStatus { status: response.status, body: response.body });
    }
    let pop_receipt_header = String::from_str("x-ms-popreceipt");
    let pop_receipt = match find_header(&response.headers, &pop_receipt_header) {
        Some(v) => v,
        None => {
            return Err(UpdateMessageError::ResponseParse { header: pop_receipt_header });
        },
    };
    let visible_header = String::from_str("x-ms-time-next-visible");
    let time_next_visible = match find_header(&response.headers, &visible_header) {
        Some(v) => v,
        None => {
            return Err(UpdateMessageError::ResponseParse { header: visible_header });
        },
    };
    let request_id = find_header(&response.headers, &request_id_header());
    Ok(UpdateMessageResponse { pop_receipt, time_next_visible, request_id })
}

} // verus!
