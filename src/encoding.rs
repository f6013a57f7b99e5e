//! Text encodings used on the wire, and the outside functions that perform them.

use vstd::prelude::*;

verus! {

/// The ASCII digit for a value below ten.
pub open spec fn digit_char(d: nat) -> char
    recommends
        d < 10,
{
    (('0' as u8) + (d as u8)) as char
}

/// The decimal text of a natural number, without sign or leading zeros.
pub open spec fn decimal_of(n: nat) -> Seq<char>
    decreases n,
{
    if n < 10 {
        seq![digit_char(n)]
    } else {
        decimal_of(n / 10).push(digit_char(n % 10))
    }
}

/// What `application/x-www-form-urlencoded` serialisation makes of a text.
pub uninterp spec fn form_encoded(s: Seq<char>) -> Seq<char>;

/// What a URL path segment becomes once percent-encoded.
pub uninterp spec fn path_segment_encoded(s: Seq<char>) -> Seq<char>;

/// Whether a text parses as an absolute URL.
pub uninterp spec fn parses_as_url(s: Seq<char>) -> bool;

/// Relies on `<u64 as Display>`: the decimal digits of the value.
#[verifier::external_body]
pub(crate) fn decimal(n: u64) -> (r: String)
    ensures
        r@ == decimal_of(n as nat),
{
    n.to_string()
}

/// Relies on `url::form_urlencoded::byte_serialize`, the serialiser that
/// `Url::query_pairs_mut().append_pair` applies to each value.
#[verifier::external_body]
pub(crate) fn form_encode(s: &str) -> (r: String)
    ensures
        r@ == form_encoded(s@),
{
    url::form_urlencoded::byte_serialize(s.as_bytes()).collect::<String>()
}

/// Relies on `url::PathSegmentsMut::push`: on a URL whose path is empty, the
/// path becomes `/` followed by the encoded segment.
#[verifier::external_body]
pub(crate) fn encode_path_segment(segment: &str) -> (r: String)
    ensures
        r@ == path_segment_encoded(segment@),
{
    let mut url = url::Url::parse("unix:/").unwrap();
    url.path_segments_mut().unwrap().clear().push(segment);
    url.path()[1..].to_string()
}

/// Relies on `url::Url::parse`: whether it accepts the text.
#[verifier::external_body]
pub(crate) fn is_url(s: &str) -> (r: bool)
    ensures
        r == parses_as_url(s@),
{
    url::Url::parse(s).is_ok()
}

/// Relies on `http::Method::PUT` and its `as_str`.
#[verifier::external_body]
pub(crate) fn put_method() -> (r: String)
    ensures
        r@ == "PUT"@,
{
    http::Method::PUT.as_str().to_string()
}

/// Relies on `http::StatusCode::NO_CONTENT` and its `as_u16`.
#[verifier::external_body]
pub(crate) fn no_content_status() -> (r: u16)
    ensures
        r == 204,
{
    http::StatusCode::NO_CONTENT.as_u16()
}

/// Relies on `azure_core::headers::CLIENT_REQUEST_ID`, the header that
/// carries a caller's correlation identifier.
#[verifier::external_body]
pub(crate) fn client_request_id_header() -> (r: String)
    ensures
        r@ == client_request_id_name(),
{
    azure_core::headers::CLIENT_REQUEST_ID.to_string()
}

/// Relies on `azure_core::headers::REQUEST_ID`, the header in which the
/// service names its request.
#[verifier::external_body]
pub(crate) fn request_id_header() -> (r: String)
    ensures
        r@ == request_id_name(),
{
    azure_core::headers::REQUEST_ID.to_string()
}

/// `x-ms-client-request-id`
pub open spec fn client_request_id_name() -> Seq<char> {
    seq!['x', '-', 'm', 's', '-', 'c', 'l', 'i', 'e', 'n', 't', '-', 'r', 'e', 'q', 'u', 'e', 's', 't', '-', 'i', 'd']
}

/// `x-ms-request-id`
pub open spec fn request_id_name() -> Seq<char> {
    seq!['x', '-', 'm', 's', '-', 'r', 'e', 'q', 'u', 'e', 's', 't', '-', 'i', 'd']
}

} // verus!
