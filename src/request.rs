//! The configuration of one update and the request derived from it.

use vstd::prelude::*;
use vstd::string::{StrSliceExecFns, StringExecFns};
use crate::encoding::{
    client_request_id_header, client_request_id_name, decimal, decimal_of, encode_path_segment,
    form_encode, form_encoded, is_url, parses_as_url, path_segment_encoded, put_method,
};
use crate::error::UpdateMessageError;

verus! {

/// How long, in seconds, the message stays hidden after the update.
#[derive(Clone, Copy, Debug, PartialEq, Eq, Structural)]
pub struct VisibilityTimeout {
    pub seconds: u64,
}

impl VisibilityTimeout {
    pub fn new(seconds: u64) -> (r: Self)
        ensures
            r.seconds == seconds,
    {
        VisibilityTimeout { seconds }
    }
}

/// An upper bound, in seconds, that the service puts on the call.
#[derive(Clone, Copy, Debug, PartialEq, Eq, Structural)]
pub struct Timeout {
    pub seconds: u64,
}

impl Timeout {
    pub fn new(seconds: u64) -> (r: Self)
        ensures
            r.seconds == seconds,
    {
        Timeout { seconds }
    }
}

/// A message that the caller holds: its identifier and the token that
/// authorises changing it.
pub trait PopReceipt {
    spec fn message_id_view(&self) -> Seq<char>;

    spec fn pop_receipt_view(&self) -> Seq<char>;

    fn message_id(&self) -> (r: &str)
        ensures
            r@ == self.message_id_view(),
    ;

    fn pop_receipt(&self) -> (r: &str)
        ensures
            r@ == self.pop_receipt_view(),
    ;
}

/// A message reference held as two texts.
#[derive(Clone, Debug)]
pub struct MessagePopReceipt {
    pub message_id: String,
    pub pop_receipt: String,
}

impl MessagePopReceipt {
    pub fn new(message_id: String, pop_receipt: String) -> (r: Self)
        ensures
            r.message_id@ == message_id@,
            r.pop_receipt@ == pop_receipt@,
    {
        MessagePopReceipt { message_id, pop_receipt }
    }
}

impl PopReceipt for MessagePopReceipt {
    open spec fn message_id_view(&self) -> Seq<char> {
        self.message_id@
    }

    open spec fn pop_receipt_view(&self) -> Seq<char> {
        self.pop_receipt@
    }

    fn message_id(&self) -> (r: &str) {
        self.message_id.as_str()
    }

    fn pop_receipt(&self) -> (r: &str) {
        self.pop_receipt.as_str()
    }
}

/// The settings of one update. Each setter returns a new value, so one
/// configuration can serve as the base of several calls.
#[derive(Clone, Debug)]
pub struct UpdateMessageBuilder {
    /// The address of the queue that owns the message.
    pub queue_url: String,
    pub visibility_timeout: VisibilityTimeout,
    pub timeout: Option<Timeout>,
    pub client_request_id: Option<String>,
}

/// An HTTP request, ready for a transport.
#[derive(Clone, Debug)]
pub struct UpdateRequest {
    pub method: String,
    pub url: String,
    pub headers: Vec<(String, String)>,
    pub body: String,
}

/// The texts of a list of header pairs.
pub open spec fn headers_view(headers: Seq<(String, String)>) -> Seq<(Seq<char>, Seq<char>)> {
    headers.map_values(|h: (String, String)| (h.0@, h.1@))
}

pub open spec fn opt_view(o: Option<String>) -> Option<Seq<char>> {
    match o {
        Some(s) => Some(s@),
        None => None,
    }
}

/// The base address with exactly one `/` added when it lacks a final one.
pub open spec fn with_final_slash(base: Seq<char>) -> Seq<char> {
    if base.len() > 0 && base.last() == '/' {
        base
    } else {
        base.push('/')
    }
}

/// The query text that an optional operation timeout adds.
pub open spec fn timeout_query(timeout: Option<Timeout>) -> Seq<char> {
    match timeout {
        Some(t) => "&timeout="@ + decimal_of(t.seconds as nat),
        None => Seq::empty(),
    }
}

/// The address of one message, with its query in the order that the service
/// expects: the token, the visibility timeout, then the optional timeout.
pub open spec fn message_url(
    base: Seq<char>,
    message_id: Seq<char>,
    pop_receipt: Seq<char>,
    visibility_timeout: VisibilityTimeout,
    timeout: Option<Timeout>,
) -> Seq<char> {
    with_final_slash(base) + "messages/"@ + path_segment_encoded(message_id) + "?popreceipt="@
        + form_encoded(pop_receipt) + "&visibilitytimeout="@ + decimal_of(
        visibility_timeout.seconds as nat,
    ) + timeout_query(timeout)
}

/// The new text wrapped, unescaped, in the envelope the service reads.
pub open spec fn message_body(text: Seq<char>) -> Seq<char> {
    "<QueueMessage><MessageText>"@ + text + "</MessageText></QueueMessage>"@
}

/// The headers of the request: the correlation identifier when one is set.
pub open spec fn request_headers(client_request_id: Option<Seq<char>>) -> Seq<(Seq<char>, Seq<char>)> {
    match client_request_id {
        Some(id) => seq![(client_request_id_name(), id)],
        None => Seq::empty(),
    }
}

impl UpdateMessageBuilder {
    /// Whether `req` is the request that updates the message `message_id`,
    /// authorised by `pop_receipt`, to hold `text`.
    pub open spec fn describes(
        &self,
        req: UpdateRequest,
        message_id: Seq<char>,
        pop_receipt: Seq<char>,
        text: Seq<char>,
    ) -> bool {
        &&& req.method@ == "PUT"@
        &&& req.url@ == message_url(
            self.queue_url@,
            message_id,
            pop_receipt,
            self.visibility_timeout,
            self.timeout,
        )
        &&& headers_view(req.headers@) == request_headers(opt_view(self.client_request_id))
        &&& req.body@ == message_body(text)
    }
}

impl UpdateMessageBuilder {
    /// A configuration for the queue at `queue_url` with no operation timeout
    /// and no correlation identifier.
    pub fn new(queue_url: String, visibility_timeout: VisibilityTimeout) -> (r: Self)
        ensures
            r.queue_url@ == queue_url@,
            r.visibility_timeout == visibility_timeout,
            r.timeout is None,
            r.client_request_id is None,
    {
        UpdateMessageBuilder { queue_url, visibility_timeout, timeout: None, client_request_id: None }
    }

    /// The same configuration with an operation timeout.
    pub fn timeout(self, timeout: Timeout) -> (r: Self)
        ensures
            r.queue_url@ == self.queue_url@,
            r.visibility_timeout == self.visibility_timeout,
            r.timeout == Some(timeout),
            opt_view(r.client_request_id) == opt_view(self.client_request_id),
    {
        UpdateMessageBuilder { timeout: Some(timeout), ..self }
    }

    /// The same configuration with a correlation identifier.
    pub fn client_request_id(self, client_request_id: String) -> (r: Self)
        ensures
            r.queue_url@ == self.queue_url@,
            r.visibility_timeout == self.visibility_timeout,
            r.timeout == self.timeout,
            opt_view(r.client_request_id) == Some(client_request_id@),
    {
        UpdateMessageBuilder { client_request_id: Some(client_request_id), ..self }
    }

    /// The request that updates the message that `pop_receipt` names to hold
    /// `new_body`; an address error when the queue's base address is no URL.
    pub fn build_request<R: PopReceipt>(&self, pop_receipt: &R, new_body: &str) -> (r: Result<
        UpdateRequest,
        UpdateMessageError,
    >)
        ensures
            r is Ok <==> parses_as_url(self.queue_url@),
            r is Err ==> r->Err_0 is Address,
            r is Ok ==> self.describes(
                r->Ok_0,
                pop_receipt.message_id_view(),
                pop_receipt.pop_receipt_view(),
                new_body@,
            ),
    {
        if !is_url(self.queue_url.as_str()) {
            return Err(UpdateMessageError::Address);
        }
        let url = self.message_url(pop_receipt);
        let mut headers: Vec<(String, String)> = Vec::new();
        match &self.client_request_id {
            Some(id) => {
                headers.push((client_request_id_header(), id.clone()));
            },
            None => {},
        }
        assert(headers_view(headers@) =~= request_headers(opt_view(self.client_request_id)));
        let mut body = String::from_str("<QueueMessage><MessageText>");
        body.append(new_body);
        body.append("</MessageText></QueueMessage>");
        Ok(UpdateRequest { method: put_method(), url, headers, body })
    }

    fn message_url<R: PopReceipt>(&self, pop_receipt: &R) -> (r: String)
        ensures
            r@ == message_url(
                self.queue_url@,
                pop_receipt.message_id_view(),
                pop_receipt.pop_receipt_view(),
                self.visibility_timeout,
                self.timeout,
            ),
    {
        let base = self.queue_url.as_str();
        let mut url = String::from_str(base);
        let n = base.unicode_len();
        if n == 0 || base.get_char(n - 1) != '/' {
            url.append("/");
            proof {
                reveal_strlit("/");
            }
        }
        assert(url@ =~= with_final_slash(self.queue_url@));
        url.append("messages/");
        url.append(encode_path_segment(pop_receipt.message_id()).as_str());
        url.append("?popreceipt=");
        url.append(form_encode(pop_receipt.pop_receipt()).as_str());
        url.append("&visibilitytimeout=");
        url.append(decimal(self.visibility_timeout.seconds).as_str());
        match self.timeout {
            Some(t) => {
                url.append("&timeout=");
                url.append(decimal(t.seconds).as_str());
            },
            None => {},
        }
        assert(url@ =~= message_url(
            self.queue_url@,
            pop_receipt.message_id_view(),
            pop_receipt.pop_receipt_view(),
            self.visibility_timeout,
            self.timeout,
        ));
        url
    }
}

} // verus!
