use queue_update::error::UpdateMessageError;
use queue_update::request::{MessagePopReceipt, Timeout, UpdateMessageBuilder, VisibilityTimeout};
use queue_update::response::{find_header, resolve_response, RawResponse, UpdateMessageResponse};

fn builder(base: &str, seconds: u64) -> UpdateMessageBuilder {
    UpdateMessageBuilder::new(base.to_string(), VisibilityTimeout::new(seconds))
}

fn receipt(id: &str, token: &str) -> MessagePopReceipt {
    MessagePopReceipt::new(id.to_string(), token.to_string())
}

fn pairs(items: &[(&str, &str)]) -> Vec<(String, String)> {
    items.iter().map(|(k, v)| (k.to_string(), v.to_string())).collect()
}

fn no_content() -> RawResponse {
    RawResponse {
        status: 204,
        headers: pairs(&[
            ("x-ms-request-id", "req-1"),
            ("x-ms-popreceipt", "NEWTOKEN"),
            ("x-ms-time-next-visible", "Fri, 09 Oct 2026 21:04:30 GMT"),
        ]),
        body: String::new(),
    }
}

#[test]
fn scenario_request_is_built() {
    let b = builder("https://acct.example/myqueue", 30);
    let req = b.build_request(&receipt("abc123", "AAEC=="), "hello").unwrap();
    assert_eq!(req.method, "PUT");
    assert_eq!(
        req.url,
        "https://acct.example/myqueue/messages/abc123?popreceipt=AAEC%3D%3D&visibilitytimeout=30"
    );
    assert_eq!(req.body, "<QueueMessage><MessageText>hello</MessageText></QueueMessage>");
    assert!(req.headers.is_empty());
}

#[test]
fn scenario_no_content_succeeds() {
    let b = builder("https://acct.example/myqueue", 30);
    let r = b.execute(&receipt("abc123", "AAEC=="), "hello", |_req| Ok(no_content()));
    assert!(r.is_ok());
}

#[test]
fn scenario_other_status_fails() {
    let b = builder("https://acct.example/myqueue", 30);
    let r = b.execute(&receipt("abc123", "AAEC=="), "hello", |_req| {
        Ok(RawResponse { status: 200, headers: Vec::new(), body: String::new() })
    });
    assert!(matches!(r, Err(UpdateMessageError::UnexpectedStatus { status: 200, .. })));
}

#[test]
fn body_is_not_escaped() {
    let b = builder("https://acct.example/myqueue", 30);
    let req = b.build_request(&receipt("abc123", "t"), "<b>a & b</b>").unwrap();
    assert_eq!(
        req.body,
        "<QueueMessage><MessageText><b>a & b</b></MessageText></QueueMessage>"
    );
}

#[test]
fn empty_body_is_wrapped() {
    let b = builder("https://acct.example/myqueue", 30);
    let req = b.build_request(&receipt("abc123", "t"), "").unwrap();
    assert_eq!(req.body, "<QueueMessage><MessageText></MessageText></QueueMessage>");
}

#[test]
fn timeout_comes_last_and_header_is_set() {
    let b = builder("https://acct.example/myqueue", 0)
        .timeout(Timeout::new(10))
        .client_request_id("corr-7".to_string());
    let req = b.build_request(&receipt("abc123", "AAEC=="), "x").unwrap();
    assert_eq!(
        req.url,
        "https://acct.example/myqueue/messages/abc123?popreceipt=AAEC%3D%3D&visibilitytimeout=0&timeout=10"
    );
    assert_eq!(req.headers, pairs(&[("x-ms-client-request-id", "corr-7")]));
}

#[test]
fn plain_configuration_has_no_timeout_or_header() {
    let b = builder("https://acct.example/myqueue", 45);
    let req = b.build_request(&receipt("m", "p"), "x").unwrap();
    assert!(req.url.ends_with("&visibilitytimeout=45"));
    assert!(!req.url.contains("&timeout="));
    assert!(req.headers.is_empty());
}

#[test]
fn base_configuration_is_reusable() {
    let base = builder("https://acct.example/myqueue", 30);
    let with_timeout = base.clone().timeout(Timeout::new(5));
    let plain = base.build_request(&receipt("m", "p"), "x").unwrap();
    let timed = with_timeout.build_request(&receipt("m", "p"), "x").unwrap();
    assert!(!plain.url.contains("&timeout="));
    assert!(timed.url.ends_with("&timeout=5"));
}

#[test]
fn largest_timeouts_are_written_in_full() {
    let b = builder("https://acct.example/myqueue", u64::MAX).timeout(Timeout::new(u64::MAX));
    let req = b.build_request(&receipt("m", "p"), "x").unwrap();
    assert!(req.url.ends_with(
        "?popreceipt=p&visibilitytimeout=18446744073709551615&timeout=18446744073709551615"
    ));
}

#[test]
fn base_with_final_slash_gets_no_second_one() {
    let b = builder("https://acct.example/myqueue/", 30);
    let req = b.build_request(&receipt("abc123", "p"), "x").unwrap();
    assert!(req.url.starts_with("https://acct.example/myqueue/messages/abc123?"));
}

#[test]
fn message_id_and_token_are_encoded() {
    let b = builder("https://acct.example/myqueue", 30);
    let req = b.build_request(&receipt("a b/c", "x y&z+"), "x").unwrap();
    assert_eq!(
        req.url,
        "https://acct.example/myqueue/messages/a%20b%2Fc?popreceipt=x+y%26z%2B&visibilitytimeout=30"
    );
}

#[test]
fn malformed_base_is_an_address_error() {
    let b = builder("not a url", 30);
    assert!(matches!(
        b.build_request(&receipt("m", "p"), "x"),
        Err(UpdateMessageError::Address)
    ));
    let mut calls = 0;
    let r = b.execute(&receipt("m", "p"), "x", |_req| {
        calls += 1;
        Ok(no_content())
    });
    assert!(matches!(r, Err(UpdateMessageError::Address)));
    assert_eq!(calls, 0);
}

#[test]
fn no_content_result_reflects_headers() {
    let b = builder("https://acct.example/myqueue", 30);
    let r: UpdateMessageResponse =
        b.execute(&receipt("abc123", "AAEC=="), "hello", |_req| Ok(no_content())).unwrap();
    assert_eq!(r.pop_receipt, "NEWTOKEN");
    assert_eq!(r.time_next_visible, "Fri, 09 Oct 2026 21:04:30 GMT");
    assert_eq!(r.request_id, Some("req-1".to_string()));
}

#[test]
fn transport_sees_the_built_request() {
    let b = builder("https://acct.example/myqueue", 30).client_request_id("c".to_string());
    let expected = b.build_request(&receipt("abc123", "AAEC=="), "hello").unwrap();
    let r = b.execute(&receipt("abc123", "AAEC=="), "hello", |req| {
        assert_eq!(req.url, expected.url);
        assert_eq!(req.body, expected.body);
        assert_eq!(req.headers, expected.headers);
        assert_eq!(req.method, "PUT");
        Ok(no_content())
    });
    assert!(r.is_ok());
}

#[test]
fn every_other_status_is_unexpected_and_sent_once() {
    for status in [200u16, 201, 202, 304, 400, 403, 404, 409, 500, 503] {
        let b = builder("https://acct.example/myqueue", 30);
        let mut calls = 0;
        let r = b.execute(&receipt("abc123", "AAEC=="), "hello", |_req| {
            calls += 1;
            let mut resp = no_content();
            resp.status = status;
            resp.body = "reason".to_string();
            Ok(resp)
        });
        assert_eq!(calls, 1);
        match r {
            Err(UpdateMessageError::UnexpectedStatus { status: s, body }) => {
                assert_eq!(s, status);
                assert_eq!(body, "reason");
            }
            other => panic!("unexpected outcome {:?}", other),
        }
    }
}

#[test]
fn transport_failure_is_passed_on() {
    let b = builder("https://acct.example/myqueue", 30);
    let r = b.execute(&receipt("abc123", "AAEC=="), "hello", |_req| {
        Err("connection reset".to_string())
    });
    match r {
        Err(UpdateMessageError::Transport { message }) => assert_eq!(message, "connection reset"),
        other => panic!("unexpected outcome {:?}", other),
    }
}

#[test]
fn missing_pop_receipt_is_a_parse_error() {
    let resp = RawResponse {
        status: 204,
        headers: pairs(&[("x-ms-time-next-visible", "t")]),
        body: String::new(),
    };
    match resolve_response(resp) {
        Err(UpdateMessageError::ResponseParse { header }) => assert_eq!(header, "x-ms-popreceipt"),
        other => panic!("unexpected outcome {:?}", other),
    }
}

#[test]
fn missing_time_next_visible_is_a_parse_error() {
    let resp = RawResponse {
        status: 204,
        headers: pairs(&[("x-ms-popreceipt", "p")]),
        body: String::new(),
    };
    match resolve_response(resp) {
        Err(UpdateMessageError::ResponseParse { header }) => {
            assert_eq!(header, "x-ms-time-next-visible")
        }
        other => panic!("unexpected outcome {:?}", other),
    }
}

#[test]
fn request_id_is_optional() {
    let resp = RawResponse {
        status: 204,
        headers: pairs(&[("x-ms-popreceipt", "p"), ("x-ms-time-next-visible", "t")]),
        body: String::new(),
    };
    let r = resolve_response(resp).unwrap();
    assert_eq!(r.pop_receipt, "p");
    assert_eq!(r.time_next_visible, "t");
    assert_eq!(r.request_id, None);
}

#[test]
fn first_header_of_a_name_wins() {
    let headers = pairs(&[("a", "1"), ("b", "2"), ("a", "3")]);
    assert_eq!(find_header(&headers, &"a".to_string()), Some("1".to_string()));
    assert_eq!(find_header(&headers, &"b".to_string()), Some("2".to_string()));
    assert_eq!(find_header(&headers, &"c".to_string()), None);
    assert_eq!(find_header(&Vec::new(), &"a".to_string()), None);
}
