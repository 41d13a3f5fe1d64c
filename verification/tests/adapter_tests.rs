use warp_adapter::adapter::{
    DispatchOutcome, accept_request, complete_exchange, ready_to_accept, synthetic_response,
};
use warp_adapter::model::{DispatcherReply, HeaderField, HostRequest};

fn header(name: &[u8], value: &[u8]) -> HeaderField {
    HeaderField { name: name.to_vec(), value: value.to_vec() }
}

#[test]
fn hello_text_scenario() {
    // GET /hello with no body; the dispatcher answers plain text "hi".
    let req = HostRequest {
        method: b"GET".to_vec(),
        uri: b"/hello".to_vec(),
        headers: vec![header(b"host", b"example.com")],
        body: vec![],
    };
    let dispatched = match accept_request(req) {
        Ok(d) => d,
        Err(_) => panic!("a well-formed request converts"),
    };
    assert_eq!(dispatched.method, b"GET".to_vec());
    assert_eq!(dispatched.uri, b"/hello".to_vec());
    let resp = complete_exchange(DispatchOutcome::Replied(DispatcherReply::Text {
        body: b"hi".to_vec(),
    }));
    assert_eq!(resp.status, 200);
    assert_eq!(resp.headers.len(), 1);
    assert_eq!(resp.headers[0].name, b"content-type".to_vec());
    assert_eq!(resp.headers[0].value, b"text/plain".to_vec());
    assert_eq!(resp.body, vec![b"hi".to_vec()]);
}

#[test]
fn echo_scenario_keeps_chunks_in_order() {
    // POST /echo with the body "abc" in three one-byte chunks; the dispatcher
    // streams the body back unchanged.
    let req = HostRequest {
        method: b"POST".to_vec(),
        uri: b"/echo".to_vec(),
        headers: vec![],
        body: vec![b"a".to_vec(), b"b".to_vec(), b"c".to_vec()],
    };
    let dispatched = match accept_request(req) {
        Ok(d) => d,
        Err(_) => panic!("a well-formed request converts"),
    };
    let resp = complete_exchange(DispatchOutcome::Replied(DispatcherReply::Custom {
        status: 200,
        headers: vec![],
        body: dispatched.body,
    }));
    assert_eq!(resp.status, 200);
    assert_eq!(resp.body, vec![b"a".to_vec(), b"b".to_vec(), b"c".to_vec()]);
}

#[test]
fn rejected_headers_scenario_yields_contained_error() {
    // A reply whose header value carries a disallowed control byte: the call
    // still answers with a response, a server error with an explanatory body.
    let resp = complete_exchange(DispatchOutcome::Replied(DispatcherReply::Custom {
        status: 200,
        headers: vec![header(b"x-bad", b"a\x01b")],
        body: vec![],
    }));
    assert_eq!(resp.status, 500);
    assert_eq!(resp.body, vec![b"Error: 500".to_vec()]);
}

#[test]
fn request_side_failure_is_contained() {
    let req = HostRequest {
        method: b"GET".to_vec(),
        uri: b"/".to_vec(),
        headers: vec![header(b"no spaces allowed", b"v")],
        body: vec![],
    };
    match accept_request(req) {
        Ok(_) => panic!("a rejected header set must not convert"),
        Err(resp) => {
            assert_eq!(resp.status, 500);
            assert!(resp.headers.is_empty());
            assert_eq!(resp.body, vec![b"Error: 500".to_vec()]);
        },
    }
}

#[test]
fn dispatch_failure_is_contained() {
    let resp = complete_exchange(DispatchOutcome::Failed);
    assert_eq!(resp.status, 500);
    assert!(resp.headers.is_empty());
    assert_eq!(resp.body, vec![b"Error: 500".to_vec()]);
}

#[test]
fn out_of_range_statuses_are_contained() {
    for bad in [0u16, 99, 1000, u16::MAX] {
        let resp = complete_exchange(DispatchOutcome::Replied(DispatcherReply::Status {
            status: bad,
        }));
        assert_eq!(resp.status, 500);
    }
}

#[test]
fn in_range_status_reply_passes_through() {
    let resp = complete_exchange(DispatchOutcome::Replied(DispatcherReply::Status {
        status: 204,
    }));
    assert_eq!(resp.status, 204);
    assert!(resp.headers.is_empty());
    assert!(resp.body.is_empty());
}

#[test]
fn synthetic_response_names_the_status() {
    let resp = synthetic_response(404);
    assert_eq!(resp.status, 404);
    assert!(resp.headers.is_empty());
    assert_eq!(resp.body, vec![b"Error: 404".to_vec()]);

    let resp = synthetic_response(503);
    assert_eq!(resp.body, vec![b"Error: 503".to_vec()]);

    let resp = synthetic_response(7);
    assert_eq!(resp.body, vec![b"Error: 7".to_vec()]);
}

#[test]
fn readiness_is_idempotent_across_calls() {
    for round in 0..100 {
        assert!(ready_to_accept());
        if round % 10 == 0 {
            let resp = complete_exchange(DispatchOutcome::Replied(DispatcherReply::Text {
                body: b"ok".to_vec(),
            }));
            assert_eq!(resp.status, 200);
        }
        assert!(ready_to_accept());
    }
}

#[test]
fn round_trip_adds_no_observable_difference() {
    // The adapter's response carries exactly what normalizing the reply
    // natively would give: same status, same header pairs, same chunks.
    let reply = || DispatcherReply::Custom {
        status: 202,
        headers: vec![header(b"x-first", b"1"), header(b"x-second", b"2")],
        body: vec![b"alpha".to_vec(), b"beta".to_vec()],
    };
    let native = warp_adapter::convert::normalize_reply(reply());
    let through_adapter = complete_exchange(DispatchOutcome::Replied(reply()));
    assert_eq!(through_adapter.status, native.status);
    assert_eq!(through_adapter.headers.len(), native.headers.len());
    for (a, b) in through_adapter.headers.iter().zip(native.headers.iter()) {
        assert_eq!(a.name, b.name);
        assert_eq!(a.value, b.value);
    }
    assert_eq!(through_adapter.body, native.body);
}
