use fesi::action::{parse_to_request, Action};
use fesi::batch::{Batch, Event, Phase, Step};
use fesi::error::FesiError;
use fesi::method::Method;
use fesi::request::{Outgoing, Request};
use fesi::save::response_file_name;

fn pairs(items: &[(&str, &str)]) -> Vec<(String, String)> {
    items.iter().map(|(k, v)| (k.to_string(), v.to_string())).collect()
}

fn request(method: &str, url: &str, body: &[(&str, &str)], header: &[(&str, &str)]) -> Request {
    Request::new(method.to_string(), url.to_string(), pairs(body), pairs(header), None, true)
}

fn action(method: &str, url: &str, body: &[(&str, &str)], name: Option<&str>) -> Action {
    Action {
        url: url.to_string(),
        method: method.to_string(),
        header: Vec::new(),
        body: pairs(body),
        name: name.map(|n| n.to_string()),
    }
}

fn sent(step: Step) -> Outgoing {
    match step {
        Step::Send(o) => o,
        other => panic!("expected a call, got {:?}", other),
    }
}

#[test]
fn test_run_hanlde_success() {
    let req = request("get", "http://localhost:8080/users", &[], &[]);
    let out = req.run().unwrap();
    assert_eq!(out.method, Method::Get);
    assert_eq!(out.url, "http://localhost:8080/users");
}

#[test]
fn method_names_ignore_case() {
    assert_eq!(Method::parse("GET"), Some(Method::Get));
    assert_eq!(Method::parse("get"), Some(Method::Get));
    assert_eq!(Method::parse("PoSt"), Some(Method::Post));
    assert_eq!(Method::parse("put"), Some(Method::Put));
    assert_eq!(Method::parse("Patch"), Some(Method::Patch));
    assert_eq!(Method::parse("delete"), Some(Method::Delete));
    assert_eq!(Method::parse("OPTIONS"), None);
    assert_eq!(Method::parse(""), None);
    assert_eq!(Method::parse("GETS"), None);
    assert_eq!(Method::Patch.as_str(), "PATCH");
}

#[test]
fn get_and_delete_send_no_body() {
    for m in ["GET", "DELETE"] {
        let req = request(m, "http://x/a", &[("a", "1")], &[]);
        let out = req.run().unwrap();
        assert!(out.json.is_none());
        assert!(!out.method.has_body());
    }
    let req = request("POST", "http://x/a", &[("a", "1")], &[]);
    assert!(req.get().unwrap().json.is_none());
    assert!(req.delete().unwrap().json.is_none());
}

#[test]
fn body_methods_send_body_exactly() {
    let body = [("a", "1"), ("user", "fesi"), ("empty", "")];
    for (m, expected) in [("POST", Method::Post), ("put", Method::Put), ("PATCH", Method::Patch)] {
        let req = request(m, "http://x/echo", &body, &[]);
        let out = req.run().unwrap();
        assert_eq!(out.method, expected);
        assert_eq!(out.json, Some(pairs(&body)));
    }
}

#[test]
fn headers_are_forwarded_unchanged() {
    let header = [("Content-Type", "application/json"), ("X-Token", "a b\tc"), ("accept", "*/*")];
    for m in ["GET", "POST", "PUT", "PATCH", "DELETE"] {
        let req = request(m, "http://x/h", &[], &header);
        let out = req.run().unwrap();
        assert_eq!(out.headers, pairs(&header));
    }
}

#[test]
fn invalid_header_name_is_rejected() {
    let req = request("GET", "http://x/h", &[], &[("Good", "v"), ("Bad\u{1}Name", "w"), ("Also Bad", "z")]);
    match req.run() {
        Err(FesiError::InvalidHeader { name, value }) => {
            assert_eq!(name, "Bad\u{1}Name");
            assert_eq!(value, "w");
        }
        other => panic!("unexpected {:?}", other),
    }
    let req = request("POST", "http://x/h", &[], &[("", "v")]);
    assert!(matches!(req.run(), Err(FesiError::InvalidHeader { .. })));
    let req = request("POST", "http://x/h", &[], &[("Na\u{e9}me", "v")]);
    assert!(matches!(req.run(), Err(FesiError::InvalidHeader { .. })));
}

#[test]
fn invalid_header_value_is_rejected() {
    let req = request("PUT", "http://x/h", &[], &[("X-Line", "a\nb")]);
    match req.run() {
        Err(FesiError::InvalidHeader { name, value }) => {
            assert_eq!(name, "X-Line");
            assert_eq!(value, "a\nb");
        }
        other => panic!("unexpected {:?}", other),
    }
    let req = request("PUT", "http://x/h", &[], &[("X-Del", "a\u{7f}")]);
    assert!(matches!(req.run(), Err(FesiError::InvalidHeader { .. })));
    let req = request("PUT", "http://x/h", &[], &[("X-Utf8", "caf\u{e9}")]);
    assert!(req.run().is_ok());
}

#[test]
fn unsupported_method_is_rejected() {
    let req = request("OPTIONS", "http://x/h", &[("a", "1")], &[]);
    match req.run() {
        Err(FesiError::UnsupportedMethod(m)) => assert_eq!(m, "OPTIONS"),
        other => panic!("unexpected {:?}", other),
    }
}

#[test]
fn label_defaults_to_response() {
    let req = request("GET", "http://x", &[], &[]);
    assert_eq!(req.label(), "response");
    let named = Request::new("GET".to_string(), "http://x".to_string(), Vec::new(), Vec::new(), Some("users".to_string()), true);
    assert_eq!(named.label(), "users");
}

#[test]
fn file_name_has_stamp_and_label() {
    assert_eq!(response_file_name("1700000000", "response"), "1700000000_response.txt");
    assert_eq!(response_file_name("", ""), "_.txt");
}

#[test]
fn actions_become_requests_in_order() {
    let actions = vec![
        action("GET", "http://x/1", &[], Some("one")),
        action("POST", "http://x/2", &[("a", "1")], None),
        action("DELETE", "http://x/3", &[], Some("three")),
    ];
    let reqs = parse_to_request(actions);
    assert_eq!(reqs.len(), 3);
    assert_eq!(reqs[0].endpoint, "http://x/1");
    assert_eq!(reqs[0].name.as_deref(), Some("one"));
    assert_eq!(reqs[1].method, "POST");
    assert_eq!(reqs[1].body, pairs(&[("a", "1")]));
    assert_eq!(reqs[2].endpoint, "http://x/3");
    assert!(reqs.iter().all(|r| r.save_response));
    assert!(parse_to_request(Vec::new()).is_empty());
}

#[test]
fn batch_halts_on_first_failure() {
    let reqs = parse_to_request(vec![
        action("GET", "http://x/1", &[], Some("first")),
        action("GET", "http://unreachable.invalid/2", &[], Some("second")),
        action("GET", "http://x/3", &[], Some("third")),
    ]);
    let mut batch = Batch::new(reqs);
    let out = sent(batch.advance(Event::Proceed));
    assert_eq!(out.url, "http://x/1");
    match batch.advance(Event::Responded("one".to_string())) {
        Step::Save { label, content } => {
            assert_eq!(label, "first");
            assert_eq!(content, "one");
        }
        other => panic!("unexpected {:?}", other),
    }
    let out = sent(batch.advance(Event::Saved));
    assert_eq!(out.url, "http://unreachable.invalid/2");
    match batch.advance(Event::RequestFailed("dns error".to_string())) {
        Step::Fail(FesiError::Request(msg)) => assert_eq!(msg, "dns error"),
        other => panic!("unexpected {:?}", other),
    }
    assert_eq!(batch.phase, Phase::Halted);
    assert!(batch.is_over());
    assert!(matches!(batch.advance(Event::Proceed), Step::Finish));
    assert!(matches!(batch.advance(Event::Saved), Step::Finish));
    assert_eq!(batch.pos, 1);
}

#[test]
fn batch_halts_on_unsupported_method() {
    let reqs = parse_to_request(vec![
        action("OPTIONS", "http://x/1", &[], None),
        action("GET", "http://x/2", &[], None),
    ]);
    let mut batch = Batch::new(reqs);
    assert!(matches!(batch.advance(Event::Proceed), Step::Fail(FesiError::UnsupportedMethod(_))));
    assert_eq!(batch.phase, Phase::Halted);
}

#[test]
fn batch_halts_on_write_failure() {
    let reqs = parse_to_request(vec![action("GET", "http://x/1", &[], None), action("GET", "http://x/2", &[], None)]);
    let mut batch = Batch::new(reqs);
    sent(batch.advance(Event::Proceed));
    batch.advance(Event::Responded("x".to_string()));
    match batch.advance(Event::SaveFailed("disk full".to_string())) {
        Step::Fail(FesiError::Write(msg)) => assert_eq!(msg, "disk full"),
        other => panic!("unexpected {:?}", other),
    }
    assert!(batch.is_over());
}

#[test]
fn empty_batch_finishes_at_once() {
    let mut batch = Batch::new(Vec::new());
    assert!(matches!(batch.advance(Event::Proceed), Step::Finish));
    assert_eq!(batch.phase, Phase::Done);
}

#[test]
fn batch_accepts_only_expected_events() {
    let mut batch = Batch::new(parse_to_request(vec![action("GET", "http://x/1", &[], None)]));
    assert!(batch.accepts(&Event::Proceed));
    assert!(!batch.accepts(&Event::Saved));
    sent(batch.advance(Event::Proceed));
    assert!(batch.accepts(&Event::Responded(String::new())));
    assert!(!batch.accepts(&Event::Proceed));
}

#[test]
fn echo_post_is_persisted_as_response() {
    let reqs = parse_to_request(vec![action("POST", "http://x/echo", &[("a", "1")], None)]);
    let mut batch = Batch::new(reqs);
    let out = sent(batch.advance(Event::Proceed));
    assert_eq!(out.method, Method::Post);
    assert_eq!(out.url, "http://x/echo");
    assert_eq!(out.json, Some(pairs(&[("a", "1")])));
    match batch.advance(Event::Responded("ok".to_string())) {
        Step::Save { label, content } => {
            assert_eq!(label, "response");
            assert_eq!(content, "ok");
        }
        other => panic!("unexpected {:?}", other),
    }
    assert!(matches!(batch.advance(Event::Saved), Step::Finish));
    assert_eq!(batch.phase, Phase::Done);
}
