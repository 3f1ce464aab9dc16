use wrapperd::error::WorkerError;
use wrapperd::frame::Frame;
use wrapperd::response::{
    parse_worker_response, worker_response, Reply, ReplyBody, WorkerResponse,
};

fn parse(payload: &[u8]) -> Result<WorkerResponse, WorkerError> {
    parse_worker_response(Frame {
        kind: 2,
        request_id: 1,
        opcode: 7,
        flags: 0,
        payload: payload.to_vec(),
    })
}

#[test]
fn full_response() {
    let r = parse(
        r#"{"http_status":201,"content_type":"text/plain","restart_worker":true,"body":"hi é"}"#
            .as_bytes(),
    )
    .unwrap();
    assert_eq!(r.http_status, 201);
    assert_eq!(r.content_type, "text/plain");
    assert!(r.restart_worker);
    assert_eq!(r.body, "hi é".as_bytes());
}

#[test]
fn empty_object_has_defaults() {
    let r = parse(b"{}").unwrap();
    assert_eq!(r.http_status, 502);
    assert_eq!(r.content_type, "application/json");
    assert!(!r.restart_worker);
    assert!(r.body.is_empty());
}

#[test]
fn members_of_the_wrong_type_have_defaults() {
    let r = parse(br#"{"http_status":"200","content_type":5,"restart_worker":1}"#).unwrap();
    assert_eq!(r.http_status, 502);
    assert_eq!(r.content_type, "application/json");
    assert!(!r.restart_worker);
    for status in ["-1", "200.0", "1e2", "18446744073709551616"] {
        let payload = format!("{{\"http_status\":{}}}", status);
        assert_eq!(parse(payload.as_bytes()).unwrap().http_status, 502, "{}", status);
    }
}

#[test]
fn a_value_that_is_no_object_has_defaults() {
    for payload in ["null", "[1]", "\"body\"", "3"] {
        let r = parse(payload.as_bytes()).unwrap();
        assert_eq!(r.http_status, 502);
        assert!(r.body.is_empty());
    }
}

#[test]
fn status_keeps_its_low_bits() {
    assert_eq!(parse(br#"{"http_status":65736}"#).unwrap().http_status, 200);
    assert_eq!(parse(br#"{"http_status":18446744073709551615}"#).unwrap().http_status, 65535);
}

#[test]
fn other_bodies_are_written_as_json() {
    let r = parse(br#"{"body": {"b": [1, 2.5, null], "a": "x"} }"#).unwrap();
    assert_eq!(r.body, br#"{"a":"x","b":[1,2.5,null]}"#);
    assert_eq!(parse(br#"{"body": null}"#).unwrap().body, b"null");
    assert_eq!(parse(br#"{"body": 7}"#).unwrap().body, b"7");
}

#[test]
fn what_is_no_json_is_a_protocol_error() {
    match parse(b"").unwrap_err() {
        WorkerError::Protocol(e) => {
            assert_eq!(e, "EOF while parsing a value at line 1 column 0")
        }
        other => panic!("{:?}", other),
    }
    assert!(matches!(parse(b"{} x"), Err(WorkerError::Protocol(_))));
    assert!(matches!(parse(&[0x22, 0xff, 0x22]), Err(WorkerError::Protocol(_))));
}

#[test]
fn unencodable_body_is_reported() {
    let r = worker_response(Reply {
        http_status: None,
        content_type: None,
        restart_worker: None,
        body: ReplyBody::Unencodable,
    });
    assert_eq!(r.body, br#"{"error":"invalid_worker_body"}"#);
}
