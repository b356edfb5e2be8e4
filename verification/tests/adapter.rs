use dispatch_adapter::assemble_uri;
use dispatch_adapter::forward_stream_event;
use dispatch_adapter::parse_method;
use dispatch_adapter::translate_buf_poll;
use dispatch_adapter::translate_headers;
use dispatch_adapter::translate_request;
use dispatch_adapter::translate_response;
use dispatch_adapter::translate_response_headers;
use dispatch_adapter::BodyPoll;
use dispatch_adapter::BufPoll;
use dispatch_adapter::DispatchError;
use dispatch_adapter::HttpClient;
use dispatch_adapter::Method;
use dispatch_adapter::RusotoBody;
use dispatch_adapter::SignedRequest;
use dispatch_adapter::SignedRequestPayload;
use dispatch_adapter::StreamEvent;

fn descriptor(method: &str) -> SignedRequest {
    SignedRequest {
        method: method.to_string(),
        scheme: "https".to_string(),
        hostname: "example.com".to_string(),
        canonical_path: "/a/b".to_string(),
        canonical_query_string: String::new(),
        headers: vec![("X-Foo".to_string(), vec![b"a".to_vec()])],
        payload: None,
    }
}

#[test]
fn supported_methods_map_exactly() {
    assert_eq!(parse_method(&"GET".to_string()).unwrap(), Method::Get);
    assert_eq!(parse_method(&"HEAD".to_string()).unwrap(), Method::Head);
    assert_eq!(parse_method(&"POST".to_string()).unwrap(), Method::Post);
    assert_eq!(parse_method(&"PUT".to_string()).unwrap(), Method::Put);
    assert_eq!(parse_method(&"DELETE".to_string()).unwrap(), Method::Delete);
}

#[test]
fn other_method_tokens_are_unsupported() {
    for token in ["PATCH", "OPTIONS", "TRACE", "get", ""] {
        let r = parse_method(&token.to_string());
        assert!(matches!(r, Err(DispatchError::UnsupportedMethod)));
    }
}

#[test]
fn uri_without_query() {
    let uri = assemble_uri("https", "example.com", "/a/b", "");
    assert_eq!(uri, "https://example.com/a/b");
}

#[test]
fn uri_with_query() {
    let uri = assemble_uri("https", "example.com", "/a/b", "x=1");
    assert_eq!(uri, "https://example.com/a/b?x=1");
}

#[test]
fn header_round_trip() {
    let fields = vec![("X-Foo".to_string(), vec![b"a".to_vec(), b"b".to_vec()])];
    let entries = translate_headers(&fields).unwrap();
    assert_eq!(entries.len(), 2);
    // the transport's canonical header names are lowercased
    assert_eq!(entries[0].0, "x-foo");
    assert_eq!(entries[1].0, "x-foo");
    assert_eq!(entries[0].1, b"a".to_vec());
    assert_eq!(entries[1].1, b"b".to_vec());

    let response_entries = vec![
        ("X-Foo".to_string(), b"a".to_vec()),
        ("X-Foo".to_string(), b"b".to_vec()),
    ];
    let decoded = translate_response_headers(&response_entries).unwrap();
    assert_eq!(
        decoded,
        vec![
            ("X-Foo".to_string(), "a".to_string()),
            ("X-Foo".to_string(), "b".to_string()),
        ]
    );
}

#[test]
fn invalid_header_name_is_rejected() {
    let fields = vec![("bad name".to_string(), vec![b"a".to_vec()])];
    let r = translate_headers(&fields);
    assert!(matches!(r, Err(DispatchError::InvalidHeaderName)));
}

#[test]
fn invalid_header_value_is_rejected() {
    let fields = vec![("X-Foo".to_string(), vec![b"a\nb".to_vec()])];
    let r = translate_headers(&fields);
    assert!(matches!(r, Err(DispatchError::InvalidHeaderValue)));
}

#[test]
fn response_header_value_not_utf8_is_rejected() {
    let entries = vec![("X-Foo".to_string(), vec![0xff_u8, 0xfe_u8])];
    let r = translate_response_headers(&entries);
    assert!(matches!(r, Err(DispatchError::HeaderDecodeError)));

    let head = translate_response(200, &entries);
    assert!(matches!(head, Err(DispatchError::HeaderDecodeError)));
}

#[test]
fn response_header_value_utf8_is_decoded() {
    let entries = vec![("X-Foo".to_string(), vec![0xc3_u8, 0xa9_u8])];
    let decoded = translate_response_headers(&entries).unwrap();
    assert_eq!(decoded, vec![("X-Foo".to_string(), "\u{e9}".to_string())]);
}

#[test]
fn response_status_copied_verbatim() {
    let entries = vec![("X-Foo".to_string(), b"a".to_vec())];
    let head = translate_response(207, &entries).unwrap();
    assert_eq!(head.status, 207);
    assert_eq!(
        head.headers,
        vec![("X-Foo".to_string(), "a".to_string())]
    );
}

#[test]
fn buffered_payload_yields_one_chunk_then_end() {
    let original = vec![1_u8, 2_u8, 3_u8];
    let mut body = RusotoBody::from(Some(SignedRequestPayload::Buffer(original.clone())));
    match body.poll_buf() {
        BodyPoll::Chunk(c) => assert_eq!(c, original),
        _ => panic!("expected a chunk"),
    }
    assert!(matches!(body.poll_buf(), BodyPoll::End));
    assert!(matches!(body.poll_buf(), BodyPoll::End));
}

#[test]
fn absent_payload_yields_end_immediately() {
    let mut body = RusotoBody::from(None);
    assert!(matches!(body.poll_buf(), BodyPoll::End));
    assert!(matches!(body.poll_buf(), BodyPoll::End));
}

#[test]
fn no_trailers_ever() {
    let mut body = RusotoBody::from(Some(SignedRequestPayload::Buffer(b"x".to_vec())));
    assert!(body.poll_trailers().is_none());
    assert!(body.poll_trailers().is_none());
}

#[test]
fn streaming_events_forwarded_in_order() {
    let events = vec![
        StreamEvent::Pending,
        StreamEvent::Pending,
        StreamEvent::Chunk(b"one".to_vec()),
        StreamEvent::Chunk(b"two".to_vec()),
        StreamEvent::End,
    ];
    let mut outputs = Vec::new();
    for ev in events {
        outputs.push(forward_stream_event(ev).unwrap());
    }
    assert_eq!(outputs.len(), 5);
    assert!(matches!(outputs[0], BodyPoll::Pending));
    assert!(matches!(outputs[1], BodyPoll::Pending));
    match &outputs[2] {
        BodyPoll::Chunk(c) => assert_eq!(c, &b"one".to_vec()),
        _ => panic!("expected a chunk"),
    }
    match &outputs[3] {
        BodyPoll::Chunk(c) => assert_eq!(c, &b"two".to_vec()),
        _ => panic!("expected a chunk"),
    }
    assert!(matches!(outputs[4], BodyPoll::End));
}

#[test]
fn streaming_failure_is_io_classified() {
    let r = forward_stream_event(StreamEvent::Failed("boom".to_string()));
    match r {
        Err(DispatchError::Io(m)) => assert_eq!(m, "boom"),
        _ => panic!("expected an I/O error"),
    }
}

#[test]
fn inbound_chunk_is_an_independent_copy() {
    let mut buffer = vec![1_u8, 2_u8, 3_u8];
    let yielded = match translate_buf_poll(BufPoll::Buf(&buffer)) {
        Ok(BodyPoll::Chunk(c)) => c,
        _ => panic!("expected a chunk"),
    };
    // mutating and reusing the original buffer must not alter earlier output
    buffer[0] = 9_u8;
    buffer.clear();
    assert_eq!(yielded, vec![1_u8, 2_u8, 3_u8]);
}

#[test]
fn inbound_end_pending_and_failure() {
    assert!(matches!(translate_buf_poll(BufPoll::End), Ok(BodyPoll::End)));
    assert!(matches!(
        translate_buf_poll(BufPoll::Pending),
        Ok(BodyPoll::Pending)
    ));
    match translate_buf_poll(BufPoll::Failed("gone".to_string())) {
        Err(DispatchError::Io(m)) => assert_eq!(m, "gone"),
        _ => panic!("expected an I/O error"),
    }
}

#[test]
fn timeout_is_always_a_contract_violation() {
    let r1 = translate_request(descriptor("GET"), Some(5));
    assert!(matches!(r1, Err(DispatchError::UnsupportedOption)));
    let r2 = translate_request(descriptor("GET"), Some(30_000));
    assert!(matches!(r2, Err(DispatchError::UnsupportedOption)));
}

#[test]
fn translate_request_builds_the_transport_request() {
    let mut request = descriptor("GET");
    request.payload = Some(SignedRequestPayload::Buffer(b"body".to_vec()));
    let t = translate_request(request, None).unwrap();
    assert_eq!(t.method, Method::Get);
    assert_eq!(t.uri, "https://example.com/a/b");
    assert_eq!(t.headers, vec![("x-foo".to_string(), b"a".to_vec())]);
    match t.body.inner {
        Some(SignedRequestPayload::Buffer(b)) => assert_eq!(b, b"body".to_vec()),
        _ => panic!("expected the buffered payload to be attached"),
    }
}

#[test]
fn translate_request_with_query() {
    let mut request = descriptor("PUT");
    request.canonical_query_string = "x=1".to_string();
    let t = translate_request(request, None).unwrap();
    assert_eq!(t.method, Method::Put);
    assert_eq!(t.uri, "https://example.com/a/b?x=1");
}

#[test]
fn translate_request_rejects_unsupported_method() {
    let r = translate_request(descriptor("TRACE"), None);
    assert!(matches!(r, Err(DispatchError::UnsupportedMethod)));
}

#[test]
fn translate_request_rejects_bad_headers() {
    let mut request = descriptor("GET");
    request.headers = vec![("bad name".to_string(), vec![b"a".to_vec()])];
    let r = translate_request(request, None);
    assert!(matches!(r, Err(DispatchError::InvalidHeaderName)));
}

#[test]
fn errors_carry_a_cause_string() {
    assert_eq!(
        DispatchError::UnsupportedOption.message(),
        "timeout is not supported at this level"
    );
    assert_eq!(DispatchError::UnsupportedMethod.message(), "unsupported method");
    assert_eq!(
        DispatchError::Transport("connection reset".to_string()).message(),
        "connection reset"
    );
    assert_eq!(DispatchError::Io("short read".to_string()).message(), "short read");
}

#[test]
fn client_holds_the_transport() {
    let client = HttpClient::new(42_u32);
    assert_eq!(*client.client(), 42_u32);
    let cloned = client.clone();
    assert_eq!(*cloned.client(), 42_u32);
}
