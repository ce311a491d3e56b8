use analyzer_session::args::{ArgValue, Args};
use analyzer_session::errors::ErrorKind;
use analyzer_session::framing::{decode_frame, encode_frame, FrameStep};
use analyzer_session::message::{decode_payload, encode_request, params_json, Message, ResponseOutcome};

#[test]
fn frame_round_trip() {
    let payload: Vec<u8> = b"{\"id\":1}".to_vec();
    let framed = encode_frame(&payload);
    let text = String::from_utf8(framed.clone()).unwrap();
    assert!(text.starts_with("Content-Length: 8\r\n\r\n"));
    match decode_frame(&framed) {
        FrameStep::Frame { payload: p, used } => {
            assert_eq!(p, payload);
            assert_eq!(used, framed.len());
        },
        _ => panic!("expected a complete frame"),
    }
}

#[test]
fn frame_round_trip_with_trailing_bytes() {
    let payload: Vec<u8> = b"hello world".to_vec();
    let mut buf = encode_frame(&payload);
    let frame_len = buf.len();
    buf.extend_from_slice(b"Content-Length: 3");
    match decode_frame(&buf) {
        FrameStep::Frame { payload: p, used } => {
            assert_eq!(p, payload);
            assert_eq!(used, frame_len);
        },
        _ => panic!("expected a complete frame"),
    }
}

#[test]
fn frame_empty_payload() {
    let payload: Vec<u8> = Vec::new();
    let framed = encode_frame(&payload);
    assert_eq!(String::from_utf8(framed.clone()).unwrap(), "Content-Length: 0\r\n\r\n");
    match decode_frame(&framed) {
        FrameStep::Frame { payload: p, used } => {
            assert!(p.is_empty());
            assert_eq!(used, framed.len());
        },
        _ => panic!("expected a complete frame"),
    }
}

#[test]
fn frame_needs_more_bytes() {
    let framed = encode_frame(&b"0123456789".to_vec());
    let truncated: Vec<u8> = framed[..framed.len() - 1].to_vec();
    assert!(matches!(decode_frame(&truncated), FrameStep::NeedMore));
    let header_only: Vec<u8> = b"Content-Le".to_vec();
    assert!(matches!(decode_frame(&header_only), FrameStep::NeedMore));
}

#[test]
fn frame_malformed_header() {
    let garbage: Vec<u8> = b"Content-Length: x\r\n\r\n".to_vec();
    assert!(matches!(decode_frame(&garbage), FrameStep::Malformed));
    let wrong: Vec<u8> = b"X-Length: 3\r\n\r\nabc".to_vec();
    assert!(matches!(decode_frame(&wrong), FrameStep::Malformed));
    let leading_zero: Vec<u8> = b"Content-Length: 03\r\n\r\nabc".to_vec();
    assert!(matches!(decode_frame(&leading_zero), FrameStep::Malformed));
}

#[test]
fn params_render_as_json_object() {
    let mut args = Args::new();
    args.push("file_path".to_string(), ArgValue::Text("src/lib.rs".to_string()));
    args.push("line".to_string(), ArgValue::Nat(10));
    args.push("public".to_string(), ArgValue::Flag(true));
    args.push(
        "names".to_string(),
        ArgValue::List(vec!["a".to_string(), "b".to_string()]),
    );
    let text = params_json(&args);
    let v: serde_json::Value = serde_json::from_str(&text).unwrap();
    assert_eq!(v.get("file_path").unwrap().as_str().unwrap(), "src/lib.rs");
    assert_eq!(v.get("line").unwrap().as_u64().unwrap(), 10);
    assert_eq!(v.get("public").unwrap().as_bool().unwrap(), true);
    let names = v.get("names").unwrap().as_array().unwrap();
    assert_eq!(names.len(), 2);
    assert_eq!(names[0].as_str().unwrap(), "a");
}

#[test]
fn request_frame_carries_id_method_and_params() {
    let mut args = Args::new();
    args.push("query".to_string(), ArgValue::Text("Foo".to_string()));
    let frame = encode_request(7, "workspace/symbol", &args);
    let payload = match decode_frame(&frame) {
        FrameStep::Frame { payload, .. } => payload,
        _ => panic!("expected a complete frame"),
    };
    let v: serde_json::Value = serde_json::from_slice(&payload).unwrap();
    assert_eq!(v.get("jsonrpc").unwrap().as_str().unwrap(), "2.0");
    assert_eq!(v.get("id").unwrap().as_u64().unwrap(), 7);
    assert_eq!(v.get("method").unwrap().as_str().unwrap(), "workspace/symbol");
    assert_eq!(
        v.get("params").unwrap().get("query").unwrap().as_str().unwrap(),
        "Foo"
    );
}

#[test]
fn decode_response_with_result() {
    let payload: Vec<u8> = b"{\"jsonrpc\":\"2.0\",\"id\":3,\"result\":{\"ok\":true}}".to_vec();
    match decode_payload(&payload).unwrap() {
        Message::Response { id, outcome } => {
            assert_eq!(id, 3);
            match outcome {
                ResponseOutcome::Success { result } => {
                    let v: serde_json::Value = serde_json::from_str(&result).unwrap();
                    assert_eq!(v.get("ok").unwrap().as_bool().unwrap(), true);
                },
                _ => panic!("expected a success outcome"),
            }
        },
        _ => panic!("expected a response"),
    }
}

#[test]
fn decode_response_with_error() {
    let payload: Vec<u8> =
        b"{\"jsonrpc\":\"2.0\",\"id\":4,\"error\":{\"code\":-32600,\"message\":\"bad\"}}".to_vec();
    match decode_payload(&payload).unwrap() {
        Message::Response { id, outcome } => {
            assert_eq!(id, 4);
            match outcome {
                ResponseOutcome::Failure { code, message } => {
                    assert_eq!(code, -32600);
                    assert_eq!(message, "bad");
                },
                _ => panic!("expected a failure outcome"),
            }
        },
        _ => panic!("expected a response"),
    }
}

#[test]
fn decode_notification() {
    let payload: Vec<u8> =
        b"{\"jsonrpc\":\"2.0\",\"method\":\"textDocument/publishDiagnostics\",\"params\":{\"path\":\"a.rs\"}}"
            .to_vec();
    match decode_payload(&payload).unwrap() {
        Message::Note { method, params } => {
            assert_eq!(method, "textDocument/publishDiagnostics");
            let v: serde_json::Value = serde_json::from_str(&params).unwrap();
            assert_eq!(v.get("path").unwrap().as_str().unwrap(), "a.rs");
        },
        _ => panic!("expected a notification"),
    }
}

#[test]
fn decode_incoming_request_from_process() {
    let payload: Vec<u8> =
        b"{\"jsonrpc\":\"2.0\",\"id\":9,\"method\":\"client/registerCapability\"}".to_vec();
    match decode_payload(&payload).unwrap() {
        Message::Incoming { id, method } => {
            assert_eq!(id, 9);
            assert_eq!(method, "client/registerCapability");
        },
        _ => panic!("expected an incoming request"),
    }
}

#[test]
fn decode_malformed_payload() {
    let garbage: Vec<u8> = b"not json at all".to_vec();
    assert_eq!(decode_payload(&garbage).unwrap_err(), ErrorKind::MalformedMessage);
    let no_members: Vec<u8> = b"{\"jsonrpc\":\"2.0\"}".to_vec();
    assert_eq!(decode_payload(&no_members).unwrap_err(), ErrorKind::MalformedMessage);
    let id_without_result: Vec<u8> = b"{\"jsonrpc\":\"2.0\",\"id\":1}".to_vec();
    assert_eq!(
        decode_payload(&id_without_result).unwrap_err(),
        ErrorKind::MalformedMessage
    );
}
