use bgm_controller::frame::{decode_frame, encode_frame, length_prefix, read_length, ByteOrder, FrameError};
use bgm_controller::message::{decode_message, encode_message, message_from_body, parse_message, DecodeError, MessageKind};

#[test]
fn length_prefix_in_both_orders() {
    assert_eq!(length_prefix(258, ByteOrder::Little), [2, 1, 0, 0]);
    assert_eq!(length_prefix(258, ByteOrder::Big), [0, 0, 1, 2]);
    assert_eq!(read_length(&[2, 1, 0, 0], ByteOrder::Little), Ok(258));
    assert_eq!(read_length(&[0, 0, 1, 2], ByteOrder::Big), Ok(258));
    assert_eq!(read_length(&[1, 2, 3], ByteOrder::Little), Err(FrameError::Truncated));
}

#[test]
fn frame_round_trip_keeps_body_and_ignores_what_follows() {
    for order in [ByteOrder::Little, ByteOrder::Big] {
        let body = b"{\"type\":\"tabs\"}".to_vec();
        let mut frame = encode_frame(&body, order).unwrap();
        assert_eq!(frame.len(), body.len() + 4);
        assert_eq!(&frame[4..], &body[..]);
        frame.extend_from_slice(&[9, 9, 9]);
        let (back, used) = decode_frame(&frame, order).unwrap();
        assert_eq!(back, body);
        assert_eq!(used, body.len() + 4);
    }
}

#[test]
fn empty_body_frames_to_zero_length() {
    let frame = encode_frame(&[], ByteOrder::Little).unwrap();
    assert_eq!(frame, vec![0, 0, 0, 0]);
    assert_eq!(decode_frame(&frame, ByteOrder::Little), Ok((vec![], 4)));
}

#[test]
fn cut_frames_are_truncated() {
    let frame = encode_frame(b"{\"a\":1}", ByteOrder::Little).unwrap();
    for cut in 0..frame.len() {
        assert_eq!(decode_frame(&frame[..cut], ByteOrder::Little), Err(FrameError::Truncated));
        assert!(matches!(
            decode_message(&frame[..cut], ByteOrder::Little),
            Err(DecodeError::Truncated)
        ));
    }
}

#[test]
fn message_round_trip() {
    let text = "{\"type\":\"injection_result\",\"tabId\":5,\"ok\":true}";
    let frame = encode_message(text, ByteOrder::Little).unwrap();
    let (m, used) = decode_message(&frame, ByteOrder::Little).unwrap();
    assert_eq!(m.text, text);
    assert_eq!(used, frame.len());
    assert_eq!(m.kind, MessageKind::InjectionResult);
    assert_eq!(m.json["tabId"], serde_json::Value::from(5));
}

#[test]
fn malformed_body_is_not_truncated() {
    let frame = encode_frame(b"{not json", ByteOrder::Little).unwrap();
    assert!(matches!(decode_message(&frame, ByteOrder::Little), Err(DecodeError::Malformed)));
    let bad_utf8 = encode_frame(&[0x22, 0xff, 0x22], ByteOrder::Little).unwrap();
    assert!(matches!(decode_message(&bad_utf8, ByteOrder::Little), Err(DecodeError::Malformed)));
}

#[test]
fn next_frame_is_readable_after_a_malformed_one() {
    let mut stream = encode_frame(b"oops", ByteOrder::Little).unwrap();
    stream.extend(encode_frame(b"{\"type\":\"audit_log\"}", ByteOrder::Little).unwrap());
    let (body, used) = decode_frame(&stream, ByteOrder::Little).unwrap();
    assert!(matches!(message_from_body(&body), Err(DecodeError::Malformed)));
    let (m, _) = decode_message(&stream[used..], ByteOrder::Little).unwrap();
    assert_eq!(m.kind, MessageKind::AuditLog);
}

#[test]
fn kinds_by_type_member() {
    let cases = [
        ("{\"type\":\"tabs\",\"tabs\":[]}", MessageKind::Tabs),
        ("{\"type\":\"html_result\"}", MessageKind::HtmlResult),
        ("{\"type\":\"capture_result\"}", MessageKind::CaptureResult),
        ("{\"type\":\"injection_result\"}", MessageKind::InjectionResult),
        ("{\"type\":\"audit_log\"}", MessageKind::AuditLog),
        ("{\"type\":\"unknown_xyz\"}", MessageKind::Other),
        ("{\"type\":7}", MessageKind::Other),
        ("{\"kind\":\"tabs\"}", MessageKind::Other),
        ("[1,2]", MessageKind::Other),
    ];
    for (text, kind) in cases {
        assert_eq!(parse_message(text.to_string()).unwrap().kind, kind, "{}", text);
    }
    assert!(matches!(parse_message("".to_string()), Err(DecodeError::Malformed)));
}
