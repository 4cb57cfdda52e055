use amiquip::error::ErrorKind;
use amiquip::frame::{parse_frame, serialize, Frame, Method};

fn method_frame(ch: u16, class_id: u16, method_id: u16, args: Vec<u8>) -> Frame {
    Frame::Method(ch, Method { class_id, method_id, args })
}

#[test]
fn method_frame_round_trip() {
    let f = method_frame(3, 50, 10, vec![0, 0, 1, b'q', 0]);
    let bytes = serialize(&f, 4096).unwrap();
    assert_eq!(bytes, vec![1, 0, 3, 0, 0, 0, 9, 0, 50, 0, 10, 0, 0, 1, b'q', 0, 0xCE]);
    match parse_frame(&bytes, 4096) {
        Ok(Some((Frame::Method(ch, m), n))) => {
            assert_eq!(ch, 3);
            assert_eq!(m.class_id, 50);
            assert_eq!(m.method_id, 10);
            assert_eq!(m.args, vec![0, 0, 1, b'q', 0]);
            assert_eq!(n, bytes.len());
        }
        _ => panic!("expected a method frame"),
    }
}

#[test]
fn header_frame_round_trip() {
    let f = Frame::Header(7, 60, 0x0102030405060708, vec![0x80, 0, 4, b't', b'e', b'x', b't']);
    let bytes = serialize(&f, 4096).unwrap();
    assert_eq!(&bytes[..19], &[2, 0, 7, 0, 0, 0, 19, 0, 60, 0, 0, 1, 2, 3, 4, 5, 6, 7, 8][..]);
    match parse_frame(&bytes, 4096) {
        Ok(Some((Frame::Header(ch, class_id, size, props), n))) => {
            assert_eq!(ch, 7);
            assert_eq!(class_id, 60);
            assert_eq!(size, 0x0102030405060708);
            assert_eq!(props, vec![0x80, 0, 4, b't', b'e', b'x', b't']);
            assert_eq!(n, 27);
        }
        _ => panic!("expected a header frame"),
    }
}

#[test]
fn body_and_heartbeat_round_trip() {
    let bytes = serialize(&Frame::Body(1, b"abc".to_vec()), 4096).unwrap();
    assert_eq!(bytes, vec![3, 0, 1, 0, 0, 0, 3, b'a', b'b', b'c', 0xCE]);
    match parse_frame(&bytes, 4096) {
        Ok(Some((Frame::Body(1, b), 11))) => assert_eq!(b, b"abc".to_vec()),
        _ => panic!("expected a body frame"),
    }
    let hb = serialize(&Frame::Heartbeat, 4096).unwrap();
    assert_eq!(hb, vec![8, 0, 0, 0, 0, 0, 0, 0xCE]);
    assert!(matches!(parse_frame(&hb, 4096), Ok(Some((Frame::Heartbeat, 8)))));
}

#[test]
fn incomplete_frame_needs_more() {
    let bytes = serialize(&Frame::Body(1, b"abc".to_vec()), 4096).unwrap();
    for k in 0..bytes.len() {
        assert!(matches!(parse_frame(&bytes[..k], 4096), Ok(None)));
    }
}

#[test]
fn bad_end_byte_is_protocol_error() {
    let mut bytes = serialize(&Frame::Body(1, b"abc".to_vec()), 4096).unwrap();
    let last = bytes.len() - 1;
    bytes[last] = 0;
    assert!(matches!(parse_frame(&bytes, 4096), Err(ErrorKind::ProtocolError)));
}

#[test]
fn oversized_frame_is_refused() {
    let bytes = vec![3, 0, 1, 0, 0, 0x10, 0x01];
    assert!(matches!(parse_frame(&bytes, 4096), Err(ErrorKind::FrameTooLarge)));
    let f = Frame::Body(1, vec![0; 4097]);
    assert!(matches!(serialize(&f, 4096), Err(ErrorKind::FrameTooLarge)));
    // the whole frame, head and end marker included, must fit
    let g = method_frame(1, 60, 40, vec![0; 4084]);
    assert_eq!(serialize(&g, 4096).unwrap().len(), 4096);
    let g = method_frame(1, 60, 40, vec![0; 4085]);
    assert!(matches!(serialize(&g, 4096), Err(ErrorKind::FrameTooLarge)));
    assert!(serialize(&Frame::Body(1, vec![0; 4088]), 4096).is_ok());
    assert!(matches!(serialize(&Frame::Body(1, vec![0; 4089]), 4096), Err(ErrorKind::FrameTooLarge)));
    let h = Frame::Header(1, 60, 0, vec![0; 4077]);
    assert!(matches!(serialize(&h, 4096), Err(ErrorKind::FrameTooLarge)));
}

#[test]
fn malformed_payloads_are_protocol_errors() {
    // unknown frame type
    assert!(matches!(parse_frame(&[9, 0, 0, 0, 0, 0, 0, 0xCE], 4096), Err(ErrorKind::ProtocolError)));
    // heartbeat on a channel other than 0
    assert!(matches!(parse_frame(&[8, 0, 1, 0, 0, 0, 0, 0xCE], 4096), Err(ErrorKind::ProtocolError)));
    // method payload shorter than its ids
    assert!(matches!(parse_frame(&[1, 0, 1, 0, 0, 0, 2, 0, 20, 0xCE], 4096), Err(ErrorKind::ProtocolError)));
}

#[test]
fn frames_parse_back_in_order() {
    let frames = vec![
        method_frame(1, 50, 10, vec![1]),
        method_frame(1, 50, 20, vec![2, 2]),
        method_frame(1, 60, 10, vec![]),
    ];
    let mut wire = Vec::new();
    for f in &frames {
        wire.extend(serialize(f, 4096).unwrap());
    }
    let mut at = 0;
    let mut ids = Vec::new();
    while at < wire.len() {
        match parse_frame(&wire[at..], 4096) {
            Ok(Some((Frame::Method(1, m), n))) => {
                ids.push(m.method_id);
                at += n;
            }
            _ => panic!("expected a method frame"),
        }
    }
    assert_eq!(ids, vec![10, 20, 10]);
}

#[test]
fn unknown_method_is_refused() {
    // class 60, method 41 does not exist
    let bytes = [1, 0, 1, 0, 0, 0, 4, 0, 60, 0, 41, 0xCE];
    assert!(matches!(parse_frame(&bytes, 4096), Err(ErrorKind::UnknownMethod)));
    assert!(matches!(serialize(&method_frame(1, 60, 41, vec![]), 4096), Err(ErrorKind::UnknownMethod)));
    // class 30 does not exist
    let bytes = [1, 0, 1, 0, 0, 0, 4, 0, 30, 0, 10, 0xCE];
    assert!(matches!(parse_frame(&bytes, 4096), Err(ErrorKind::UnknownMethod)));
    assert!(matches!(serialize(&method_frame(1, 30, 10, vec![]), 4096), Err(ErrorKind::UnknownMethod)));
    // basic.nack and tx.rollback-ok are known
    let bytes = serialize(&method_frame(1, 60, 120, vec![]), 4096).unwrap();
    assert!(matches!(parse_frame(&bytes, 4096), Ok(Some((Frame::Method(1, _), 12)))));
    let bytes = serialize(&method_frame(1, 90, 31, vec![]), 4096).unwrap();
    assert!(parse_frame(&bytes, 4096).unwrap().is_some());
}
