use amiquip::channel::{channel_close, expect_consume_ok, expect_method, parse_close, Channel, Reply};
use amiquip::error::ErrorKind;
use amiquip::frame::{parse_frame, Frame, Method};

#[test]
fn happy_publish() {
    let mut ch = Channel::new(1, 131072);
    ch.basic_publish(b"hello", "", "q", false, false, vec![0, 0]).unwrap();
    let wire = ch.take_output();
    let method = vec![1, 0, 1, 0, 0, 0, 10, 0, 60, 0, 40, 0, 0, 0, 1, b'q', 0, 0xCE];
    let header = vec![2, 0, 1, 0, 0, 0, 14, 0, 60, 0, 0, 0, 0, 0, 0, 0, 0, 0, 5, 0, 0, 0xCE];
    let body = vec![3, 0, 1, 0, 0, 0, 5, b'h', b'e', b'l', b'l', b'o', 0xCE];
    let mut expected = method;
    expected.extend(header);
    expected.extend(body);
    assert_eq!(wire, expected);
    assert!(ch.take_output().is_empty());
}

#[test]
fn publish_flags_are_encoded() {
    let mut ch = Channel::new(2, 4096);
    ch.basic_publish(b"", "ex", "rk", true, true, vec![0, 0]).unwrap();
    let wire = ch.take_output();
    match parse_frame(&wire, 4096) {
        Ok(Some((Frame::Method(2, m), n))) => {
            assert_eq!(m.args, vec![0, 0, 2, b'e', b'x', 2, b'r', b'k', 3]);
            // an empty body gives a header and no body frame
            assert_eq!(wire.len(), n + 22);
        }
        _ => panic!("expected a method frame"),
    }
}

#[test]
fn large_body_is_split() {
    let mut ch = Channel::new(1, 4096);
    let content = vec![7u8; 5000];
    ch.basic_publish(&content, "", "q", false, false, vec![0, 0]).unwrap();
    let wire = ch.take_output();
    let mut at = 0;
    let mut sizes = Vec::new();
    while at < wire.len() {
        let (f, n) = parse_frame(&wire[at..], 4096).unwrap().unwrap();
        if let Frame::Body(1, b) = f {
            sizes.push(b.len());
        }
        at += n;
    }
    assert_eq!(sizes, vec![4088, 912]);
}

#[test]
fn server_closed_channel() {
    let mut ch = Channel::new(1, 131072);
    assert!(ch.check_server_closed().is_ok());
    ch.set_server_closed(406, "PRECONDITION_FAILED".to_string());
    let expected = ErrorKind::ServerClosedChannel(1, 406, "PRECONDITION_FAILED".to_string());
    assert_eq!(ch.check_server_closed(), Err(expected));
    let r = ch.basic_publish(b"hello", "", "q", false, false, vec![0, 0]);
    assert_eq!(r, Err(ErrorKind::ServerClosedChannel(1, 406, "PRECONDITION_FAILED".to_string())));
    assert!(ch.take_output().is_empty());
    // a later close by the server does not revise the first
    ch.set_server_closed(320, "CONNECTION_FORCED".to_string());
    let r = ch.close();
    assert_eq!(r, Err(ErrorKind::ServerClosedChannel(1, 406, "PRECONDITION_FAILED".to_string())));
    let m = Method { class_id: 50, method_id: 10, args: vec![] };
    assert!(ch.call_nowait(m).is_err());
    assert!(ch.take_output().is_empty());
}

#[test]
fn close_is_sent_once() {
    let mut ch = Channel::new(4, 4096);
    ch.close().unwrap();
    let wire = ch.take_output();
    assert_eq!(
        wire,
        vec![1, 0, 4, 0, 0, 0, 13, 0, 20, 0, 40, 0, 200, 2, b'O', b'K', 0, 0, 0, 0, 0xCE]
    );
    ch.close().unwrap();
    assert!(ch.take_output().is_empty());
    let m = channel_close();
    assert_eq!((m.class_id, m.method_id), (20, 40));
}

#[test]
fn calls_reach_the_wire_in_order() {
    let mut ch = Channel::new(1, 4096);
    for id in [10u16, 20, 30, 40] {
        ch.call_nowait(Method { class_id: 50, method_id: id, args: vec![id as u8] }).unwrap();
    }
    let wire = ch.take_output();
    let mut at = 0;
    let mut ids = Vec::new();
    while at < wire.len() {
        match parse_frame(&wire[at..], 4096) {
            Ok(Some((Frame::Method(1, m), n))) => {
                assert_eq!(m.args, vec![m.method_id as u8]);
                ids.push(m.method_id);
                at += n;
            }
            _ => panic!("expected a method frame"),
        }
    }
    assert_eq!(ids, vec![10, 20, 30, 40]);
}

#[test]
fn unencodable_publishes_stage_nothing() {
    let mut ch = Channel::new(1, 4096);
    let long = "x".repeat(256);
    assert_eq!(
        ch.basic_publish(b"a", &long, "q", false, false, vec![0, 0]),
        Err(ErrorKind::ProtocolError)
    );
    assert_eq!(
        ch.basic_publish(b"a", "", "q", false, false, vec![0; 4085]),
        Err(ErrorKind::FrameTooLarge)
    );
    assert!(ch.take_output().is_empty());
    assert_eq!(
        ch.basic_publish(b"a", "", "q", false, false, vec![0; 4077]),
        Err(ErrorKind::FrameTooLarge)
    );
    assert!(ch.take_output().is_empty());
    let big = Method { class_id: 50, method_id: 10, args: vec![0; 4085] };
    assert_eq!(ch.call_nowait(big), Err(ErrorKind::FrameTooLarge));
    let unknown = Method { class_id: 50, method_id: 12, args: vec![] };
    assert_eq!(ch.call_nowait(unknown), Err(ErrorKind::UnknownMethod));
    let fits = Method { class_id: 50, method_id: 10, args: vec![0; 4084] };
    assert!(ch.call_nowait(fits).is_ok());
    assert_eq!(ch.take_output().len(), 4096);
}

#[test]
fn close_arguments_decode() {
    assert_eq!(parse_close(&channel_close().args), Ok((200, "OK".to_string())));
    let mut args = vec![1, 150, 19];
    args.extend_from_slice(b"PRECONDITION_FAILED");
    args.extend_from_slice(&[0, 50, 0, 10]);
    assert_eq!(parse_close(&args), Ok((406, "PRECONDITION_FAILED".to_string())));
    // the text is not UTF-8
    assert_eq!(parse_close(&[0, 200, 1, 0xFF, 0, 0, 0, 0]), Err(ErrorKind::ProtocolError));
    // truncated, and too long
    assert_eq!(parse_close(&[0, 200, 2, b'O', b'K', 0, 0, 0]), Err(ErrorKind::ProtocolError));
    assert_eq!(parse_close(&[0, 200, 0, 0, 0, 0, 0, 0]), Err(ErrorKind::ProtocolError));
    assert_eq!(parse_close(&[0, 200]), Err(ErrorKind::ProtocolError));
}

#[test]
fn replies_are_checked() {
    let close_ok = Reply::Method(Method { class_id: 20, method_id: 41, args: vec![] });
    let m = expect_method(close_ok, 20, 41).unwrap();
    assert_eq!((m.class_id, m.method_id), (20, 41));
    let other = Reply::Method(Method { class_id: 50, method_id: 11, args: vec![1] });
    assert_eq!(expect_method(other, 20, 41).err(), Some(ErrorKind::FrameUnexpected));
    let consume_ok = Reply::ConsumeOk("ctag-1".to_string());
    assert_eq!(expect_method(consume_ok, 60, 21).err(), Some(ErrorKind::FrameUnexpected));
    assert_eq!(expect_consume_ok(Reply::ConsumeOk("ctag-1".to_string())), Ok("ctag-1".to_string()));
    let plain = Reply::Method(Method { class_id: 60, method_id: 21, args: vec![] });
    assert_eq!(expect_consume_ok(plain), Err(ErrorKind::FrameUnexpected));
}
