use amiquip::dispatch::{classify, FrameKind};
use amiquip::error::ErrorKind;
use amiquip::frame::{Frame, Method};

fn method(ch: u16, class_id: u16, method_id: u16) -> Frame {
    Frame::Method(ch, Method { class_id, method_id, args: vec![] })
}

#[test]
fn connection_frames_on_channel_zero() {
    assert_eq!(classify(&Frame::Heartbeat), Ok(FrameKind::Heartbeat));
    assert_eq!(classify(&method(0, 10, 50)), Ok(FrameKind::ConnectionClose));
    assert_eq!(classify(&method(0, 10, 51)), Ok(FrameKind::ConnectionCloseOk));
    assert_eq!(classify(&method(0, 10, 60)), Ok(FrameKind::Blocked));
    assert_eq!(classify(&method(0, 10, 61)), Ok(FrameKind::Unblocked));
    assert_eq!(classify(&method(0, 20, 40)), Err(ErrorKind::ProtocolError));
    assert_eq!(classify(&Frame::Body(0, vec![1])), Err(ErrorKind::ProtocolError));
    assert_eq!(classify(&Frame::Header(0, 60, 1, vec![])), Err(ErrorKind::ProtocolError));
}

#[test]
fn channel_frames() {
    assert_eq!(classify(&method(1, 10, 50)), Err(ErrorKind::ProtocolError));
    assert_eq!(classify(&method(1, 20, 40)), Ok(FrameKind::ChannelClose));
    assert_eq!(classify(&method(1, 20, 41)), Ok(FrameKind::Reply));
    assert_eq!(classify(&method(1, 60, 60)), Ok(FrameKind::ContentStart));
    assert_eq!(classify(&method(1, 60, 71)), Ok(FrameKind::ContentStart));
    assert_eq!(classify(&method(1, 60, 50)), Ok(FrameKind::ContentStart));
    assert_eq!(classify(&method(1, 60, 21)), Ok(FrameKind::ConsumeOk));
    assert_eq!(classify(&method(1, 60, 31)), Ok(FrameKind::Cancel));
    assert_eq!(classify(&method(1, 60, 80)), Ok(FrameKind::Confirm));
    assert_eq!(classify(&method(1, 50, 11)), Ok(FrameKind::Reply));
    assert_eq!(classify(&Frame::Header(1, 60, 1, vec![])), Ok(FrameKind::Header));
    assert_eq!(classify(&Frame::Body(1, vec![])), Ok(FrameKind::Body));
}
