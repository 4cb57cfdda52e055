use amiquip::channel_slot::{ChannelSlot, Routed};
use amiquip::content_collector::{ContentHeader, ContentStart, Deliver, GetOk};
use amiquip::error::ErrorKind;

fn deliver(tag: &str, delivery_tag: u64) -> ContentStart {
    ContentStart::Deliver(Deliver {
        consumer_tag: tag.to_string(),
        delivery_tag,
        redelivered: false,
        exchange: String::new(),
        routing_key: "q".to_string(),
    })
}

fn header(body_size: u64) -> ContentHeader {
    ContentHeader { class_id: 60, body_size, properties: vec![0, 0] }
}

#[test]
fn one_rpc_in_flight() {
    let mut slot = ChannelSlot::new(1);
    assert!(slot.begin_rpc(false).is_ok());
    assert!(slot.begin_rpc(true).is_ok());
    assert_eq!(slot.begin_rpc(true), Err(ErrorKind::FrameUnexpected));
    assert!(slot.begin_rpc(false).is_ok());
    assert_eq!(slot.on_reply(), Ok(true));
    assert_eq!(slot.on_reply(), Err(ErrorKind::ProtocolError));
}

#[test]
fn consume_registers_and_routes_deliveries() {
    let mut slot = ChannelSlot::new(1);
    slot.begin_rpc(true).unwrap();
    assert_eq!(slot.on_consume_ok("ctag-1".to_string()), Ok(true));
    slot.on_content_start(deliver("ctag-1", 7)).unwrap();
    assert!(matches!(slot.on_header(header(3)), Ok(Routed::Nothing)));
    match slot.on_body(b"abc".to_vec()) {
        Ok(Routed::Consumer(c)) => {
            assert_eq!(c.body, b"abc".to_vec());
            match c.start {
                ContentStart::Deliver(d) => {
                    assert_eq!(d.consumer_tag, "ctag-1");
                    assert_eq!(d.delivery_tag, 7);
                }
                _ => panic!("expected a delivery"),
            }
        }
        _ => panic!("expected a routed delivery"),
    }
    // unknown tag: dropped
    slot.on_content_start(deliver("other", 8)).unwrap();
    assert!(matches!(slot.on_header(header(0)), Ok(Routed::Dropped(_))));
    // cancel removes the consumer
    assert!(slot.on_cancel(&"ctag-1".to_string()));
    assert!(!slot.on_cancel(&"ctag-1".to_string()));
    slot.on_content_start(deliver("ctag-1", 9)).unwrap();
    assert!(matches!(slot.on_header(header(0)), Ok(Routed::Dropped(_))));
}

#[test]
fn server_close_fails_the_waiter_and_later_calls() {
    let mut slot = ChannelSlot::new(1);
    slot.begin_rpc(true).unwrap();
    slot.on_consume_ok("ctag-1".to_string()).unwrap();
    slot.begin_rpc(true).unwrap();
    let effects = slot.on_server_close(406, "PRECONDITION_FAILED".to_string());
    let expected = ErrorKind::ServerClosedChannel(1, 406, "PRECONDITION_FAILED".to_string());
    assert_eq!(effects.error, expected);
    assert!(effects.failed_waiter);
    assert_eq!(effects.cancelled, vec!["ctag-1".to_string()]);
    assert_eq!(
        slot.begin_rpc(false),
        Err(ErrorKind::ServerClosedChannel(1, 406, "PRECONDITION_FAILED".to_string()))
    );
    // stragglers after the close are discarded
    assert_eq!(slot.on_reply(), Ok(false));
    assert!(matches!(slot.on_body(b"x".to_vec()), Ok(Routed::Nothing)));
    let again = slot.on_server_close(320, "CONNECTION_FORCED".to_string());
    assert_eq!(again.error, ErrorKind::ServerClosedChannel(1, 406, "PRECONDITION_FAILED".to_string()));
    assert!(!again.failed_waiter);
}

#[test]
fn get_ok_with_empty_body_answers_get() {
    let mut slot = ChannelSlot::new(2);
    slot.begin_rpc(true).unwrap();
    let start = ContentStart::GetOk(GetOk {
        delivery_tag: 1,
        redelivered: false,
        exchange: String::new(),
        routing_key: "q".to_string(),
        message_count: 0,
    });
    slot.on_content_start(start).unwrap();
    match slot.on_header(header(0)) {
        Ok(Routed::Get(c)) => assert!(c.body.is_empty()),
        _ => panic!("expected a get result"),
    }
    // the get is answered: a new RPC may start
    assert!(slot.begin_rpc(true).is_ok());
}

#[test]
fn body_overflow_closes_the_channel() {
    let mut slot = ChannelSlot::new(3);
    slot.on_content_start(deliver("t", 1)).unwrap();
    slot.on_header(header(5)).unwrap();
    assert!(matches!(slot.on_body(b"abc".to_vec()), Ok(Routed::Nothing)));
    assert!(matches!(slot.on_body(b"def".to_vec()), Err(ErrorKind::FrameUnexpected)));
    assert_eq!(slot.begin_rpc(false), Err(ErrorKind::FrameUnexpected));
}
