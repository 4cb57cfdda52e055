use amiquip::content_collector::{ContentCollector, ContentHeader, ContentStart, Deliver, GetOk, Return};
use amiquip::error::ErrorKind;

fn deliver(tag: &str, delivery_tag: u64) -> ContentStart {
    ContentStart::Deliver(Deliver {
        consumer_tag: tag.to_string(),
        delivery_tag,
        redelivered: false,
        exchange: String::new(),
        routing_key: "q".to_string(),
    })
}

fn header(body_size: u64) -> ContentHeader {
    ContentHeader { class_id: 60, body_size, properties: vec![0, 0] }
}

#[test]
fn consume_and_deliver() {
    let mut c = ContentCollector::new();
    assert!(c.collect_start(deliver("ctag-1", 7)).is_ok());
    assert!(matches!(c.collect_header(header(3)), Ok(None)));
    let content = c.collect_body(b"abc".to_vec()).unwrap().unwrap();
    assert!(c.is_idle());
    assert_eq!(content.body, b"abc".to_vec());
    match content.start {
        ContentStart::Deliver(d) => {
            assert_eq!(d.consumer_tag, "ctag-1");
            assert_eq!(d.delivery_tag, 7);
            assert!(!d.redelivered);
            assert_eq!(d.exchange, "");
            assert_eq!(d.routing_key, "q");
        }
        _ => panic!("expected a delivery"),
    }
}

#[test]
fn fragments_join_into_one_content() {
    let mut c = ContentCollector::new();
    assert!(c.is_idle());
    c.collect_start(deliver("t", 1)).unwrap();
    assert!(!c.is_idle());
    assert!(matches!(c.collect_header(header(6)), Ok(None)));
    assert!(!c.is_idle());
    assert!(matches!(c.collect_body(b"ab".to_vec()), Ok(None)));
    assert!(!c.is_idle());
    assert!(matches!(c.collect_body(b"cd".to_vec()), Ok(None)));
    assert!(!c.is_idle());
    let content = c.collect_body(b"ef".to_vec()).unwrap().unwrap();
    assert_eq!(content.body, b"abcdef".to_vec());
    assert_eq!(content.header.body_size, 6);
    assert!(c.is_idle());
}

#[test]
fn zero_length_body_completes_at_header() {
    let mut c = ContentCollector::new();
    let start = ContentStart::GetOk(GetOk {
        delivery_tag: 1,
        redelivered: false,
        exchange: String::new(),
        routing_key: "q".to_string(),
        message_count: 0,
    });
    c.collect_start(start).unwrap();
    let content = c.collect_header(header(0)).unwrap().unwrap();
    assert!(content.body.is_empty());
    assert!(matches!(content.start, ContentStart::GetOk(_)));
    assert!(c.is_idle());
    // a body frame now is out of order
    assert!(matches!(c.collect_body(Vec::new()), Err(ErrorKind::FrameUnexpected)));
}

#[test]
fn body_overflow_is_unexpected() {
    let mut c = ContentCollector::new();
    c.collect_start(deliver("t", 1)).unwrap();
    c.collect_header(header(5)).unwrap();
    assert!(matches!(c.collect_body(b"abc".to_vec()), Ok(None)));
    assert!(matches!(c.collect_body(b"def".to_vec()), Err(ErrorKind::FrameUnexpected)));
    assert!(c.is_idle());
}

#[test]
fn out_of_order_frames_are_unexpected() {
    let mut c = ContentCollector::new();
    assert!(matches!(c.collect_body(b"a".to_vec()), Err(ErrorKind::FrameUnexpected)));
    assert!(matches!(c.collect_header(header(1)), Err(ErrorKind::FrameUnexpected)));
    c.collect_start(deliver("t", 1)).unwrap();
    assert!(matches!(c.collect_body(b"a".to_vec()), Err(ErrorKind::FrameUnexpected)));
    assert!(c.is_idle());
    c.collect_start(deliver("t", 1)).unwrap();
    assert!(matches!(c.collect_start(deliver("t", 2)), Err(ErrorKind::FrameUnexpected)));
    c.collect_start(deliver("t", 1)).unwrap();
    c.collect_header(header(4)).unwrap();
    let ret = ContentStart::Return(Return {
        reply_code: 312,
        reply_text: "NO_ROUTE".to_string(),
        exchange: String::new(),
        routing_key: "q".to_string(),
    });
    assert!(matches!(c.collect_start(ret), Err(ErrorKind::FrameUnexpected)));
    c.collect_start(deliver("t", 1)).unwrap();
    c.collect_header(header(4)).unwrap();
    assert!(matches!(c.collect_header(header(4)), Err(ErrorKind::FrameUnexpected)));
    assert!(c.is_idle());
}

#[test]
fn new_content_starts_after_each_emission() {
    let mut c = ContentCollector::new();
    c.collect_start(deliver("t", 1)).unwrap();
    assert!(c.collect_header(header(0)).unwrap().is_some());
    assert!(c.collect_start(deliver("t", 2)).is_ok());
    c.collect_header(header(1)).unwrap();
    assert!(c.collect_body(b"z".to_vec()).unwrap().is_some());
    assert!(c.collect_start(deliver("t", 3)).is_ok());
    assert!(!c.is_idle());
}
