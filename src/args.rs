//! Decoding the arguments of the methods the loop reads: short strings
//! (a length byte, then UTF-8 bytes), integers, and bits.
use vstd::prelude::*;
use vstd::utf8::{decode_utf8, valid_utf8};
use crate::content_collector::{Deliver, GetOk, Return};
use crate::error::ErrorKind;
use crate::frame::{copy_range, dec16, dec32, dec64, read16, read32, read64};

verus! {

/// Relies on `std::str::from_utf8`: it succeeds exactly on valid UTF-8,
/// and the text then holds the characters those bytes encode.
#[verifier::external_body]
pub(crate) fn utf8_text(b: &[u8]) -> (r: Option<String>)
    ensures
        r is Some <==> valid_utf8(b@),
        r matches Some(s) ==> s@ == decode_utf8(b@),
{
    std::str::from_utf8(b).ok().map(|s| s.to_string())
}

/// The short string at `at` in `a`, and where it ends.
pub open spec fn shortstr_at(a: Seq<u8>, at: int) -> Option<(Seq<u8>, int)> {
    if 0 <= at < a.len() && at + 1 + a[at] <= a.len() {
        Some((a.subrange(at + 1, at + 1 + a[at]), at + 1 + a[at]))
    } else {
        None
    }
}

/// Reads the short string at `at`: its bytes and where it ends.
pub fn read_shortstr(a: &[u8], at: usize) -> (r: Option<(Vec<u8>, usize)>)
    ensures
        match shortstr_at(a@, at as int) {
            None => r is None,
            Some((b, next)) => r matches Some((v, n)) && v@ == b && n == next,
        },
{
    if at >= a.len() {
        return None;
    }
    let n = a[at] as usize;
    if a.len() - at - 1 < n {
        return None;
    }
    let end = at + 1 + n;
    Some((copy_range(a, at + 1, end), end))
}

/// The argument of `basic.consume-ok`: the consumer tag, which must fill
/// the arguments exactly.
pub open spec fn consume_ok_fields(a: Seq<u8>) -> Option<Seq<u8>> {
    match shortstr_at(a, 0) {
        Some((tag, next)) => if next == a.len() {
            Some(tag)
        } else {
            None
        },
        None => None,
    }
}

/// The consumer tag of `basic.consume-ok`; malformed arguments are a
/// `ProtocolError`.
pub fn parse_consume_ok(args: &[u8]) -> (r: Result<String, ErrorKind>)
    ensures
        match consume_ok_fields(args@) {
            Some(tag) => if valid_utf8(tag) {
                r matches Ok(t) && t@ == decode_utf8(tag)
            } else {
                r == Err::<String, ErrorKind>(ErrorKind::ProtocolError)
            },
            None => r == Err::<String, ErrorKind>(ErrorKind::ProtocolError),
        },
{
    match read_shortstr(args, 0) {
        Some((tag, next)) => {
            if next != args.len() {
                return Err(ErrorKind::ProtocolError);
            }
            match utf8_text(tag.as_slice()) {
                Some(t) => Ok(t),
                None => Err(ErrorKind::ProtocolError),
            }
        },
        None => Err(ErrorKind::ProtocolError),
    }
}

/// The arguments of `basic.deliver`: consumer tag, delivery tag,
/// `redelivered` bit, exchange, routing key; they must fill the arguments
/// exactly.
pub open spec fn deliver_fields(a: Seq<u8>) -> Option<(Seq<u8>, u64, bool, Seq<u8>, Seq<u8>)> {
    match shortstr_at(a, 0) {
        Some((tag, tag_end)) => if tag_end + 9 > a.len() {
            None
        } else {
            match shortstr_at(a, tag_end + 9) {
                Some((exchange, exchange_end)) => match shortstr_at(a, exchange_end) {
                    Some((key, key_end)) => if key_end == a.len() {
                        Some((tag, dec64(a, tag_end), a[tag_end + 8] & 1 == 1, exchange, key))
                    } else {
                        None
                    },
                    None => None,
                },
                None => None,
            }
        },
        None => None,
    }
}

fn text_field(b: &Vec<u8>) -> (r: Result<String, ErrorKind>)
    ensures
        valid_utf8(b@) ==> (r matches Ok(t) && t@ == decode_utf8(b@)),
        !valid_utf8(b@) ==> r == Err::<String, ErrorKind>(ErrorKind::ProtocolError),
{
    match utf8_text(b.as_slice()) {
        Some(t) => Ok(t),
        None => Err(ErrorKind::ProtocolError),
    }
}

/// The arguments of `basic.deliver`; malformed arguments, or a text that
/// is not UTF-8, are a `ProtocolError`.
pub fn parse_deliver(args: &[u8]) -> (r: Result<Deliver, ErrorKind>)
    ensures
        match deliver_fields(args@) {
            Some((tag, delivery_tag, redelivered, exchange, key)) => if valid_utf8(tag)
                && valid_utf8(exchange) && valid_utf8(key) {
                r matches Ok(d) && d.consumer_tag@ == decode_utf8(tag) && d.delivery_tag
                    == delivery_tag && d.redelivered == redelivered && d.exchange@ == decode_utf8(
                    exchange,
                ) && d.routing_key@ == decode_utf8(key)
            } else {
                r == Err::<Deliver, ErrorKind>(ErrorKind::ProtocolError)
            },
            None => r == Err::<Deliver, ErrorKind>(ErrorKind::ProtocolError),
        },
{
    let (tag, tag_end) = match read_shortstr(args, 0) {
        Some(x) => x,
        None => {
            return Err(ErrorKind::ProtocolError);
        },
    };
    if args.len() - tag_end < 9 {
        return Err(ErrorKind::ProtocolError);
    }
    let delivery_tag = read64(args, tag_end);
    let redelivered = args[tag_end + 8] & 1 == 1;
    let (exchange, exchange_end) = match read_shortstr(args, tag_end + 9) {
        Some(x) => x,
        None => {
            return Err(ErrorKind::ProtocolError);
        },
    };
    let (key, key_end) = match read_shortstr(args, exchange_end) {
        Some(x) => x,
        None => {
            return Err(ErrorKind::ProtocolError);
        },
    };
    if key_end != args.len() {
        return Err(ErrorKind::ProtocolError);
    }
    let consumer_tag = text_field(&tag)?;
    let exchange = text_field(&exchange)?;
    let routing_key = text_field(&key)?;
    Ok(Deliver { consumer_tag, delivery_tag, redelivered, exchange, routing_key })
}

/// The arguments of `basic.get-ok`: delivery tag, `redelivered` bit,
/// exchange, routing key, message count; they must fill the arguments
/// exactly.
pub open spec fn get_ok_fields(a: Seq<u8>) -> Option<(u64, bool, Seq<u8>, Seq<u8>, u32)> {
    if a.len() < 9 {
        None
    } else {
        match shortstr_at(a, 9) {
            Some((exchange, exchange_end)) => match shortstr_at(a, exchange_end) {
                Some((key, key_end)) => if key_end + 4 == a.len() {
                    Some((dec64(a, 0), a[8] & 1 == 1, exchange, key, dec32(a, key_end)))
                } else {
                    None
                },
                None => None,
            },
            None => None,
        }
    }
}

/// The arguments of `basic.get-ok`; malformed arguments, or a text that
/// is not UTF-8, are a `ProtocolError`.
pub fn parse_get_ok(args: &[u8]) -> (r: Result<GetOk, ErrorKind>)
    ensures
        match get_ok_fields(args@) {
            Some((delivery_tag, redelivered, exchange, key, count)) => if valid_utf8(exchange)
                && valid_utf8(key) {
                r matches Ok(g) && g.delivery_tag == delivery_tag && g.redelivered == redelivered
                    && g.exchange@ == decode_utf8(exchange) && g.routing_key@ == decode_utf8(key)
                    && g.message_count == count
            } else {
                r == Err::<GetOk, ErrorKind>(ErrorKind::ProtocolError)
            },
            None => r == Err::<GetOk, ErrorKind>(ErrorKind::ProtocolError),
        },
{
    if args.len() < 9 {
        return Err(ErrorKind::ProtocolError);
    }
    let delivery_tag = read64(args, 0);
    let redelivered = args[8] & 1 == 1;
    let (exchange, exchange_end) = match read_shortstr(args, 9) {
        Some(x) => x,
        None => {
            return Err(ErrorKind::ProtocolError);
        },
    };
    let (key, key_end) = match read_shortstr(args, exchange_end) {
        Some(x) => x,
        None => {
            return Err(ErrorKind::ProtocolError);
        },
    };
    if args.len() < 4 || key_end != args.len() - 4 {
        return Err(ErrorKind::ProtocolError);
    }
    let message_count = read32(args, key_end);
    let exchange = text_field(&exchange)?;
    let routing_key = text_field(&key)?;
    Ok(GetOk { delivery_tag, redelivered, exchange, routing_key, message_count })
}

/// The arguments of `basic.return`: reply code, reply text, exchange,
/// routing key; they must fill the arguments exactly.
pub open spec fn return_fields(a: Seq<u8>) -> Option<(u16, Seq<u8>, Seq<u8>, Seq<u8>)> {
    if a.len() < 2 {
        None
    } else {
        match shortstr_at(a, 2) {
            Some((text, text_end)) => match shortstr_at(a, text_end) {
                Some((exchange, exchange_end)) => match shortstr_at(a, exchange_end) {
                    Some((key, key_end)) => if key_end == a.len() {
                        Some((dec16(a, 0), text, exchange, key))
                    } else {
                        None
                    },
                    None => None,
                },
                None => None,
            },
            None => None,
        }
    }
}

/// The arguments of `basic.return`; malformed arguments, or a text that
/// is not UTF-8, are a `ProtocolError`.
pub fn parse_return(args: &[u8]) -> (r: Result<Return, ErrorKind>)
    ensures
        match return_fields(args@) {
            Some((code, text, exchange, key)) => if valid_utf8(text) && valid_utf8(exchange)
                && valid_utf8(key) {
                r matches Ok(x) && x.reply_code == code && x.reply_text@ == decode_utf8(text)
                    && x.exchange@ == decode_utf8(exchange) && x.routing_key@ == decode_utf8(key)
            } else {
                r == Err::<Return, ErrorKind>(ErrorKind::ProtocolError)
            },
            None => r == Err::<Return, ErrorKind>(ErrorKind::ProtocolError),
        },
{
    if args.len() < 2 {
        return Err(ErrorKind::ProtocolError);
    }
    let reply_code = read16(args, 0);
    let (text, text_end) = match read_shortstr(args, 2) {
        Some(x) => x,
        None => {
            return Err(ErrorKind::ProtocolError);
        },
    };
    let (exchange, exchange_end) = match read_shortstr(args, text_end) {
        Some(x) => x,
        None => {
            return Err(ErrorKind::ProtocolError);
        },
    };
    let (key, key_end) = match read_shortstr(args, exchange_end) {
        Some(x) => x,
        None => {
            return Err(ErrorKind::ProtocolError);
        },
    };
    if key_end != args.len() {
        return Err(ErrorKind::ProtocolError);
    }
    let reply_text = text_field(&text)?;
    let exchange = text_field(&exchange)?;
    let routing_key = text_field(&key)?;
    Ok(Return { reply_code, reply_text, exchange, routing_key })
}

} // verus!
