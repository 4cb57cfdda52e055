//! The application side of one channel: it stages the frames of its
//! operations for the I/O loop and remembers a close by the server.
use vstd::prelude::*;
use vstd::string::StringSliceAdditionalSpecFns;
use vstd::utf8::{decode_utf8, valid_utf8};
use crate::args::utf8_text;
use crate::error::{ErrorKind, clone_error};
use crate::frame::{FrameModel, Method, be16, dec16, frame_bytes, known_method, lemma_be16, push_be16};
use crate::output_buffer::{FRAME_OVERHEAD, MIN_FRAME_MAX, OutputBuffer, body_frames};

verus! {

pub const CLASS_CHANNEL: u16 = 20;

pub const METHOD_CHANNEL_CLOSE: u16 = 40;

pub const CLASS_BASIC: u16 = 60;

pub const METHOD_BASIC_PUBLISH: u16 = 40;

/// The reply code of a graceful close.
pub const REPLY_SUCCESS: u16 = 200;

/// A short string on the wire: its length in one byte, then its bytes.
pub open spec fn shortstr(b: Seq<u8>) -> Seq<u8> {
    seq![b.len() as u8] + b
}

/// The arguments of `basic.publish`: ticket, exchange, routing key, and the
/// `mandatory` and `immediate` bits.
pub open spec fn publish_args(exchange: Seq<u8>, routing_key: Seq<u8>, mandatory: bool, immediate: bool) -> Seq<u8> {
    be16(0) + shortstr(exchange) + shortstr(routing_key) + seq![publish_flags(mandatory, immediate)]
}

pub open spec fn publish_flags(mandatory: bool, immediate: bool) -> u8 {
    ((if mandatory { 1u8 } else { 0u8 }) | (if immediate { 2u8 } else { 0u8 })) as u8
}

/// The arguments of `channel.close`: reply code, reply text, and the class
/// and method that caused the close.
pub open spec fn close_args(code: u16, text: Seq<u8>, class_id: u16, method_id: u16) -> Seq<u8> {
    be16(code) + shortstr(text) + be16(class_id) + be16(method_id)
}

/// The fields of `channel.close` arguments, where `a` holds exactly one
/// such encoding.
pub open spec fn decode_close_args(a: Seq<u8>) -> Option<(u16, Seq<u8>, u16, u16)> {
    if a.len() < 3 {
        None
    } else {
        let n = a[2] as int;
        if a.len() != 7 + n {
            None
        } else {
            Some((dec16(a, 0), a.subrange(3, 3 + n), dec16(a, 3 + n), dec16(a, 5 + n)))
        }
    }
}

/// Encoding `channel.close` arguments and decoding them gives the fields
/// back, for any reply text of at most 255 bytes.
pub proof fn lemma_close_args_round_trip(code: u16, text: Seq<u8>, class_id: u16, method_id: u16)
    requires
        text.len() <= 255,
    ensures
        decode_close_args(close_args(code, text, class_id, method_id)) == Some(
            (code, text, class_id, method_id),
        ),
{
    let a = close_args(code, text, class_id, method_id);
    let n = text.len() as int;
    lemma_be16(code);
    lemma_be16(class_id);
    lemma_be16(method_id);
    assert(a.subrange(0, 2) =~= be16(code));
    assert(a.subrange(3, 3 + n) =~= text);
    assert(a.subrange(3 + n, 5 + n) =~= be16(class_id));
    assert(a.subrange(5 + n, 7 + n) =~= be16(method_id));
    assert(dec16(a, 0) == dec16(a.subrange(0, 2), 0));
    assert(dec16(a, 3 + n) == dec16(a.subrange(3 + n, 5 + n), 0));
    assert(dec16(a, 5 + n) == dec16(a.subrange(5 + n, 7 + n), 0));
}

/// The reply code and text of a `channel.close` from the server; arguments
/// that are not one such encoding, or a text that is not UTF-8, are a
/// `ProtocolError`.
pub fn parse_close(args: &[u8]) -> (r: Result<(u16, String), ErrorKind>)
    ensures
        match decode_close_args(args@) {
            None => r == Err::<(u16, String), ErrorKind>(ErrorKind::ProtocolError),
            Some((code, text, _, _)) => if valid_utf8(text) {
                r matches Ok((c, t)) && c == code && t@ == decode_utf8(text)
            } else {
                r == Err::<(u16, String), ErrorKind>(ErrorKind::ProtocolError)
            },
        },
{
    if args.len() < 3 {
        return Err(ErrorKind::ProtocolError);
    }
    let n = args[2] as usize;
    if args.len() != 7 + n {
        return Err(ErrorKind::ProtocolError);
    }
    let code = ((args[0] as u16) << 8u16) | (args[1] as u16);
    let text = crate::frame::copy_range(args, 3, 3 + n);
    match utf8_text(text.as_slice()) {
        Some(t) => Ok((code, t)),
        None => Err(ErrorKind::ProtocolError),
    }
}

/// What an operation on a channel meets first: the server's close, if any.
pub open spec fn guard(server_closed: Option<ErrorKind>) -> Result<(), ErrorKind> {
    match server_closed {
        Some(e) => Err(e),
        None => Ok(()),
    }
}

fn push_shortstr(out: &mut Vec<u8>, s: &str) -> (ok: bool)
    ensures
        ok == (s.spec_bytes().len() <= 255),
        ok ==> final(out)@ == old(out)@ + shortstr(s.spec_bytes()),
        !ok ==> final(out)@ == old(out)@,
{
    let b = s.as_bytes();
    if b.len() > 255 {
        return false;
    }
    out.push(b.len() as u8);
    crate::frame::push_bytes(out, b);
    assert(final(out)@ =~= old(out)@ + shortstr(s.spec_bytes()));
    true
}

/// `channel.close` for a graceful close: code 200, text "OK".
pub fn channel_close() -> (r: Method)
    ensures
        r.class_id == CLASS_CHANNEL,
        r.method_id == METHOD_CHANNEL_CLOSE,
        r.args@ == close_args(REPLY_SUCCESS, seq![79u8, 75u8], 0, 0),
{
    let mut args: Vec<u8> = Vec::new();
    push_be16(&mut args, REPLY_SUCCESS);
    args.push(2);
    args.push(79);
    args.push(75);
    push_be16(&mut args, 0);
    push_be16(&mut args, 0);
    assert(args@ =~= close_args(REPLY_SUCCESS, seq![79u8, 75u8], 0, 0));
    Method { class_id: CLASS_CHANNEL, method_id: METHOD_CHANNEL_CLOSE, args }
}

pub const METHOD_CHANNEL_CLOSE_OK: u16 = 41;

/// What the I/O loop hands back to a handle that awaits a reply.
pub enum Reply {
    /// A method on the channel.
    Method(Method),
    /// `basic.consume-ok`, with the tag of the registered consumer.
    ConsumeOk(String),
}

/// The reply to an RPC that awaits method `method_id` of class `class_id`:
/// that method, or `FrameUnexpected` for any other reply.
pub fn expect_method(reply: Reply, class_id: u16, method_id: u16) -> (r: Result<Method, ErrorKind>)
    ensures
        match reply {
            Reply::Method(m) => if m.class_id == class_id && m.method_id == method_id {
                r == Ok::<Method, ErrorKind>(m)
            } else {
                r == Err::<Method, ErrorKind>(ErrorKind::FrameUnexpected)
            },
            Reply::ConsumeOk(_) => r == Err::<Method, ErrorKind>(ErrorKind::FrameUnexpected),
        },
{
    match reply {
        Reply::Method(m) => {
            if m.class_id == class_id && m.method_id == method_id {
                Ok(m)
            } else {
                Err(ErrorKind::FrameUnexpected)
            }
        },
        Reply::ConsumeOk(_) => Err(ErrorKind::FrameUnexpected),
    }
}

/// The reply to `basic.consume`: the consumer tag, or `FrameUnexpected`
/// where a plain method came back.
pub fn expect_consume_ok(reply: Reply) -> (r: Result<String, ErrorKind>)
    ensures
        match reply {
            Reply::ConsumeOk(tag) => r == Ok::<String, ErrorKind>(tag),
            Reply::Method(_) => r == Err::<String, ErrorKind>(ErrorKind::FrameUnexpected),
        },
{
    match reply {
        Reply::ConsumeOk(tag) => Ok(tag),
        Reply::Method(_) => Err(ErrorKind::FrameUnexpected),
    }
}

/// One channel as the application holds it.
pub struct Channel {
    id: u16,
    closed: bool,
    server_closed: Option<ErrorKind>,
    out: OutputBuffer,
}

impl Channel {
    pub closed spec fn id(&self) -> u16 {
        self.id
    }

    /// Whether the application has closed the channel.
    pub closed spec fn is_closed(&self) -> bool {
        self.closed
    }

    /// The error of the server's close, once it came.
    pub closed spec fn server_closed(&self) -> Option<ErrorKind> {
        self.server_closed
    }

    /// The bytes staged for the I/O loop.
    pub closed spec fn staged(&self) -> Seq<u8> {
        self.out@
    }

    pub closed spec fn frame_max(&self) -> u32 {
        self.out.frame_max()
    }

    pub closed spec fn wf(&self) -> bool {
        self.out.wf()
    }

    /// The largest body fragment one frame carries.
    pub open spec fn chunk(&self) -> nat {
        (self.frame_max() - FRAME_OVERHEAD) as nat
    }

    /// Whether nothing but what the staged bytes show has changed.
    pub open spec fn same_but_staged(&self, other: &Channel) -> bool {
        &&& self.id() == other.id()
        &&& self.is_closed() == other.is_closed()
        &&& self.server_closed() == other.server_closed()
        &&& self.frame_max() == other.frame_max()
        &&& self.wf() == other.wf()
    }

    pub fn new(id: u16, frame_max: u32) -> (r: Channel)
        requires
            frame_max >= MIN_FRAME_MAX,
        ensures
            r.wf(),
            r.id() == id,
            !r.is_closed(),
            r.server_closed() is None,
            r.staged() == Seq::<u8>::empty(),
            r.frame_max() == frame_max,
    {
        Channel { id, closed: false, server_closed: None, out: OutputBuffer::empty(frame_max) }
    }

    pub fn channel_id(&self) -> (r: u16)
        ensures
            r == self.id(),
    {
        self.id
    }

    /// Fails with the server's close, if it came.
    pub fn check_server_closed(&self) -> (r: Result<(), ErrorKind>)
        ensures
            r == guard(self.server_closed()),
    {
        match &self.server_closed {
            Some(e) => Err(clone_error(e)),
            None => Ok(()),
        }
    }

    /// Records that the server closed the channel. The first close is kept:
    /// once set, it is never revised.
    pub fn set_server_closed(&mut self, reply_code: u16, reply_text: String)
        ensures
            final(self).server_closed() == (match old(self).server_closed() {
                Some(e) => Some(e),
                None => Some(ErrorKind::ServerClosedChannel(old(self).id(), reply_code, reply_text)),
            }),
            final(self).id() == old(self).id(),
            final(self).is_closed() == old(self).is_closed(),
            final(self).staged() == old(self).staged(),
            final(self).frame_max() == old(self).frame_max(),
            final(self).wf() == old(self).wf(),
    {
        if self.server_closed.is_none() {
            self.server_closed = Some(ErrorKind::ServerClosedChannel(self.id, reply_code, reply_text));
        }
    }

    /// Takes the staged bytes for the I/O loop.
    pub fn take_output(&mut self) -> (r: Vec<u8>)
        ensures
            r@ == old(self).staged(),
            final(self).staged() == Seq::<u8>::empty(),
            final(self).same_but_staged(old(self)),
    {
        self.out.drain_into_new_buf().into_bytes()
    }

    /// Stages a method for which no reply is awaited.
    pub fn call_nowait(&mut self, method: Method) -> (r: Result<(), ErrorKind>)
        ensures
            final(self).same_but_staged(old(self)),
            ({
                let f = FrameModel::Method(old(self).id(), method.class_id, method.method_id, method.args@);
                if guard(old(self).server_closed()) is Err {
                    r == guard(old(self).server_closed()) && final(self).staged() == old(self).staged()
                } else if !known_method(method.class_id, method.method_id) {
                    r == Err::<(), ErrorKind>(ErrorKind::UnknownMethod) && final(self).staged() == old(self).staged()
                } else if frame_bytes(f).len() > old(self).frame_max() {
                    r == Err::<(), ErrorKind>(ErrorKind::FrameTooLarge) && final(self).staged() == old(self).staged()
                } else {
                    r is Ok && final(self).staged() == old(self).staged() + frame_bytes(f)
                }
            }),
    {
        match self.check_server_closed() {
            Err(e) => Err(e),
            Ok(()) => self.out.push_method(self.id, method),
        }
    }

    /// Stages the header and body frames of a content.
    pub fn send_content(&mut self, content: &[u8], class_id: u16, properties: Vec<u8>) -> (r: Result<
        (),
        ErrorKind,
    >)
        requires
            old(self).wf(),
        ensures
            final(self).same_but_staged(old(self)),
            ({
                let h = FrameModel::Header(old(self).id(), class_id, content@.len() as u64, properties@);
                if guard(old(self).server_closed()) is Err {
                    r == guard(old(self).server_closed()) && final(self).staged() == old(self).staged()
                } else if frame_bytes(h).len() > old(self).frame_max() {
                    r == Err::<(), ErrorKind>(ErrorKind::FrameTooLarge) && final(self).staged() == old(self).staged()
                } else {
                    r is Ok && final(self).staged() == old(self).staged() + frame_bytes(h) + body_frames(
                        old(self).id(),
                        content@,
                        old(self).chunk(),
                    )
                }
            }),
    {
        match self.check_server_closed() {
            Err(e) => Err(e),
            Ok(()) => {
                match self.out.push_content_header(self.id, class_id, content.len(), properties) {
                    Err(e) => Err(e),
                    Ok(()) => {
                        self.out.push_content_body(self.id, content);
                        Ok(())
                    },
                }
            },
        }
    }

    /// Stages `basic.publish` and its content: a method frame, a header
    /// frame and the body frames, all or nothing. An exchange or routing key
    /// longer than 255 bytes cannot be encoded (`ProtocolError`); properties
    /// too large for one header frame give `FrameTooLarge`.
    pub fn basic_publish(
        &mut self,
        content: &[u8],
        exchange: &str,
        routing_key: &str,
        mandatory: bool,
        immediate: bool,
        properties: Vec<u8>,
    ) -> (r: Result<(), ErrorKind>)
        requires
            old(self).wf(),
        ensures
            final(self).same_but_staged(old(self)),
            ({
                let id = old(self).id();
                let m = FrameModel::Method(
                    id,
                    CLASS_BASIC,
                    METHOD_BASIC_PUBLISH,
                    publish_args(exchange.spec_bytes(), routing_key.spec_bytes(), mandatory, immediate),
                );
                let h = FrameModel::Header(id, CLASS_BASIC, content@.len() as u64, properties@);
                if guard(old(self).server_closed()) is Err {
                    r == guard(old(self).server_closed()) && final(self).staged() == old(self).staged()
                } else if exchange.spec_bytes().len() > 255 || routing_key.spec_bytes().len() > 255 {
                    r == Err::<(), ErrorKind>(ErrorKind::ProtocolError) && final(self).staged() == old(self).staged()
                } else if frame_bytes(h).len() > old(self).frame_max() {
                    r == Err::<(), ErrorKind>(ErrorKind::FrameTooLarge) && final(self).staged() == old(self).staged()
                } else {
                    r is Ok && final(self).staged() == old(self).staged() + frame_bytes(m) + frame_bytes(h)
                        + body_frames(id, content@, old(self).chunk())
                }
            }),
    {
        if let Err(e) = self.check_server_closed() {
            return Err(e);
        }
        let mut args: Vec<u8> = Vec::new();
        push_be16(&mut args, 0);
        if !push_shortstr(&mut args, exchange) || !push_shortstr(&mut args, routing_key) {
            return Err(ErrorKind::ProtocolError);
        }
        let flags: u8 = (if mandatory { 1u8 } else { 0u8 }) | (if immediate { 2u8 } else { 0u8 });
        args.push(flags);
        assert(args@ =~= publish_args(exchange.spec_bytes(), routing_key.spec_bytes(), mandatory, immediate));
        if properties.len() > self.out.max_frame_size() as usize - 20 {
            return Err(ErrorKind::FrameTooLarge);
        }
        assert(args@.len() <= 4 + 2 + 256 + 256 + 1);
        let method = Method { class_id: CLASS_BASIC, method_id: METHOD_BASIC_PUBLISH, args };
        let r = self.out.push_method(self.id, method);
        assert(r is Ok);
        self.send_content(content, CLASS_BASIC, properties)
    }

    /// Closes the channel from this side: stages `channel.close` once; a
    /// second close stages nothing. After a close by the server, fails with
    /// that close's error.
    pub fn close(&mut self) -> (r: Result<(), ErrorKind>)
        requires
            old(self).wf(),
        ensures
            final(self).id() == old(self).id(),
            final(self).server_closed() == old(self).server_closed(),
            final(self).frame_max() == old(self).frame_max(),
            final(self).wf() == old(self).wf(),
            if guard(old(self).server_closed()) is Err {
                r == guard(old(self).server_closed()) && final(self).staged() == old(self).staged()
                    && final(self).is_closed() == old(self).is_closed()
            } else if old(self).is_closed() {
                r is Ok && final(self).staged() == old(self).staged() && final(self).is_closed()
            } else {
                r is Ok && final(self).is_closed() && final(self).staged() == old(self).staged()
                    + frame_bytes(
                    FrameModel::Method(
                        old(self).id(),
                        CLASS_CHANNEL,
                        METHOD_CHANNEL_CLOSE,
                        close_args(REPLY_SUCCESS, seq![79u8, 75u8], 0, 0),
                    ),
                )
            },
    {
        if let Err(e) = self.check_server_closed() {
            return Err(e);
        }
        if self.closed {
            return Ok(());
        }
        self.closed = true;
        let r = self.out.push_method(self.id, channel_close());
        assert(r is Ok);
        Ok(())
    }
}

} // verus!
