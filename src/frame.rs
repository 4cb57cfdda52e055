//! Frames as they travel on the wire:
//! `type: u8, channel: u16, size: u32, payload: [size]u8, end: 0xCE`,
//! all integers big-endian.
use vstd::prelude::*;
use crate::error::ErrorKind;

verus! {

pub const FRAME_METHOD: u8 = 1;

pub const FRAME_HEADER: u8 = 2;

pub const FRAME_BODY: u8 = 3;

pub const FRAME_HEARTBEAT: u8 = 8;

pub const FRAME_END: u8 = 0xCE;

/// A method: class id, method id and the encoded arguments.
pub struct Method {
    pub class_id: u16,
    pub method_id: u16,
    pub args: Vec<u8>,
}

/// One frame of the protocol. Heartbeats travel on channel 0.
pub enum Frame {
    Method(u16, Method),
    /// Channel, class id, body size, encoded properties.
    Header(u16, u16, u64, Vec<u8>),
    Body(u16, Vec<u8>),
    Heartbeat,
}

/// What a frame holds, with byte strings as sequences.
pub enum FrameModel {
    /// Channel, class id, method id, encoded arguments.
    Method(u16, u16, u16, Seq<u8>),
    /// Channel, class id, body size, encoded properties.
    Header(u16, u16, u64, Seq<u8>),
    Body(u16, Seq<u8>),
    Heartbeat,
}

impl View for Frame {
    type V = FrameModel;

    open spec fn view(&self) -> FrameModel {
        match self {
            Frame::Method(ch, m) => FrameModel::Method(*ch, m.class_id, m.method_id, m.args@),
            Frame::Header(ch, class_id, size, props) => FrameModel::Header(
                *ch,
                *class_id,
                *size,
                props@,
            ),
            Frame::Body(ch, bytes) => FrameModel::Body(*ch, bytes@),
            Frame::Heartbeat => FrameModel::Heartbeat,
        }
    }
}

pub open spec fn be16(x: u16) -> Seq<u8> {
    seq![(x >> 8u16) as u8, x as u8]
}

pub open spec fn be32(x: u32) -> Seq<u8> {
    seq![(x >> 24u32) as u8, (x >> 16u32) as u8, (x >> 8u32) as u8, x as u8]
}

pub open spec fn be64(x: u64) -> Seq<u8> {
    be32((x >> 32u64) as u32) + be32(x as u32)
}

pub open spec fn dec16(s: Seq<u8>, i: int) -> u16 {
    ((s[i] as u16) << 8u16) | (s[i + 1] as u16)
}

pub open spec fn dec32(s: Seq<u8>, i: int) -> u32 {
    ((s[i] as u32) << 24u32) | ((s[i + 1] as u32) << 16u32) | ((s[i + 2] as u32) << 8u32) | (s[i
        + 3] as u32)
}

pub open spec fn dec64(s: Seq<u8>, i: int) -> u64 {
    ((dec32(s, i) as u64) << 32u64) | (dec32(s, i + 4) as u64)
}

pub open spec fn frame_type(f: FrameModel) -> u8 {
    match f {
        FrameModel::Method(..) => FRAME_METHOD,
        FrameModel::Header(..) => FRAME_HEADER,
        FrameModel::Body(..) => FRAME_BODY,
        FrameModel::Heartbeat => FRAME_HEARTBEAT,
    }
}

pub open spec fn frame_channel(f: FrameModel) -> u16 {
    match f {
        FrameModel::Method(ch, ..) => ch,
        FrameModel::Header(ch, ..) => ch,
        FrameModel::Body(ch, ..) => ch,
        FrameModel::Heartbeat => 0,
    }
}

/// The payload of a frame. A header's weight field is always zero.
pub open spec fn payload_of(f: FrameModel) -> Seq<u8> {
    match f {
        FrameModel::Method(_, class_id, method_id, args) => be16(class_id) + be16(method_id)
            + args,
        FrameModel::Header(_, class_id, size, props) => be16(class_id) + be16(0) + be64(size)
            + props,
        FrameModel::Body(_, bytes) => bytes,
        FrameModel::Heartbeat => Seq::empty(),
    }
}

/// The methods of AMQP 0.9.1, by class id and method id, with RabbitMQ's
/// `connection.blocked`, `connection.unblocked` and `basic.nack`.
pub open spec fn known_method(class_id: u16, method_id: u16) -> bool {
    if class_id == 10 {
        method_id == 10 || method_id == 11 || method_id == 20 || method_id == 21 || method_id
            == 30 || method_id == 31 || method_id == 40 || method_id == 41 || method_id == 50
            || method_id == 51 || method_id == 60 || method_id == 61
    } else if class_id == 20 {
        method_id == 10 || method_id == 11 || method_id == 20 || method_id == 21 || method_id
            == 40 || method_id == 41
    } else if class_id == 40 {
        method_id == 10 || method_id == 11 || method_id == 20 || method_id == 21 || method_id
            == 30 || method_id == 31 || method_id == 40 || method_id == 51
    } else if class_id == 50 {
        method_id == 10 || method_id == 11 || method_id == 20 || method_id == 21 || method_id
            == 30 || method_id == 31 || method_id == 40 || method_id == 41 || method_id == 50
            || method_id == 51
    } else if class_id == 60 {
        method_id == 10 || method_id == 11 || method_id == 20 || method_id == 21 || method_id
            == 30 || method_id == 31 || method_id == 40 || method_id == 50 || method_id == 60
            || method_id == 70 || method_id == 71 || method_id == 72 || method_id == 80
            || method_id == 90 || method_id == 100 || method_id == 110 || method_id == 111
            || method_id == 120
    } else if class_id == 85 || class_id == 90 {
        method_id == 10 || method_id == 11 || (class_id == 90 && (method_id == 20 || method_id
            == 21 || method_id == 30 || method_id == 31))
    } else {
        false
    }
}

/// Whether a frame can be parsed back: a method frame must name a known
/// method.
pub open spec fn frame_known(f: FrameModel) -> bool {
    match f {
        FrameModel::Method(_, class_id, method_id, _) => known_method(class_id, method_id),
        _ => true,
    }
}

/// The bytes of a frame on the wire.
pub open spec fn frame_bytes(f: FrameModel) -> Seq<u8> {
    let p = payload_of(f);
    seq![frame_type(f)] + be16(frame_channel(f)) + be32(p.len() as u32) + p + seq![FRAME_END]
}

/// The frame a payload of the given type and channel stands for, if any.
pub open spec fn decode_payload(ty: u8, ch: u16, p: Seq<u8>) -> Option<FrameModel> {
    if ty == FRAME_METHOD {
        if p.len() >= 4 {
            Some(FrameModel::Method(ch, dec16(p, 0), dec16(p, 2), p.subrange(4, p.len() as int)))
        } else {
            None
        }
    } else if ty == FRAME_HEADER {
        if p.len() >= 12 && dec16(p, 2) == 0 {
            Some(FrameModel::Header(ch, dec16(p, 0), dec64(p, 4), p.subrange(12, p.len() as int)))
        } else {
            None
        }
    } else if ty == FRAME_BODY {
        Some(FrameModel::Body(ch, p))
    } else if ty == FRAME_HEARTBEAT && ch == 0 && p.len() == 0 {
        Some(FrameModel::Heartbeat)
    } else {
        None
    }
}

/// What parsing the start of `s` gives: `Ok(None)` where more bytes are
/// needed, else the frame and the number of bytes it takes, or the error.
pub open spec fn parse_spec(s: Seq<u8>, frame_max: u32) -> Result<
    Option<(FrameModel, nat)>,
    ErrorKind,
> {
    if s.len() < 7 {
        Ok(None)
    } else {
        let size = dec32(s, 3) as int;
        if size > frame_max {
            Err(ErrorKind::FrameTooLarge)
        } else if s.len() < size + 8 {
            Ok(None)
        } else if s[7 + size] != FRAME_END {
            Err(ErrorKind::ProtocolError)
        } else {
            match decode_payload(s[0], dec16(s, 1), s.subrange(7, 7 + size)) {
                Some(f) => if frame_known(f) {
                    Ok(Some((f, (size + 8) as nat)))
                } else {
                    Err(ErrorKind::UnknownMethod)
                },
                None => Err(ErrorKind::ProtocolError),
            }
        }
    }
}

pub proof fn lemma_be16(x: u16)
    ensures
        dec16(be16(x), 0) == x,
{
    assert((((x >> 8u16) as u8 as u16) << 8u16) | (x as u8 as u16) == x) by (bit_vector);
}

proof fn lemma_be32(x: u32)
    ensures
        dec32(be32(x), 0) == x,
{
    assert((((x >> 24u32) as u8 as u32) << 24u32) | (((x >> 16u32) as u8 as u32) << 16u32) | (((x
        >> 8u32) as u8 as u32) << 8u32) | (x as u8 as u32) == x) by (bit_vector);
}

proof fn lemma_be64(x: u64)
    ensures
        dec64(be64(x), 0) == x,
{
    let s = be64(x);
    lemma_be32((x >> 32u64) as u32);
    lemma_be32(x as u32);
    assert(s.subrange(0, 4) =~= be32((x >> 32u64) as u32));
    assert(s.subrange(4, 8) =~= be32(x as u32));
    assert(dec32(s, 0) == dec32(s.subrange(0, 4), 0));
    assert(dec32(s, 4) == dec32(s.subrange(4, 8), 0));
    assert((((((x >> 32u64) as u32) as u64) << 32u64) | ((x as u32) as u64)) == x) by (bit_vector);
}

/// Parsing the bytes of a frame, whatever follows them, gives the frame back
/// and consumes exactly its bytes, provided its payload fits `frame_max`
/// and, for a method, the method is known.
pub proof fn lemma_frame_round_trip(f: FrameModel, rest: Seq<u8>, frame_max: u32)
    requires
        payload_of(f).len() <= frame_max,
        frame_known(f),
    ensures
        parse_spec(frame_bytes(f) + rest, frame_max) == Ok::<Option<(FrameModel, nat)>, ErrorKind>(
            Some((f, frame_bytes(f).len()))),
{
    let p = payload_of(f);
    let s = frame_bytes(f) + rest;
    let n = p.len() as int;
    assert(frame_bytes(f).len() == n + 8);
    assert(s.subrange(3, 7) =~= be32(n as u32));
    lemma_be32(n as u32);
    assert(dec32(s, 3) == dec32(s.subrange(3, 7), 0));
    assert(s.subrange(1, 3) =~= be16(frame_channel(f)));
    lemma_be16(frame_channel(f));
    assert(dec16(s, 1) == dec16(s.subrange(1, 3), 0));
    assert(s.subrange(7, 7 + n) =~= p);
    assert(s[7 + n] == FRAME_END);
    match f {
        FrameModel::Method(ch, c, m, args) => {
            lemma_be16(c);
            lemma_be16(m);
            assert(p.subrange(0, 2) =~= be16(c));
            assert(p.subrange(2, 4) =~= be16(m));
            assert(dec16(p, 0) == dec16(p.subrange(0, 2), 0));
            assert(dec16(p, 2) == dec16(p.subrange(2, 4), 0));
            assert(p.subrange(4, p.len() as int) =~= args);
        },
        FrameModel::Header(ch, c, size, props) => {
            lemma_be16(c);
            lemma_be16(0);
            lemma_be64(size);
            assert(p.subrange(0, 2) =~= be16(c));
            assert(p.subrange(2, 4) =~= be16(0));
            assert(p.subrange(4, 12) =~= be64(size));
            assert(dec16(p, 0) == dec16(p.subrange(0, 2), 0));
            assert(dec16(p, 2) == dec16(p.subrange(2, 4), 0));
            assert(dec64(p, 4) == dec64(p.subrange(4, 12), 0));
            assert(dec32(p, 4) == dec32(p.subrange(4, 12), 0));
            assert(dec32(p, 8) == dec32(p.subrange(4, 12), 4));
            assert(p.subrange(12, p.len() as int) =~= props);
        },
        FrameModel::Body(ch, bytes) => {},
        FrameModel::Heartbeat => {},
    }
}

/// The bytes of several frames, one after another.
pub open spec fn frames_bytes(fs: Seq<FrameModel>) -> Seq<u8>
    decreases fs.len(),
{
    if fs.len() == 0 {
        Seq::empty()
    } else {
        frames_bytes(fs.drop_last()) + frame_bytes(fs.last())
    }
}

pub proof fn lemma_frames_bytes_append(a: Seq<FrameModel>, b: Seq<FrameModel>)
    ensures
        frames_bytes(a + b) == frames_bytes(a) + frames_bytes(b),
    decreases b.len(),
{
    if b.len() == 0 {
        assert(a + b =~= a);
        assert(frames_bytes(a) + frames_bytes(b) =~= frames_bytes(a));
    } else {
        lemma_frames_bytes_append(a, b.drop_last());
        assert((a + b).drop_last() =~= a + b.drop_last());
        assert(frames_bytes(a) + frames_bytes(b) =~= frames_bytes(a) + frames_bytes(b.drop_last())
            + frame_bytes(b.last()));
    }
}

/// Writing one more frame after others extends their bytes by its own:
/// N method frames staged one call after another are `frames_bytes` of the
/// N frames, in call order.
pub proof fn lemma_frames_bytes_push(fs: Seq<FrameModel>, f: FrameModel)
    ensures
        frames_bytes(fs.push(f)) == frames_bytes(fs) + frame_bytes(f),
{
    assert(fs.push(f).drop_last() =~= fs);
}

/// Frames written one after another are parsed back in the same order:
/// parsing from where the first `i` frames end gives frame `i`.
pub proof fn lemma_frames_in_order(fs: Seq<FrameModel>, frame_max: u32, i: int)
    requires
        0 <= i < fs.len(),
        forall|j: int| 0 <= j < fs.len() ==> #[trigger] payload_of(fs[j]).len() <= frame_max,
        forall|j: int| 0 <= j < fs.len() ==> #[trigger] frame_known(fs[j]),
    ensures
        parse_spec(frames_bytes(fs).skip(frames_bytes(fs.take(i)).len() as int), frame_max) == Ok::<
            Option<(FrameModel, nat)>,
            ErrorKind,
        >(Some((fs[i], frame_bytes(fs[i]).len()))),
{
    let a = fs.take(i);
    let rest = fs.skip(i + 1);
    assert(fs =~= a + seq![fs[i]] + rest);
    lemma_frames_bytes_append(a + seq![fs[i]], rest);
    lemma_frames_bytes_append(a, seq![fs[i]]);
    assert(seq![fs[i]].drop_last() =~= Seq::<FrameModel>::empty());
    assert(frames_bytes(Seq::<FrameModel>::empty()) == Seq::<u8>::empty());
    assert(seq![fs[i]].last() == fs[i]);
    assert(frames_bytes(seq![fs[i]]) =~= frame_bytes(fs[i]));
    let all = frames_bytes(fs);
    assert(all == frames_bytes(a) + frame_bytes(fs[i]) + frames_bytes(rest));
    assert(all.skip(frames_bytes(a).len() as int) =~= frame_bytes(fs[i]) + frames_bytes(rest));
    lemma_frame_round_trip(fs[i], frames_bytes(rest), frame_max);
}

pub fn is_known_method(class_id: u16, method_id: u16) -> (r: bool)
    ensures
        r == known_method(class_id, method_id),
{
    if class_id == 10 {
        method_id == 10 || method_id == 11 || method_id == 20 || method_id == 21 || method_id
            == 30 || method_id == 31 || method_id == 40 || method_id == 41 || method_id == 50
            || method_id == 51 || method_id == 60 || method_id == 61
    } else if class_id == 20 {
        method_id == 10 || method_id == 11 || method_id == 20 || method_id == 21 || method_id
            == 40 || method_id == 41
    } else if class_id == 40 {
        method_id == 10 || method_id == 11 || method_id == 20 || method_id == 21 || method_id
            == 30 || method_id == 31 || method_id == 40 || method_id == 51
    } else if class_id == 50 {
        method_id == 10 || method_id == 11 || method_id == 20 || method_id == 21 || method_id
            == 30 || method_id == 31 || method_id == 40 || method_id == 41 || method_id == 50
            || method_id == 51
    } else if class_id == 60 {
        method_id == 10 || method_id == 11 || method_id == 20 || method_id == 21 || method_id
            == 30 || method_id == 31 || method_id == 40 || method_id == 50 || method_id == 60
            || method_id == 70 || method_id == 71 || method_id == 72 || method_id == 80
            || method_id == 90 || method_id == 100 || method_id == 110 || method_id == 111
            || method_id == 120
    } else if class_id == 85 || class_id == 90 {
        method_id == 10 || method_id == 11 || (class_id == 90 && (method_id == 20 || method_id
            == 21 || method_id == 30 || method_id == 31))
    } else {
        false
    }
}

/// The parse result with frames replaced by their models.
pub open spec fn parsed_view(r: Result<Option<(Frame, usize)>, ErrorKind>) -> Result<
    Option<(FrameModel, nat)>,
    ErrorKind,
> {
    match r {
        Ok(Some((f, n))) => Ok(Some((f@, n as nat))),
        Ok(None) => Ok(None),
        Err(e) => Err(e),
    }
}

pub fn push_be16(out: &mut Vec<u8>, x: u16)
    ensures
        final(out)@ == old(out)@ + be16(x),
{
    out.push((x >> 8u16) as u8);
    out.push(x as u8);
    assert(final(out)@ =~= old(out)@ + be16(x));
}

pub fn push_be32(out: &mut Vec<u8>, x: u32)
    ensures
        final(out)@ == old(out)@ + be32(x),
{
    out.push((x >> 24u32) as u8);
    out.push((x >> 16u32) as u8);
    out.push((x >> 8u32) as u8);
    out.push(x as u8);
    assert(final(out)@ =~= old(out)@ + be32(x));
}

pub fn push_be64(out: &mut Vec<u8>, x: u64)
    ensures
        final(out)@ == old(out)@ + be64(x),
{
    push_be32(out, (x >> 32u64) as u32);
    push_be32(out, x as u32);
    assert(final(out)@ =~= old(out)@ + be64(x));
}

/// Appends the bytes of `b` to `out`.
pub fn push_bytes(out: &mut Vec<u8>, b: &[u8])
    ensures
        final(out)@ == old(out)@ + b@,
{
    let ghost start = out@;
    let mut i: usize = 0;
    while i < b.len()
        invariant
            i <= b@.len(),
            out@ == start + b@.subrange(0, i as int),
        decreases b@.len() - i,
    {
        out.push(b[i]);
        i = i + 1;
        assert(out@ =~= start + b@.subrange(0, i as int));
    }
    assert(b@.subrange(0, b@.len() as int) =~= b@);
}

/// A new vector holding `buf[lo..hi]`.
pub fn copy_range(buf: &[u8], lo: usize, hi: usize) -> (r: Vec<u8>)
    requires
        lo <= hi <= buf@.len(),
    ensures
        r@ == buf@.subrange(lo as int, hi as int),
{
    let mut r: Vec<u8> = Vec::new();
    let mut i: usize = lo;
    while i < hi
        invariant
            lo <= i <= hi <= buf@.len(),
            r@ == buf@.subrange(lo as int, i as int),
        decreases hi - i,
    {
        r.push(buf[i]);
        i = i + 1;
        assert(r@ =~= buf@.subrange(lo as int, i as int));
    }
    r
}

pub fn read16(buf: &[u8], i: usize) -> (r: u16)
    requires
        i + 2 <= buf@.len(),
    ensures
        r == dec16(buf@, i as int),
{
    ((buf[i] as u16) << 8u16) | (buf[i + 1] as u16)
}

pub fn read32(buf: &[u8], i: usize) -> (r: u32)
    requires
        i + 4 <= buf@.len(),
    ensures
        r == dec32(buf@, i as int),
{
    ((buf[i] as u32) << 24u32) | ((buf[i + 1] as u32) << 16u32) | ((buf[i + 2] as u32) << 8u32) | (
    buf[i + 3] as u32)
}

pub fn read64(buf: &[u8], i: usize) -> (r: u64)
    requires
        i + 8 <= buf@.len(),
        i + 8 <= usize::MAX,
    ensures
        r == dec64(buf@, i as int),
{
    ((read32(buf, i) as u64) << 32u64) | (read32(buf, i + 4) as u64)
}

/// The length of a frame's payload, or `None` where it exceeds `frame_max`.
pub fn payload_len(f: &Frame, frame_max: u32) -> (r: Option<usize>)
    ensures
        r == (if payload_of(f@).len() <= frame_max {
            Some(payload_of(f@).len() as usize)
        } else {
            None::<usize>
        }),
{
    let fm = frame_max as usize;
    match f {
        Frame::Method(_, m) => {
            if m.args.len() <= fm && fm - m.args.len() >= 4 {
                Some(m.args.len() + 4)
            } else {
                None
            }
        },
        Frame::Header(_, _, _, props) => {
            if props.len() <= fm && fm - props.len() >= 12 {
                Some(props.len() + 12)
            } else {
                None
            }
        },
        Frame::Body(_, bytes) => {
            if bytes.len() <= fm {
                Some(bytes.len())
            } else {
                None
            }
        },
        Frame::Heartbeat => Some(0),
    }
}

/// Appends the bytes of `f` to `out`. A method that is not known is
/// refused with `UnknownMethod`, and a frame whose bytes, head and end
/// marker included, exceed `frame_max` with `FrameTooLarge`; then nothing is
/// written.
pub fn write_frame(out: &mut Vec<u8>, f: &Frame, frame_max: u32) -> (r: Result<(), ErrorKind>)
    ensures
        !frame_known(f@) ==> r == Err::<(), ErrorKind>(ErrorKind::UnknownMethod) && final(out)@
            == old(out)@,
        frame_known(f@) && frame_bytes(f@).len() > frame_max ==> r == Err::<(), ErrorKind>(
            ErrorKind::FrameTooLarge,
        ) && final(out)@ == old(out)@,
        frame_known(f@) && frame_bytes(f@).len() <= frame_max ==> r is Ok && final(out)@ == old(out)@ + frame_bytes(f@),
{
    if let Frame::Method(_, m) = f {
        if !is_known_method(m.class_id, m.method_id) {
            return Err(ErrorKind::UnknownMethod);
        }
    }
    let len = match payload_len(f, frame_max) {
        Some(len) => len,
        None => {
            return Err(ErrorKind::FrameTooLarge);
        },
    };
    if frame_max < 8 || len > frame_max as usize - 8 {
        return Err(ErrorKind::FrameTooLarge);
    }
    let ghost start = out@;
    let ghost p = payload_of(f@);
    match f {
        Frame::Method(ch, m) => {
            out.push(FRAME_METHOD);
            push_be16(out, *ch);
            push_be32(out, len as u32);
            push_be16(out, m.class_id);
            push_be16(out, m.method_id);
            push_bytes(out, m.args.as_slice());
        },
        Frame::Header(ch, class_id, size, props) => {
            out.push(FRAME_HEADER);
            push_be16(out, *ch);
            push_be32(out, len as u32);
            push_be16(out, *class_id);
            push_be16(out, 0);
            push_be64(out, *size);
            push_bytes(out, props.as_slice());
        },
        Frame::Body(ch, bytes) => {
            out.push(FRAME_BODY);
            push_be16(out, *ch);
            push_be32(out, len as u32);
            push_bytes(out, bytes.as_slice());
        },
        Frame::Heartbeat => {
            out.push(FRAME_HEARTBEAT);
            push_be16(out, 0);
            push_be32(out, 0);
        },
    }
    out.push(FRAME_END);
    assert(out@ =~= start + frame_bytes(f@));
    Ok(())
}

/// The bytes of `f` as a new vector, refused as `write_frame` refuses.
pub fn serialize(f: &Frame, frame_max: u32) -> (r: Result<Vec<u8>, ErrorKind>)
    ensures
        !frame_known(f@) ==> r == Err::<Vec<u8>, ErrorKind>(ErrorKind::UnknownMethod),
        frame_known(f@) && frame_bytes(f@).len() > frame_max ==> r == Err::<Vec<u8>, ErrorKind>(
            ErrorKind::FrameTooLarge,
        ),
        frame_known(f@) && frame_bytes(f@).len() <= frame_max ==> r is Ok && r->Ok_0@
            == frame_bytes(f@),
{
    let mut out: Vec<u8> = Vec::new();
    match write_frame(&mut out, f, frame_max) {
        Ok(()) => {
            assert(out@ =~= frame_bytes(f@));
            Ok(out)
        },
        Err(e) => Err(e),
    }
}

/// Parses the frame at the start of `buf`. `Ok(None)` means that more bytes
/// are needed; `Ok(Some((f, n)))` gives the frame and its length in bytes.
pub fn parse_frame(buf: &[u8], frame_max: u32) -> (r: Result<Option<(Frame, usize)>, ErrorKind>)
    ensures
        parsed_view(r) == parse_spec(buf@, frame_max),
{
    if buf.len() < 7 {
        return Ok(None);
    }
    let size = read32(buf, 3);
    if size > frame_max {
        return Err(ErrorKind::FrameTooLarge);
    }
    let size = size as usize;
    if buf.len() < 8 || buf.len() - 8 < size {
        return Ok(None);
    }
    let end = 7 + size;
    if buf[end] != FRAME_END {
        return Err(ErrorKind::ProtocolError);
    }
    let ty = buf[0];
    let ch = read16(buf, 1);
    let ghost p = buf@.subrange(7, end as int);
    let frame = if ty == FRAME_METHOD {
        if size >= 4 {
            let class_id = read16(buf, 7);
            let method_id = read16(buf, 9);
            assert(dec16(p, 0) == class_id);
            assert(dec16(p, 2) == method_id);
            if !is_known_method(class_id, method_id) {
                return Err(ErrorKind::UnknownMethod);
            }
            let args = copy_range(buf, 11, end);
            assert(args@ =~= p.subrange(4, p.len() as int));
            Frame::Method(ch, Method { class_id, method_id, args })
        } else {
            return Err(ErrorKind::ProtocolError);
        }
    } else if ty == FRAME_HEADER {
        if size >= 12 && read16(buf, 9) == 0 {
            let class_id = read16(buf, 7);
            let body_size = read64(buf, 11);
            assert(dec16(p, 0) == class_id);
            assert(dec16(p, 2) == dec16(buf@, 9));
            assert(dec32(p, 4) == dec32(buf@, 11));
            assert(dec32(p, 8) == dec32(buf@, 15));
            assert(dec64(p, 4) == body_size);
            let props = copy_range(buf, 19, end);
            assert(props@ =~= p.subrange(12, p.len() as int));
            Frame::Header(ch, class_id, body_size, props)
        } else {
            assert(size >= 12 ==> dec16(p, 2) == dec16(buf@, 9));
            return Err(ErrorKind::ProtocolError);
        }
    } else if ty == FRAME_BODY {
        Frame::Body(ch, copy_range(buf, 7, end))
    } else if ty == FRAME_HEARTBEAT && ch == 0 && size == 0 {
        Frame::Heartbeat
    } else {
        return Err(ErrorKind::ProtocolError);
    };
    Ok(Some((frame, end + 1)))
}

} // verus!
