//! The staging area into which outgoing frames are encoded.
use vstd::prelude::*;
use crate::error::ErrorKind;
use crate::frame::{
    Frame, FrameModel, Method, frame_bytes, frame_known, frames_bytes, known_method,
    lemma_frames_bytes_append, payload_of, write_frame,
};

verus! {

/// The smallest `frame_max` a peer may negotiate.
pub const MIN_FRAME_MAX: u32 = 4096;

/// The bytes of a frame's head and end marker.
pub const FRAME_OVERHEAD: u32 = 8;

pub open spec fn min(a: int, b: int) -> int {
    if a < b {
        a
    } else {
        b
    }
}

/// The body frames that carry `c[i..]` on channel `ch`, each holding at
/// most `chunk` bytes.
pub open spec fn body_frames_from(ch: u16, c: Seq<u8>, chunk: nat, i: int) -> Seq<u8>
    decreases c.len() - i,
{
    if chunk == 0 || i >= c.len() || i < 0 {
        Seq::empty()
    } else {
        let j = min(i + chunk, c.len() as int);
        frame_bytes(FrameModel::Body(ch, c.subrange(i, j))) + body_frames_from(ch, c, chunk, j)
    }
}

/// The body frames that carry all of `c`.
pub open spec fn body_frames(ch: u16, c: Seq<u8>, chunk: nat) -> Seq<u8> {
    body_frames_from(ch, c, chunk, 0)
}

/// The body frames that carry `c[i..]`, as frames.
pub open spec fn body_chunks(ch: u16, c: Seq<u8>, chunk: nat, i: int) -> Seq<FrameModel>
    decreases c.len() - i,
{
    if chunk == 0 || i >= c.len() || i < 0 {
        Seq::empty()
    } else {
        let j = min(i + chunk, c.len() as int);
        seq![FrameModel::Body(ch, c.subrange(i, j))] + body_chunks(ch, c, chunk, j)
    }
}

/// The payloads of frames, joined in order.
pub open spec fn payloads(fs: Seq<FrameModel>) -> Seq<u8>
    decreases fs.len(),
{
    if fs.len() == 0 {
        Seq::empty()
    } else {
        payload_of(fs[0]) + payloads(fs.skip(1))
    }
}

/// The bytes that carry a content are a sequence of body frames on its
/// channel, each fitting `chunk + 8` bytes, whose payloads joined give the
/// content back; so they parse back frame by frame, in order.
pub proof fn lemma_body_frames_split(ch: u16, c: Seq<u8>, chunk: nat, i: int)
    requires
        chunk > 0,
        0 <= i <= c.len(),
    ensures
        body_frames_from(ch, c, chunk, i) == frames_bytes(body_chunks(ch, c, chunk, i)),
        payloads(body_chunks(ch, c, chunk, i)) == c.subrange(i, c.len() as int),
        forall|k: int|
            0 <= k < body_chunks(ch, c, chunk, i).len() ==> {
                let f = #[trigger] body_chunks(ch, c, chunk, i)[k];
                &&& f is Body
                &&& frame_known(f)
                &&& frame_bytes(f).len() <= chunk + 8
            },
    decreases c.len() - i,
{
    if i >= c.len() {
        assert(frames_bytes(Seq::<FrameModel>::empty()) == Seq::<u8>::empty());
        assert(c.subrange(i, c.len() as int) =~= Seq::<u8>::empty());
    } else {
        let j = min(i + chunk, c.len() as int);
        let head = seq![FrameModel::Body(ch, c.subrange(i, j))];
        let rest = body_chunks(ch, c, chunk, j);
        lemma_body_frames_split(ch, c, chunk, j);
        lemma_frames_bytes_append(head, rest);
        assert(head.drop_last() =~= Seq::<FrameModel>::empty());
        assert(frames_bytes(Seq::<FrameModel>::empty()) == Seq::<u8>::empty());
        assert(frames_bytes(head) =~= frame_bytes(head[0]));
        let all = body_chunks(ch, c, chunk, i);
        assert(all == head + rest);
        assert(all.skip(1) =~= rest);
        assert(all[0] == head[0]);
        assert(c.subrange(i, c.len() as int) =~= c.subrange(i, j) + c.subrange(j, c.len() as int));
        assert forall|k: int| 0 <= k < all.len() implies {
            let f = #[trigger] all[k];
            &&& f is Body
            &&& frame_known(f)
            &&& frame_bytes(f).len() <= chunk + 8
        } by {
            if k > 0 {
                assert(all[k] == rest[k - 1]);
            }
        }
    }
}

/// Outgoing bytes, and the negotiated maximum frame size.
pub struct OutputBuffer {
    frame_max: u32,
    buf: Vec<u8>,
}

impl View for OutputBuffer {
    type V = Seq<u8>;

    closed spec fn view(&self) -> Seq<u8> {
        self.buf@
    }
}

impl OutputBuffer {
    pub closed spec fn frame_max(&self) -> u32 {
        self.frame_max
    }

    /// The largest body fragment one frame carries.
    pub open spec fn chunk(&self) -> nat {
        (self.frame_max() - FRAME_OVERHEAD) as nat
    }

    pub open spec fn wf(&self) -> bool {
        self.frame_max() >= MIN_FRAME_MAX
    }

    pub fn empty(frame_max: u32) -> (r: OutputBuffer)
        requires
            frame_max >= MIN_FRAME_MAX,
        ensures
            r.wf(),
            r@ == Seq::<u8>::empty(),
            r.frame_max() == frame_max,
    {
        OutputBuffer { frame_max, buf: Vec::new() }
    }

    /// The negotiated maximum frame size.
    pub fn max_frame_size(&self) -> (r: u32)
        ensures
            r == self.frame_max(),
    {
        self.frame_max
    }

    pub fn is_empty(&self) -> (r: bool)
        ensures
            r == (self@.len() == 0),
    {
        self.buf.len() == 0
    }

    pub fn as_bytes(&self) -> (r: &[u8])
        ensures
            r@ == self@,
    {
        self.buf.as_slice()
    }

    /// Appends one method frame; a method that is not known, or a frame
    /// larger than `frame_max`, is refused and nothing is written.
    pub fn push_method(&mut self, channel: u16, method: Method) -> (r: Result<(), ErrorKind>)
        ensures
            final(self).frame_max() == old(self).frame_max(),
            ({
                let f = FrameModel::Method(channel, method.class_id, method.method_id, method.args@);
                &&& !known_method(method.class_id, method.method_id) ==> r == Err::<(), ErrorKind>(
                    ErrorKind::UnknownMethod,
                ) && final(self)@ == old(self)@
                &&& known_method(method.class_id, method.method_id) && frame_bytes(f).len() <= old(self).frame_max() ==> r is Ok && final(self)@ == old(self)@ + frame_bytes(f)
                &&& known_method(method.class_id, method.method_id) && frame_bytes(f).len() > old(self).frame_max() ==> r == Err::<(), ErrorKind>(ErrorKind::FrameTooLarge) && final(self)@ == old(self)@
            }),
    {
        let f = Frame::Method(channel, method);
        write_frame(&mut self.buf, &f, self.frame_max)
    }

    /// Appends the header of a content of `len` bytes.
    pub fn push_content_header(
        &mut self,
        channel: u16,
        class_id: u16,
        len: usize,
        properties: Vec<u8>,
    ) -> (r: Result<(), ErrorKind>)
        ensures
            final(self).frame_max() == old(self).frame_max(),
            ({
                let f = FrameModel::Header(channel, class_id, len as u64, properties@);
                &&& frame_bytes(f).len() <= old(self).frame_max() ==> r is Ok && final(self)@ == old(self)@ + frame_bytes(f)
                &&& frame_bytes(f).len() > old(self).frame_max() ==> r == Err::<(), ErrorKind>(
                    ErrorKind::FrameTooLarge,
                ) && final(self)@ == old(self)@
            }),
    {
        let f = Frame::Header(channel, class_id, len as u64, properties);
        write_frame(&mut self.buf, &f, self.frame_max)
    }

    /// Appends `content` as body frames of at most `frame_max - 8` bytes
    /// each; empty content gives no frame.
    pub fn push_content_body(&mut self, channel: u16, content: &[u8])
        requires
            old(self).wf(),
        ensures
            final(self).wf(),
            final(self).frame_max() == old(self).frame_max(),
            final(self)@ == old(self)@ + body_frames(channel, content@, old(self).chunk()),
    {
        let chunk = (self.frame_max - FRAME_OVERHEAD) as usize;
        let ghost start = self.buf@;
        let ghost ch = chunk as nat;
        let mut i: usize = 0;
        while i < content.len()
            invariant
                i <= content@.len(),
                chunk == self.chunk(),
                ch == chunk as nat,
                chunk > 0,
                self.wf(),
                self.frame_max() == old(self).frame_max(),
                start + body_frames(channel, content@, ch) == self@ + body_frames_from(
                    channel,
                    content@,
                    ch,
                    i as int,
                ),
            decreases content@.len() - i,
        {
            let j = if content.len() - i < chunk {
                content.len()
            } else {
                i + chunk
            };
            let piece = crate::frame::copy_range(content, i, j);
            let f = Frame::Body(channel, piece);
            let ghost before = self.buf@;
            let r = write_frame(&mut self.buf, &f, self.frame_max);
            assert(r is Ok);
            assert(j as int == min(i as int + ch as int, content@.len() as int));
            assert(before + body_frames_from(channel, content@, ch, i as int) =~= self.buf@
                + body_frames_from(channel, content@, ch, j as int));
            i = j;
        }
        assert(body_frames_from(channel, content@, ch, i as int) =~= Seq::<u8>::empty());
        assert(self@ =~= start + body_frames(channel, content@, ch));
    }

    /// Takes the staged bytes, leaving the buffer empty.
    pub fn drain_into_new_buf(&mut self) -> (r: OutputBuffer)
        ensures
            r@ == old(self)@,
            r.frame_max() == old(self).frame_max(),
            final(self)@ == Seq::<u8>::empty(),
            final(self).frame_max() == old(self).frame_max(),
    {
        let mut buf: Vec<u8> = Vec::new();
        std::mem::swap(&mut buf, &mut self.buf);
        OutputBuffer { frame_max: self.frame_max, buf }
    }

    /// The staged bytes.
    pub fn into_bytes(self) -> (r: Vec<u8>)
        ensures
            r@ == self@,
    {
        self.buf
    }
}

} // verus!
