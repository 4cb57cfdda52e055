//! Per-channel reassembly of content: a content-bearing method, then its
//! header, then body frames until the header's body size is reached.
use vstd::prelude::*;
use crate::error::ErrorKind;

verus! {

/// The arguments of `basic.deliver`.
pub struct Deliver {
    pub consumer_tag: String,
    pub delivery_tag: u64,
    pub redelivered: bool,
    pub exchange: String,
    pub routing_key: String,
}

/// The arguments of `basic.get-ok`.
pub struct GetOk {
    pub delivery_tag: u64,
    pub redelivered: bool,
    pub exchange: String,
    pub routing_key: String,
    pub message_count: u32,
}

/// The arguments of `basic.return`.
pub struct Return {
    pub reply_code: u16,
    pub reply_text: String,
    pub exchange: String,
    pub routing_key: String,
}

/// A method that announces content.
pub enum ContentStart {
    Deliver(Deliver),
    GetOk(GetOk),
    Return(Return),
}

/// A content header: class id, size of the body to follow, encoded
/// properties.
pub struct ContentHeader {
    pub class_id: u16,
    pub body_size: u64,
    pub properties: Vec<u8>,
}

/// A completed content.
pub struct Content {
    pub start: ContentStart,
    pub header: ContentHeader,
    pub body: Vec<u8>,
}

/// A completed content, with its body as a sequence.
pub struct ContentView {
    pub start: ContentStart,
    pub header: ContentHeader,
    pub body: Seq<u8>,
}

impl View for Content {
    type V = ContentView;

    open spec fn view(&self) -> ContentView {
        ContentView { start: self.start, header: self.header, body: self.body@ }
    }
}

/// Where the collector stands.
pub enum CollectorState {
    Idle,
    AwaitHeader(ContentStart),
    AwaitBody(ContentStart, ContentHeader, Seq<u8>),
}

/// One frame handed to the collector.
pub enum Input {
    Start(ContentStart),
    Header(ContentHeader),
    Body(Seq<u8>),
}

/// One step of the collector: its next state and what it yields.
/// Any error leaves it idle.
pub open spec fn step(s: CollectorState, i: Input) -> (CollectorState, Result<
    Option<ContentView>,
    ErrorKind,
>) {
    match (s, i) {
        (CollectorState::Idle, Input::Start(st)) => (CollectorState::AwaitHeader(st), Ok(None)),
        (CollectorState::AwaitHeader(st), Input::Header(h)) => {
            if h.body_size == 0 {
                (
                    CollectorState::Idle,
                    Ok(Some(ContentView { start: st, header: h, body: Seq::empty() })),
                )
            } else {
                (CollectorState::AwaitBody(st, h, Seq::empty()), Ok(None))
            }
        },
        (CollectorState::AwaitBody(st, h, acc), Input::Body(b)) => {
            let n = acc + b;
            if n.len() == h.body_size {
                (CollectorState::Idle, Ok(Some(ContentView { start: st, header: h, body: n })))
            } else if n.len() < h.body_size {
                (CollectorState::AwaitBody(st, h, n), Ok(None))
            } else {
                (CollectorState::Idle, Err(ErrorKind::FrameUnexpected))
            }
        },
        _ => (CollectorState::Idle, Err(ErrorKind::FrameUnexpected)),
    }
}

/// Whether `i` is what the collector in state `s` waits for.
pub open spec fn in_order(s: CollectorState, i: Input) -> bool {
    match (s, i) {
        (CollectorState::Idle, Input::Start(_)) => true,
        (CollectorState::AwaitHeader(_), Input::Header(_)) => true,
        (CollectorState::AwaitBody(..), Input::Body(_)) => true,
        _ => false,
    }
}

/// Feeding `ins` in turn from state `s`: the final state, the contents
/// yielded, and the error that stopped the run, if any.
pub open spec fn run(s: CollectorState, ins: Seq<Input>) -> (CollectorState, Seq<ContentView>, Option<ErrorKind>)
    decreases ins.len(),
{
    if ins.len() == 0 {
        (s, Seq::empty(), None)
    } else {
        let (s1, out1, e1) = run(s, ins.drop_last());
        if e1 is Some {
            (s1, out1, e1)
        } else {
            let (s2, r) = step(s1, ins.last());
            match r {
                Ok(Some(c)) => (s2, out1.push(c), None),
                Ok(None) => (s2, out1, None),
                Err(e) => (s2, out1, Some(e)),
            }
        }
    }
}

/// The body fragments joined in order.
pub open spec fn concat(bodies: Seq<Seq<u8>>) -> Seq<u8>
    decreases bodies.len(),
{
    if bodies.len() == 0 {
        Seq::empty()
    } else {
        concat(bodies.drop_last()) + bodies.last()
    }
}

/// A method, its header, and body fragments.
pub open spec fn transcript(st: ContentStart, h: ContentHeader, bodies: Seq<Seq<u8>>) -> Seq<Input> {
    seq![Input::Start(st), Input::Header(h)] + bodies.map_values(|b: Seq<u8>| Input::Body(b))
}

/// A frame out of the order method, header, bodies is refused with
/// `FrameUnexpected`, and the collector falls back to idle.
pub proof fn lemma_out_of_order(s: CollectorState, i: Input)
    requires
        !in_order(s, i),
    ensures
        step(s, i) == (CollectorState::Idle, Err::<Option<ContentView>, ErrorKind>(
            ErrorKind::FrameUnexpected,
        )),
{
}

proof fn lemma_concat_step(bodies: Seq<Seq<u8>>, k: int)
    requires
        0 <= k < bodies.len(),
    ensures
        concat(bodies.take(k + 1)) == concat(bodies.take(k)) + bodies[k],
{
    assert(bodies.take(k + 1).drop_last() =~= bodies.take(k));
}

proof fn lemma_concat_shorter(bodies: Seq<Seq<u8>>, k: int)
    requires
        0 <= k < bodies.len(),
        forall|i: int| 0 <= i < bodies.len() ==> #[trigger] bodies[i].len() > 0,
    ensures
        concat(bodies.take(k)).len() < concat(bodies).len(),
    decreases bodies.len() - k,
{
    lemma_concat_step(bodies, k);
    if k + 1 < bodies.len() {
        lemma_concat_shorter(bodies, k + 1);
    } else {
        assert(bodies.take(k + 1) =~= bodies);
    }
}

/// Running a prefix of a transcript: after the method the collector awaits
/// the header; after the header and `k` fragments it holds their bytes.
proof fn lemma_transcript_prefix(st: ContentStart, h: ContentHeader, bodies: Seq<Seq<u8>>, k: int)
    requires
        0 <= k <= bodies.len(),
        h.body_size > 0,
        k > 0 ==> concat(bodies.take(k)).len() < h.body_size,
    ensures
        run(CollectorState::Idle, transcript(st, h, bodies).take(1)) == (
            CollectorState::AwaitHeader(st),
            Seq::<ContentView>::empty(),
            None::<ErrorKind>,
        ),
        run(CollectorState::Idle, transcript(st, h, bodies).take(2 + k)) == (
            CollectorState::AwaitBody(st, h, concat(bodies.take(k))),
            Seq::<ContentView>::empty(),
            None::<ErrorKind>,
        ),
    decreases k,
{
    let t = transcript(st, h, bodies);
    lemma_transcript_method(st, h, bodies);
    if k == 0 {
        assert(t.take(2).drop_last() =~= t.take(1));
        assert(t.take(2).last() == Input::Header(h));
        assert(bodies.take(0) =~= Seq::<Seq<u8>>::empty());
        assert(concat(bodies.take(0)) == Seq::<u8>::empty());
    } else {
        lemma_concat_step(bodies, k - 1);
        if k - 1 > 0 {
            assert(concat(bodies.take(k - 1)).len() <= concat(bodies.take(k)).len());
        }
        lemma_transcript_prefix(st, h, bodies, k - 1);
        assert(t.take(2 + k).drop_last() =~= t.take(2 + k - 1));
        assert(t[2 + k - 1] == Input::Body(bodies[k - 1]));
        assert(t.take(2 + k).last() == Input::Body(bodies[k - 1]));
    }
}

proof fn lemma_transcript_method(st: ContentStart, h: ContentHeader, bodies: Seq<Seq<u8>>)
    ensures
        run(CollectorState::Idle, transcript(st, h, bodies).take(1)) == (
            CollectorState::AwaitHeader(st),
            Seq::<ContentView>::empty(),
            None::<ErrorKind>,
        ),
{
    let t = transcript(st, h, bodies);
    let e = Seq::<Input>::empty();
    assert(run(CollectorState::Idle, e) == (
        CollectorState::Idle,
        Seq::<ContentView>::empty(),
        None::<ErrorKind>,
    ));
    assert(t.take(1).drop_last() =~= e);
    assert(t.take(1).last() == Input::Start(st));
}

/// A method, a header and body fragments that together hold the header's
/// body size yield exactly one content, whose body is the fragments joined,
/// and leave the collector idle.
pub proof fn lemma_transcript_complete(st: ContentStart, h: ContentHeader, bodies: Seq<Seq<u8>>)
    requires
        h.body_size == concat(bodies).len(),
        forall|i: int| 0 <= i < bodies.len() ==> #[trigger] bodies[i].len() > 0,
    ensures
        run(CollectorState::Idle, transcript(st, h, bodies)) == (
            CollectorState::Idle,
            seq![ContentView { start: st, header: h, body: concat(bodies) }],
            None::<ErrorKind>,
        ),
{
    let t = transcript(st, h, bodies);
    let n = bodies.len() as int;
    if n == 0 {
        lemma_transcript_method(st, h, bodies);
        assert(t.drop_last() =~= t.take(1));
        assert(t.last() == Input::Header(h));
        assert(concat(bodies) == Seq::<u8>::empty());
    } else {
        if n - 1 > 0 {
            lemma_concat_shorter(bodies, n - 1);
        }
        lemma_transcript_prefix(st, h, bodies, n - 1);
        lemma_concat_step(bodies, n - 1);
        assert(bodies.take(n) =~= bodies);
        assert(t.take(2 + n) =~= t);
        assert(t.drop_last() =~= t.take(2 + n - 1));
        assert(t[2 + n - 1] == Input::Body(bodies[n - 1]));
        assert(t.last() == Input::Body(bodies[n - 1]));
    }
}

/// Feeding a non-empty proper prefix of a complete transcript yields
/// nothing, raises no error, and leaves the collector waiting.
pub proof fn lemma_transcript_partial(
    st: ContentStart,
    h: ContentHeader,
    bodies: Seq<Seq<u8>>,
    j: int,
)
    requires
        h.body_size == concat(bodies).len(),
        forall|i: int| 0 <= i < bodies.len() ==> #[trigger] bodies[i].len() > 0,
        1 <= j < transcript(st, h, bodies).len(),
    ensures
        run(CollectorState::Idle, transcript(st, h, bodies).take(j)).1.len() == 0,
        run(CollectorState::Idle, transcript(st, h, bodies).take(j)).2 is None,
        !(run(CollectorState::Idle, transcript(st, h, bodies).take(j)).0 is Idle),
{
    let n = bodies.len() as int;
    if j == 1 {
        if n > 0 {
            lemma_concat_shorter(bodies, 0);
        }
        assert(h.body_size == 0 ==> n == 0);
        if h.body_size > 0 {
            lemma_transcript_prefix(st, h, bodies, 0);
        } else {
            lemma_transcript_method(st, h, bodies);
        }
    } else {
        let k = j - 2;
        lemma_concat_shorter(bodies, k);
        lemma_transcript_prefix(st, h, bodies, k);
    }
}

/// The collector's result with the content replaced by its model.
pub open spec fn collected_view(r: Result<Option<Content>, ErrorKind>) -> Result<
    Option<ContentView>,
    ErrorKind,
> {
    match r {
        Ok(Some(c)) => Ok(Some(c@)),
        Ok(None) => Ok(None),
        Err(e) => Err(e),
    }
}

enum Collecting {
    Idle,
    AwaitHeader(ContentStart),
    AwaitBody(ContentStart, ContentHeader, Vec<u8>),
}

/// The content collector of one channel.
pub struct ContentCollector {
    state: Collecting,
}

impl View for ContentCollector {
    type V = CollectorState;

    closed spec fn view(&self) -> CollectorState {
        match self.state {
            Collecting::Idle => CollectorState::Idle,
            Collecting::AwaitHeader(st) => CollectorState::AwaitHeader(st),
            Collecting::AwaitBody(st, h, acc) => CollectorState::AwaitBody(st, h, acc@),
        }
    }
}

impl ContentCollector {
    pub fn new() -> (r: ContentCollector)
        ensures
            r@ == CollectorState::Idle,
    {
        ContentCollector { state: Collecting::Idle }
    }

    pub fn is_idle(&self) -> (r: bool)
        ensures
            r == (self@ is Idle),
    {
        match self.state {
            Collecting::Idle => true,
            _ => false,
        }
    }

    /// Hands over a content-bearing method.
    pub fn collect_start(&mut self, start: ContentStart) -> (r: Result<(), ErrorKind>)
        ensures
            final(self)@ == step(old(self)@, Input::Start(start)).0,
            step(old(self)@, Input::Start(start)).1 == (match r {
                Ok(()) => Ok(None::<ContentView>),
                Err(e) => Err::<Option<ContentView>, ErrorKind>(e),
            }),
    {
        let mut state = Collecting::Idle;
        std::mem::swap(&mut state, &mut self.state);
        match state {
            Collecting::Idle => {
                self.state = Collecting::AwaitHeader(start);
                Ok(())
            },
            _ => Err(ErrorKind::FrameUnexpected),
        }
    }

    /// Hands over a content header.
    pub fn collect_header(&mut self, header: ContentHeader) -> (r: Result<Option<Content>, ErrorKind>)
        ensures
            (final(self)@, collected_view(r)) == step(old(self)@, Input::Header(header)),
    {
        let mut state = Collecting::Idle;
        std::mem::swap(&mut state, &mut self.state);
        match state {
            Collecting::AwaitHeader(start) => {
                if header.body_size == 0 {
                    let c = Content { start, header, body: Vec::new() };
                    assert(c@.body =~= Seq::<u8>::empty());
                    Ok(Some(c))
                } else {
                    self.state = Collecting::AwaitBody(start, header, Vec::new());
                    assert(self@ == CollectorState::AwaitBody(start, header, Seq::empty()));
                    Ok(None)
                }
            },
            _ => Err(ErrorKind::FrameUnexpected),
        }
    }

    /// Hands over a body fragment.
    pub fn collect_body(&mut self, body: Vec<u8>) -> (r: Result<Option<Content>, ErrorKind>)
        ensures
            (final(self)@, collected_view(r)) == step(old(self)@, Input::Body(body@)),
    {
        let mut body = body;
        let mut state = Collecting::Idle;
        std::mem::swap(&mut state, &mut self.state);
        match state {
            Collecting::AwaitBody(start, header, acc) => {
                let mut acc = acc;
                acc.append(&mut body);
                let have = acc.len() as u64;
                if have == header.body_size {
                    Ok(Some(Content { start, header, body: acc }))
                } else if have < header.body_size {
                    self.state = Collecting::AwaitBody(start, header, acc);
                    Ok(None)
                } else {
                    Err(ErrorKind::FrameUnexpected)
                }
            },
            _ => Err(ErrorKind::FrameUnexpected),
        }
    }
}

} // verus!
