//! The I/O loop's state for one open channel: the pending RPC, the
//! registered consumers, the content collector, and whether the channel was
//! closed.
use vstd::prelude::*;
use crate::content_collector::{
    CollectorState, Content, ContentCollector, ContentHeader, ContentStart, Input, collected_view,
    step,
};
use crate::error::{ErrorKind, clone_error};

verus! {

/// `s` without the entries equal to `t`, in order.
pub open spec fn without(s: Seq<Seq<char>>, t: Seq<char>) -> Seq<Seq<char>>
    decreases s.len(),
{
    if s.len() == 0 {
        Seq::empty()
    } else if s.last() == t {
        without(s.drop_last(), t)
    } else {
        without(s.drop_last(), t).push(s.last())
    }
}

/// Where a completed content goes.
pub enum Routed {
    /// Nothing was completed.
    Nothing,
    /// A delivery for a registered consumer.
    Consumer(Content),
    /// A delivery for a consumer tag that is not registered; it is dropped.
    Dropped(Content),
    /// The answer to the pending `basic.get`.
    Get(Content),
    /// A message the server returned.
    Returned(Content),
}

/// What a close by the server does: the error every waiter gets, whether a
/// pending RPC is failed with it, and the consumers whose streams end.
pub struct CloseEffects {
    pub error: ErrorKind,
    pub failed_waiter: bool,
    pub cancelled: Vec<String>,
}

pub struct ChannelSlot {
    id: u16,
    closed: Option<ErrorKind>,
    rpc_waiting: bool,
    consumers: Vec<String>,
    collector: ContentCollector,
}

impl ChannelSlot {
    pub closed spec fn id(&self) -> u16 {
        self.id
    }

    /// The error the channel was closed with, once it was.
    pub closed spec fn closed(&self) -> Option<ErrorKind> {
        self.closed
    }

    /// Whether an RPC on this channel awaits its reply.
    pub closed spec fn rpc_waiting(&self) -> bool {
        self.rpc_waiting
    }

    /// The tags of the registered consumers, oldest first.
    pub closed spec fn consumers(&self) -> Seq<Seq<char>> {
        self.consumers@.map_values(|s: String| s@)
    }

    pub closed spec fn collector(&self) -> CollectorState {
        self.collector@
    }

    pub fn new(id: u16) -> (r: ChannelSlot)
        ensures
            r.id() == id,
            r.closed() is None,
            !r.rpc_waiting(),
            r.consumers() == Seq::<Seq<char>>::empty(),
            r.collector() == CollectorState::Idle,
    {
        let r = ChannelSlot {
            id,
            closed: None,
            rpc_waiting: false,
            consumers: Vec::new(),
            collector: ContentCollector::new(),
        };
        assert(r.consumers() =~= Seq::<Seq<char>>::empty());
        r
    }

    fn has_consumer(&self, tag: &String) -> (r: bool)
        ensures
            r == self.consumers().contains(tag@),
    {
        let mut i: usize = 0;
        while i < self.consumers.len()
            invariant
                i <= self.consumers@.len(),
                forall|j: int| 0 <= j < i ==> self.consumers@[j]@ != tag@,
            decreases self.consumers@.len() - i,
        {
            if self.consumers[i] == *tag {
                assert(self.consumers()[i as int] == tag@);
                return true;
            }
            i = i + 1;
        }
        assert forall|j: int| 0 <= j < self.consumers().len() implies self.consumers()[j] != tag@ by {
            assert(self.consumers()[j] == self.consumers@[j]@);
        }
        false
    }

    /// Hands an application's message to the channel: it fails with the
    /// close error on a closed channel, and otherwise is sent; one that
    /// expects a reply installs the waiter. A second RPC while one is
    /// pending is refused with `FrameUnexpected`.
    pub fn begin_rpc(&mut self, expects_reply: bool) -> (r: Result<(), ErrorKind>)
        ensures
            final(self).id() == old(self).id(),
            final(self).closed() == old(self).closed(),
            final(self).consumers() == old(self).consumers(),
            final(self).collector() == old(self).collector(),
            match old(self).closed() {
                Some(e) => r == Err::<(), ErrorKind>(e) && final(self).rpc_waiting() == old(self).rpc_waiting(),
                None => if expects_reply && old(self).rpc_waiting() {
                    r == Err::<(), ErrorKind>(ErrorKind::FrameUnexpected) && final(self).rpc_waiting()
                } else {
                    r is Ok && final(self).rpc_waiting() == (old(self).rpc_waiting()
                        || expects_reply)
                },
            },
    {
        if let Some(e) = &self.closed {
            return Err(clone_error(e));
        }
        if expects_reply {
            if self.rpc_waiting {
                return Err(ErrorKind::FrameUnexpected);
            }
            self.rpc_waiting = true;
        }
        Ok(())
    }

    /// A reply method arrived: it completes the pending RPC. On a closed
    /// channel it is discarded; with no RPC pending it is a
    /// `ProtocolError`.
    pub fn on_reply(&mut self) -> (r: Result<bool, ErrorKind>)
        ensures
            final(self).id() == old(self).id(),
            final(self).closed() == old(self).closed(),
            final(self).consumers() == old(self).consumers(),
            final(self).collector() == old(self).collector(),
            old(self).closed() is Some ==> r == Ok::<bool, ErrorKind>(false) && final(self).rpc_waiting() == old(self).rpc_waiting(),
            old(self).closed() is None ==> if old(self).rpc_waiting() {
                r == Ok::<bool, ErrorKind>(true) && !final(self).rpc_waiting()
            } else {
                r == Err::<bool, ErrorKind>(ErrorKind::ProtocolError) && !final(self).rpc_waiting()
            },
    {
        if self.closed.is_some() {
            return Ok(false);
        }
        if self.rpc_waiting {
            self.rpc_waiting = false;
            Ok(true)
        } else {
            Err(ErrorKind::ProtocolError)
        }
    }

    /// `basic.consume-ok` arrived: the consumer is registered under its tag
    /// before the pending RPC completes.
    pub fn on_consume_ok(&mut self, tag: String) -> (r: Result<bool, ErrorKind>)
        ensures
            final(self).id() == old(self).id(),
            final(self).closed() == old(self).closed(),
            final(self).collector() == old(self).collector(),
            old(self).closed() is Some ==> r == Ok::<bool, ErrorKind>(false) && final(self).rpc_waiting() == old(self).rpc_waiting() && final(self).consumers() == old(self).consumers(),
            old(self).closed() is None ==> if old(self).rpc_waiting() {
                &&& r == Ok::<bool, ErrorKind>(true)
                &&& !final(self).rpc_waiting()
                &&& final(self).consumers() == if old(self).consumers().contains(tag@) {
                    old(self).consumers()
                } else {
                    old(self).consumers().push(tag@)
                }
            } else {
                r == Err::<bool, ErrorKind>(ErrorKind::ProtocolError) && !final(self).rpc_waiting() && final(self).consumers() == old(self).consumers()
            },
    {
        if self.closed.is_some() {
            return Ok(false);
        }
        if !self.rpc_waiting {
            return Err(ErrorKind::ProtocolError);
        }
        if !self.has_consumer(&tag) {
            let ghost before = self.consumers();
            self.consumers.push(tag);
            assert(self.consumers() =~= before.push(tag@));
        }
        self.rpc_waiting = false;
        Ok(true)
    }

    /// A consumer was cancelled: its entry goes. Returns whether it was
    /// registered.
    pub fn on_cancel(&mut self, tag: &String) -> (r: bool)
        ensures
            r == old(self).consumers().contains(tag@),
            final(self).consumers() == without(old(self).consumers(), tag@),
            final(self).id() == old(self).id(),
            final(self).closed() == old(self).closed(),
            final(self).rpc_waiting() == old(self).rpc_waiting(),
            final(self).collector() == old(self).collector(),
    {
        let found = self.has_consumer(tag);
        let mut old_tags: Vec<String> = Vec::new();
        std::mem::swap(&mut old_tags, &mut self.consumers);
        let ghost s = old_tags@.map_values(|x: String| x@);
        let mut kept: Vec<String> = Vec::new();
        let mut i: usize = 0;
        while i < old_tags.len()
            invariant
                i <= old_tags@.len(),
                s == old_tags@.map_values(|x: String| x@),
                kept@.map_values(|x: String| x@) == without(s.take(i as int), tag@),
            decreases old_tags@.len() - i,
        {
            let ghost prev = kept@.map_values(|x: String| x@);
            assert(s.take(i as int + 1).drop_last() =~= s.take(i as int));
            assert(s.take(i as int + 1).last() == old_tags@[i as int]@);
            if old_tags[i] != *tag {
                kept.push(old_tags[i].clone());
                assert(kept@.map_values(|x: String| x@) =~= prev.push(old_tags@[i as int]@));
            }
            i = i + 1;
        }
        assert(s.take(i as int) =~= s);
        self.consumers = kept;
        found
    }

    /// The server closed the channel: the channel is closed with
    /// `ServerClosedChannel(id, code, text)`, a pending RPC fails with it,
    /// and every consumer's stream ends. A channel that is closed already
    /// stays as it is.
    pub fn on_server_close(&mut self, reply_code: u16, reply_text: String) -> (r: CloseEffects)
        ensures
            final(self).id() == old(self).id(),
            old(self).closed() is Some ==> {
                &&& r.error == old(self).closed()->0
                &&& !r.failed_waiter
                &&& r.cancelled@.len() == 0
                &&& final(self).closed() == old(self).closed()
                &&& final(self).rpc_waiting() == old(self).rpc_waiting()
                &&& final(self).consumers() == old(self).consumers()
                &&& final(self).collector() == old(self).collector()
            },
            old(self).closed() is None ==> {
                &&& r.error == ErrorKind::ServerClosedChannel(old(self).id(), reply_code, reply_text)
                &&& final(self).closed() == Some(r.error)
                &&& r.failed_waiter == old(self).rpc_waiting()
                &&& r.cancelled@.map_values(|s: String| s@) == old(self).consumers()
                &&& !final(self).rpc_waiting()
                &&& final(self).consumers() == Seq::<Seq<char>>::empty()
                &&& final(self).collector() == CollectorState::Idle
            },
    {
        if let Some(e) = &self.closed {
            return CloseEffects { error: clone_error(e), failed_waiter: false, cancelled: Vec::new() };
        }
        let error = ErrorKind::ServerClosedChannel(self.id, reply_code, reply_text);
        self.closed = Some(clone_error(&error));
        let failed_waiter = self.rpc_waiting;
        self.rpc_waiting = false;
        let mut cancelled: Vec<String> = Vec::new();
        std::mem::swap(&mut cancelled, &mut self.consumers);
        self.collector = ContentCollector::new();
        assert(self.consumers() =~= Seq::<Seq<char>>::empty());
        CloseEffects { error, failed_waiter, cancelled }
    }

    /// Where a completed content goes, and the pending `basic.get` that a
    /// `get-ok` answers.
    fn route(&mut self, c: Content) -> (r: Result<Routed, ErrorKind>)
        ensures
            final(self).id() == old(self).id(),
            final(self).closed() == old(self).closed(),
            final(self).consumers() == old(self).consumers(),
            final(self).collector() == old(self).collector(),
            route_ok(old(self).consumers(), old(self).rpc_waiting(), c, r),
            final(self).rpc_waiting() == (old(self).rpc_waiting() && !(c.start is GetOk)),
    {
        match &c.start {
            ContentStart::Deliver(d) => {
                if self.has_consumer(&d.consumer_tag) {
                    Ok(Routed::Consumer(c))
                } else {
                    Ok(Routed::Dropped(c))
                }
            },
            ContentStart::GetOk(_) => {
                if self.rpc_waiting {
                    self.rpc_waiting = false;
                    Ok(Routed::Get(c))
                } else {
                    Err(ErrorKind::ProtocolError)
                }
            },
            ContentStart::Return(_) => Ok(Routed::Returned(c)),
        }
    }

    /// A content-bearing method arrived.
    pub fn on_content_start(&mut self, start: ContentStart) -> (r: Result<(), ErrorKind>)
        ensures
            final(self).id() == old(self).id(),
            final(self).rpc_waiting() == old(self).rpc_waiting(),
            final(self).consumers() == old(self).consumers(),
            old(self).closed() is Some ==> r is Ok && final(self).closed() == old(self).closed()
                && final(self).collector() == old(self).collector(),
            old(self).closed() is None ==> {
                let (s2, out) = step(old(self).collector(), Input::Start(start));
                &&& final(self).collector() == s2
                &&& out is Ok ==> r is Ok && final(self).closed() is None
                &&& out is Err ==> r == Err::<(), ErrorKind>(ErrorKind::FrameUnexpected)
                    && final(self).closed() == Some(ErrorKind::FrameUnexpected)
            },
    {
        if self.closed.is_some() {
            return Ok(());
        }
        match self.collector.collect_start(start) {
            Ok(()) => Ok(()),
            Err(e) => {
                self.closed = Some(ErrorKind::FrameUnexpected);
                Err(ErrorKind::FrameUnexpected)
            },
        }
    }

    /// A content header arrived.
    pub fn on_header(&mut self, header: ContentHeader) -> (r: Result<Routed, ErrorKind>)
        ensures
            final(self).id() == old(self).id(),
            final(self).consumers() == old(self).consumers(),
            old(self).closed() is Some ==> r is Ok && r->Ok_0 is Nothing && final(self).closed()
                == old(self).closed() && final(self).collector() == old(self).collector()
                && final(self).rpc_waiting() == old(self).rpc_waiting(),
            old(self).closed() is None ==> content_step_ok(
                old(self).consumers(),
                old(self).rpc_waiting(),
                step(old(self).collector(), Input::Header(header)),
                r,
                final(self).collector(),
                final(self).closed(),
                final(self).rpc_waiting(),
            ),
    {
        if self.closed.is_some() {
            return Ok(Routed::Nothing);
        }
        let out = self.collector.collect_header(header);
        self.finish(out)
    }

    /// A body fragment arrived.
    pub fn on_body(&mut self, body: Vec<u8>) -> (r: Result<Routed, ErrorKind>)
        ensures
            final(self).id() == old(self).id(),
            final(self).consumers() == old(self).consumers(),
            old(self).closed() is Some ==> r is Ok && r->Ok_0 is Nothing && final(self).closed()
                == old(self).closed() && final(self).collector() == old(self).collector()
                && final(self).rpc_waiting() == old(self).rpc_waiting(),
            old(self).closed() is None ==> content_step_ok(
                old(self).consumers(),
                old(self).rpc_waiting(),
                step(old(self).collector(), Input::Body(body@)),
                r,
                final(self).collector(),
                final(self).closed(),
                final(self).rpc_waiting(),
            ),
    {
        if self.closed.is_some() {
            return Ok(Routed::Nothing);
        }
        let out = self.collector.collect_body(body);
        self.finish(out)
    }

    fn finish(&mut self, out: Result<Option<Content>, ErrorKind>) -> (r: Result<Routed, ErrorKind>)
        requires
            old(self).closed() is None,
        ensures
            final(self).id() == old(self).id(),
            final(self).consumers() == old(self).consumers(),
            final(self).collector() == old(self).collector(),
            content_step_ok(
                old(self).consumers(),
                old(self).rpc_waiting(),
                (old(self).collector(), collected_view(out)),
                r,
                final(self).collector(),
                final(self).closed(),
                final(self).rpc_waiting(),
            ),
    {
        match out {
            Err(_) => {
                self.closed = Some(ErrorKind::FrameUnexpected);
                Err(ErrorKind::FrameUnexpected)
            },
            Ok(None) => Ok(Routed::Nothing),
            Ok(Some(c)) => self.route(c),
        }
    }
}

/// How a completed content `c` is routed: a delivery to its consumer if the
/// tag is registered, else dropped; a `get-ok` to the pending `basic.get`
/// (a `ProtocolError` where none is pending); a return to the returned
/// messages.
pub open spec fn route_ok(
    consumers: Seq<Seq<char>>,
    rpc_waiting: bool,
    c: Content,
    r: Result<Routed, ErrorKind>,
) -> bool {
    match c.start {
        ContentStart::Deliver(d) => if consumers.contains(d.consumer_tag@) {
            r matches Ok(Routed::Consumer(x)) && x == c
        } else {
            r matches Ok(Routed::Dropped(x)) && x == c
        },
        ContentStart::GetOk(_) => if rpc_waiting {
            r matches Ok(Routed::Get(x)) && x == c
        } else {
            r == Err::<Routed, ErrorKind>(ErrorKind::ProtocolError)
        },
        ContentStart::Return(_) => r matches Ok(Routed::Returned(x)) && x == c,
    }
}

/// A collector step `st` on an open channel, seen from the slot: an error
/// closes the channel with `FrameUnexpected`; a completed content is routed.
pub open spec fn content_step_ok(
    consumers: Seq<Seq<char>>,
    rpc_waiting: bool,
    st: (CollectorState, Result<Option<crate::content_collector::ContentView>, ErrorKind>),
    r: Result<Routed, ErrorKind>,
    collector: CollectorState,
    closed: Option<ErrorKind>,
    rpc_waiting_after: bool,
) -> bool {
    &&& collector == st.0
    &&& match st.1 {
        Err(_) => r == Err::<Routed, ErrorKind>(ErrorKind::FrameUnexpected) && closed == Some(
            ErrorKind::FrameUnexpected,
        ) && rpc_waiting_after == rpc_waiting,
        Ok(None) => r matches Ok(Routed::Nothing) && closed is None && rpc_waiting_after
            == rpc_waiting,
        Ok(Some(v)) => closed is None && exists|c: Content|
            c@ == v && route_ok(consumers, rpc_waiting, c, r) && rpc_waiting_after == (
            rpc_waiting && !(c.start is GetOk)),
    }
}

} // verus!
