//! The connection's channel ids: 1 to `channel_max`, each held by at most
//! one open channel, and free again once its channel is torn down.
use vstd::prelude::*;

verus! {

/// The `channel_max` used where the server offers 0 (no limit).
pub const DEFAULT_CHANNEL_MAX: u16 = 2047;

/// The channel limit in force after tuning: the server's, or the default
/// where it offers none.
pub fn negotiated_channel_max(server: u16) -> (r: u16)
    ensures
        r == (if server == 0 {
            DEFAULT_CHANNEL_MAX
        } else {
            server
        }),
{
    if server == 0 {
        DEFAULT_CHANNEL_MAX
    } else {
        server
    }
}

pub struct ChannelIds {
    used: Vec<bool>,
}

impl ChannelIds {
    /// The largest id that can be handed out.
    pub closed spec fn channel_max(&self) -> u16 {
        (self.used@.len() - 1) as u16
    }

    /// Whether `id` is held by a channel.
    pub closed spec fn in_use(&self, id: u16) -> bool {
        self.used@[id as int]
    }

    pub closed spec fn wf(&self) -> bool {
        &&& 1 <= self.used@.len() <= 0x10000
        &&& !self.used@[0]
    }

    pub fn new(channel_max: u16) -> (r: ChannelIds)
        ensures
            r.wf(),
            r.channel_max() == channel_max,
            forall|id: u16| 1 <= id <= channel_max ==> !r.in_use(id),
    {
        let mut used: Vec<bool> = Vec::new();
        let mut i: u32 = 0;
        while i <= channel_max as u32
            invariant
                i <= channel_max as u32 + 1,
                used@.len() == i,
                forall|j: int| 0 <= j < i ==> !used@[j],
            decreases channel_max as u32 + 1 - i,
        {
            used.push(false);
            i = i + 1;
        }
        ChannelIds { used }
    }

    pub fn is_in_use(&self, id: u16) -> (r: bool)
        requires
            self.wf(),
            1 <= id <= self.channel_max(),
        ensures
            r == self.in_use(id),
    {
        self.used[id as usize]
    }

    /// Takes an id for a new channel: `hint` where one is given, if it is
    /// in range and free; else the smallest free id. `None` where no such
    /// id is free.
    pub fn allocate(&mut self, hint: Option<u16>) -> (r: Option<u16>)
        requires
            old(self).wf(),
        ensures
            final(self).wf(),
            final(self).channel_max() == old(self).channel_max(),
            match hint {
                Some(h) => if 1 <= h <= old(self).channel_max() && !old(self).in_use(h) {
                    r == Some(h)
                } else {
                    r is None
                },
                None => match r {
                    Some(id) => 1 <= id <= old(self).channel_max() && !old(self).in_use(id)
                        && forall|k: u16| 1 <= k < id ==> old(self).in_use(k),
                    None => forall|k: u16| 1 <= k <= old(self).channel_max() ==> old(self).in_use(k),
                },
            },
            match r {
                Some(id) => final(self).in_use(id) && forall|k: u16|
                    1 <= k <= old(self).channel_max() && k != id ==> final(self).in_use(k) == old(
                        self,
                    ).in_use(k),
                None => forall|k: u16|
                    1 <= k <= old(self).channel_max() ==> final(self).in_use(k) == old(self).in_use(k),
            },
    {
        let max = self.used.len() - 1;
        let found: Option<u16> = match hint {
            Some(h) => {
                if 1 <= h && (h as usize) <= max && !self.used[h as usize] {
                    Some(h)
                } else {
                    None
                }
            },
            None => {
                let mut i: usize = 1;
                let mut f: Option<u16> = None;
                while i <= max && f.is_none()
                    invariant
                        self.wf(),
                        max == self.used@.len() - 1,
                        1 <= i <= max + 1,
                        forall|k: u16| 1 <= k < i ==> self.used@[k as int],
                        f matches Some(id) ==> id == i && i <= max && !self.used@[id as int],
                    decreases max + 1 - i + (if f is None { 1int } else { 0int }),
                {
                    if !self.used[i] {
                        f = Some(i as u16);
                    } else {
                        i = i + 1;
                    }
                }
                f
            },
        };
        if let Some(id) = found {
            self.used.set(id as usize, true);
        }
        found
    }

    /// Frees the id of a channel that was torn down.
    pub fn release(&mut self, id: u16)
        requires
            old(self).wf(),
            1 <= id <= old(self).channel_max(),
        ensures
            final(self).wf(),
            final(self).channel_max() == old(self).channel_max(),
            !final(self).in_use(id),
            forall|k: u16|
                1 <= k <= old(self).channel_max() && k != id ==> final(self).in_use(k) == old(
                    self,
                ).in_use(k),
    {
        self.used.set(id as usize, false);
    }
}

} // verus!
