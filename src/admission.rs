use vstd::prelude::*;

verus! {

/// How many sessions may run at once: without limit, or at most some number.
#[derive(Clone, Copy, Debug, PartialEq, Eq, Structural)]
pub enum Concurrency {
    Unbounded,
    Bounded(usize),
}

/// The server loop's count of running sessions under a concurrency policy.
#[derive(Clone, Copy, Debug)]
pub struct Admission {
    pub policy: Concurrency,
    pub active: usize,
}

/// Whether one more session may start while `active` are running.
pub open spec fn has_room(policy: Concurrency, active: usize) -> bool {
    match policy {
        Concurrency::Unbounded => active < usize::MAX,
        Concurrency::Bounded(limit) => active < limit,
    }
}

impl Admission {
    pub fn new(policy: Concurrency) -> (r: Admission)
        ensures
            r.policy == policy,
            r.active == 0,
    {
        Admission { policy, active: 0 }
    }

    /// Starts a session when the policy leaves room for one; otherwise the
    /// connection is turned away and nothing changes.
    pub fn try_start(&mut self) -> (r: bool)
        ensures
            final(self).policy == old(self).policy,
            r == has_room(old(self).policy, old(self).active),
            r ==> final(self).active == old(self).active + 1,
            !r ==> final(self).active == old(self).active,
    {
        let room = match self.policy {
            Concurrency::Unbounded => self.active < usize::MAX,
            Concurrency::Bounded(limit) => self.active < limit,
        };
        if room {
            self.active = self.active + 1;
        }
        room
    }

    /// Records that a session has ended.
    pub fn release(&mut self)
        ensures
            final(self).policy == old(self).policy,
            old(self).active > 0 ==> final(self).active == old(self).active - 1,
            old(self).active == 0 ==> final(self).active == 0,
    {
        if self.active > 0 {
            self.active = self.active - 1;
        }
    }
}

} // verus!
