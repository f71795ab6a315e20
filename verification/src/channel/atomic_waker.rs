//! A slot for the waker of one task, with a flag that tells a registration
//! arriving during a wake-up to wake its task at once.
use vstd::prelude::*;
use std::task::Waker;
use crate::waker::{clone_waker, wake, wake_by_ref};

verus! {

/// Whether the slot is accepting a waker or has just handed its waker out.
#[derive(Clone, Copy, Debug, PartialEq, Eq)]
pub enum WakerState {
    Waiting,
    Waking,
}

/// The slot: its state, the handle stored at the last registration
/// together with the waker it was made from, and, as a record for the
/// proofs, every waker it has woken, in order.
pub struct AtomicWaker {
    state: WakerState,
    waker: Option<(Waker, Ghost<Waker>)>,
    woken: Ghost<Seq<Waker>>,
}

/// `log` after waking `waker`, if there is one.
pub open spec fn with_wake(log: Seq<Waker>, waker: Option<Waker>) -> Seq<Waker> {
    match waker {
        Some(w) => log.push(w),
        None => log,
    }
}

impl AtomicWaker {
    pub closed spec fn spec_state(&self) -> WakerState {
        self.state
    }

    /// The stored handle, if any.
    pub closed spec fn spec_waker(&self) -> Option<Waker> {
        match self.waker {
            Some(p) => Some(p.0),
            None => None,
        }
    }

    /// The waker that the stored handle was made from, if one is stored.
    pub closed spec fn spec_source(&self) -> Option<Waker> {
        match self.waker {
            Some(p) => Some(p.1@),
            None => None,
        }
    }

    /// Every waker this slot has woken, oldest first.
    pub closed spec fn spec_woken(&self) -> Seq<Waker> {
        self.woken@
    }

    /// An empty slot, accepting a waker.
    pub fn new() -> (r: AtomicWaker)
        ensures
            r.spec_state() == WakerState::Waiting,
            r.spec_waker() is None,
            r.spec_source() is None,
            r.spec_woken() == Seq::<Waker>::empty(),
    {
        AtomicWaker { state: WakerState::Waiting, waker: None, woken: Ghost(Seq::empty()) }
    }

    /// Stores a handle to `waker` while waiting; during a wake-up the task
    /// is woken at once instead and nothing is stored.
    pub fn register(&mut self, waker: &Waker)
        ensures
            final(self).spec_state() == old(self).spec_state(),
            old(self).spec_state() == WakerState::Waiting ==> final(self).spec_waker() is Some,
            old(self).spec_state() == WakerState::Waiting ==> final(self).spec_source() == Some(
                *waker,
            ),
            old(self).spec_state() == WakerState::Waiting ==> final(self).spec_woken() == old(
                self,
            ).spec_woken(),
            old(self).spec_state() == WakerState::Waking ==> final(self).spec_waker()
                == old(self).spec_waker(),
            old(self).spec_state() == WakerState::Waking ==> final(self).spec_source()
                == old(self).spec_source(),
            old(self).spec_state() == WakerState::Waking ==> final(self).spec_woken() == old(
                self,
            ).spec_woken().push(*waker),
    {
        match self.state {
            WakerState::Waiting => {
                self.waker = Some((clone_waker(waker), Ghost(*waker)));
            },
            WakerState::Waking => {
                wake_by_ref(waker);
                self.woken = Ghost(self.woken@.push(*waker));
            },
        }
    }

    /// Wakes the stored task, if any, and accepts wakers again.
    pub fn wake(&mut self)
        ensures
            final(self).spec_state() == WakerState::Waiting,
            old(self).spec_state() == WakerState::Waiting ==> final(self).spec_waker() is None,
            old(self).spec_state() == WakerState::Waiting ==> final(self).spec_source() is None,
            old(self).spec_state() == WakerState::Waiting ==> final(self).spec_woken()
                == with_wake(old(self).spec_woken(), old(self).spec_waker()),
            old(self).spec_state() == WakerState::Waking ==> final(self).spec_waker()
                == old(self).spec_waker(),
            old(self).spec_state() == WakerState::Waking ==> final(self).spec_source()
                == old(self).spec_source(),
            old(self).spec_state() == WakerState::Waking ==> final(self).spec_woken() == old(
                self,
            ).spec_woken(),
    {
        if let Some(w) = self.take() {
            let ghost woken_now = w;
            wake(w);
            self.woken = Ghost(self.woken@.push(woken_now));
        }
        self.state = WakerState::Waiting;
    }

    /// Hands out the stored waker and marks the slot as waking; while
    /// already waking, hands out nothing.
    pub fn take(&mut self) -> (r: Option<Waker>)
        ensures
            old(self).spec_state() == WakerState::Waiting ==> {
                &&& r == old(self).spec_waker()
                &&& final(self).spec_waker() is None
                &&& final(self).spec_source() is None
                &&& final(self).spec_state() == WakerState::Waking
                &&& final(self).spec_woken() == old(self).spec_woken()
            },
            old(self).spec_state() == WakerState::Waking ==> {
                &&& r is None
                &&& *final(self) == *old(self)
            },
    {
        match self.state {
            WakerState::Waiting => {
                let stored = self.waker.take();
                self.state = WakerState::Waking;
                match stored {
                    Some((w, _)) => Some(w),
                    None => None,
                }
            },
            WakerState::Waking => None,
        }
    }
}

impl Default for AtomicWaker {
    /// An empty slot, accepting a waker.
    fn default() -> (r: AtomicWaker)
        ensures
            r.spec_state() == WakerState::Waiting,
            r.spec_waker() is None,
            r.spec_source() is None,
            r.spec_woken() == Seq::<Waker>::empty(),
    {
        AtomicWaker::new()
    }
}

} // verus!
