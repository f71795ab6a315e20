//! The waker slots of the receivers of a channel, each under the id of its
//! receiver. A sender wakes them; a receiver leaves its waker in its own
//! slot, and takes the slot out when it goes.
use vstd::prelude::*;
use std::task::Waker;
use crate::channel::atomic_waker::{with_wake, AtomicWaker, WakerState};

verus! {

/// A receiver's waker slot, under its id.
struct Registration {
    id: u64,
    waker: AtomicWaker,
}

/// What the registry records of a receiver's waker slot: its id, state,
/// the handle it stores and the waker that handle was made from, and the
/// wakers it has woken, oldest first.
pub ghost struct Slot {
    pub id: u64,
    pub state: WakerState,
    pub waker: Option<Waker>,
    pub source: Option<Waker>,
    pub wakes: Seq<Waker>,
}

impl Slot {
    /// The slot after a wake-up: the waker it held is woken.
    pub open spec fn woken(self) -> Slot {
        if self.state == WakerState::Waiting {
            Slot { waker: None, source: None, wakes: with_wake(self.wakes, self.waker), ..self }
        } else {
            Slot { state: WakerState::Waiting, ..self }
        }
    }

    /// A new, empty slot.
    pub open spec fn fresh(id: u64) -> Slot {
        Slot { id, state: WakerState::Waiting, waker: None, source: None, wakes: Seq::empty() }
    }
}

spec fn slot_of(r: Registration) -> Slot {
    Slot {
        id: r.id,
        state: r.waker.spec_state(),
        waker: r.waker.spec_waker(),
        source: r.waker.spec_source(),
        wakes: r.waker.spec_woken(),
    }
}

/// The waker that waking `s` wakes: the one it holds while waiting.
pub open spec fn wake_of(s: Slot) -> Seq<Waker> {
    if s.state == WakerState::Waiting {
        with_wake(Seq::empty(), s.waker)
    } else {
        Seq::empty()
    }
}

/// The wakers that waking each of `slots`, first to last, wakes.
pub open spec fn newly_woken(slots: Seq<Slot>) -> Seq<Waker>
    decreases slots.len(),
{
    if slots.len() == 0 {
        Seq::empty()
    } else {
        wake_of(slots[0]) + newly_woken(slots.drop_first())
    }
}

/// The slots in the order they were registered, the id that the next
/// receiver gets, and, as a record for the proofs, the wakers woken by
/// slots that were then forgotten.
pub struct Registry {
    regs: Vec<Registration>,
    next_id: u64,
    woken: Ghost<Seq<Waker>>,
}

pub ghost struct RegistryView {
    pub slots: Seq<Slot>,
    pub next_id: u64,
    pub woken: Seq<Waker>,
}

impl View for Registry {
    type V = RegistryView;

    closed spec fn view(&self) -> RegistryView {
        RegistryView {
            slots: self.regs@.map_values(|r: Registration| slot_of(r)),
            next_id: self.next_id,
            woken: self.woken@,
        }
    }
}

impl RegistryView {
    /// Every registered id was handed out, and no id is registered twice.
    pub open spec fn wf(self) -> bool {
        &&& forall|i: int| 0 <= i < self.slots.len() ==> #[trigger] self.slots[i].id < self.next_id
        &&& forall|i: int, j: int|
            0 <= i < j < self.slots.len() ==> #[trigger] self.slots[i].id != #[trigger] self.slots[j].id
    }

    /// Whether a receiver with id `id` is registered.
    pub open spec fn registered(self, id: u64) -> bool {
        exists|i: int| 0 <= i < self.slots.len() && #[trigger] self.slots[i].id == id
    }

    /// `self` is `before` with `waker` left in the slot of `id`, if `id` is
    /// registered: a waiting slot then holds a handle made from `waker` and
    /// has woken nothing more; a waking slot wakes `waker` at once; every
    /// other slot is as it was.
    pub open spec fn waker_left(self, before: RegistryView, id: u64, waker: Waker) -> bool {
        &&& self.next_id == before.next_id
        &&& self.woken == before.woken
        &&& self.slots.len() == before.slots.len()
        &&& forall|i: int|
            #![trigger self.slots[i]]
            0 <= i < before.slots.len() ==> {
                &&& self.slots[i].id == before.slots[i].id
                &&& self.slots[i].state == before.slots[i].state
                &&& before.slots[i].id != id ==> self.slots[i] == before.slots[i]
                &&& before.slots[i].id == id && before.slots[i].state == WakerState::Waiting
                    ==> self.slots[i].waker is Some && self.slots[i].source == Some(waker)
                    && self.slots[i].wakes == before.slots[i].wakes
                &&& before.slots[i].id == id && before.slots[i].state == WakerState::Waking
                    ==> self.slots[i].waker == before.slots[i].waker
                    && self.slots[i].source == before.slots[i].source
                    && self.slots[i].wakes == before.slots[i].wakes.push(waker)
            }
    }

    /// Every slot woken.
    pub open spec fn all_woken(self) -> RegistryView {
        RegistryView { slots: self.slots.map_values(|s: Slot| s.woken()), ..self }
    }

    /// The registry with every slot woken and forgotten.
    pub open spec fn cleared(self) -> RegistryView {
        RegistryView { slots: Seq::empty(), woken: self.woken + newly_woken(self.slots), ..self }
    }

    /// The registry after the slot of `id` was taken out, if it was there.
    pub open spec fn without(self, id: u64) -> RegistryView {
        RegistryView { slots: others(self.slots, id), ..self }
    }

    /// The registry with a new empty slot for the next id.
    pub open spec fn added(self) -> RegistryView {
        RegistryView {
            slots: self.slots.push(Slot::fresh(self.next_id)),
            next_id: (self.next_id + 1) as u64,
            ..self
        }
    }
}

impl Registry {
    /// A registry with one empty slot, under id 0.
    pub fn with_first() -> (r: Registry)
        ensures
            r@.slots == seq![Slot::fresh(0)],
            r@.next_id == 1,
            r@.woken == Seq::<Waker>::empty(),
            r@.wf(),
    {
        let mut regs: Vec<Registration> = Vec::new();
        regs.push(Registration { id: 0, waker: AtomicWaker::new() });
        let r = Registry { regs, next_id: 1, woken: Ghost(Seq::empty()) };
        assert(r@.slots =~= seq![Slot::fresh(0)]);
        r
    }

    /// Whether every id has been handed out, so that no slot can be added.
    pub fn is_exhausted(&self) -> (r: bool)
        ensures
            r == (self@.next_id == u64::MAX),
    {
        self.next_id == u64::MAX
    }

    /// Where the slot of `id` is, if it is registered.
    fn position(&self, id: u64) -> (r: Option<usize>)
        ensures
            r matches Some(i) ==> i < self@.slots.len() && self@.slots[i as int].id == id,
            r is None ==> !self@.registered(id),
    {
        let mut i: usize = 0;
        while i < self.regs.len()
            invariant
                i <= self.regs.len(),
                forall|j: int| 0 <= j < i ==> #[trigger] self@.slots[j].id != id,
            decreases self.regs.len() - i,
        {
            assert(self@.slots[i as int] == slot_of(self.regs@[i as int]));
            if self.regs[i].id == id {
                return Some(i);
            }
            i = i + 1;
        }
        None
    }

    /// Adds an empty slot under a new id, and gives the id.
    pub fn add(&mut self) -> (r: u64)
        requires
            old(self)@.wf(),
            old(self)@.next_id < u64::MAX,
        ensures
            final(self)@.wf(),
            r == old(self)@.next_id,
            final(self)@ == old(self)@.added(),
    {
        let id = self.next_id;
        self.next_id = id + 1;
        let ghost v = self@;
        self.regs.push(Registration { id, waker: AtomicWaker::new() });
        assert(self@.slots =~= v.slots.push(Slot::fresh(id)));
        id
    }

    /// Takes the slot of `id` out, if it is registered.
    pub fn remove(&mut self, id: u64)
        requires
            old(self)@.wf(),
        ensures
            final(self)@.wf(),
            final(self)@ == old(self)@.without(id),
            !final(self)@.registered(id),
    {
        let ghost v = self@;
        proof {
            lemma_filter_absent(v.slots, id);
        }
        match self.position(id) {
            Some(pos) => {
                self.regs.remove(pos);
                proof {
                    lemma_filter_remove_unique(v, pos as int, id);
                }
                assert(self@.slots =~= v.slots.remove(pos as int));
                assert forall|i: int, j: int|
                    0 <= i < j < self@.slots.len() implies #[trigger] self@.slots[i].id
                    != #[trigger] self@.slots[j].id by {
                    let oi = if i < pos { i } else { i + 1 };
                    let oj = if j < pos { j } else { j + 1 };
                    assert(self@.slots[i] == v.slots[oi]);
                    assert(self@.slots[j] == v.slots[oj]);
                }
                assert forall|i: int| 0 <= i < self@.slots.len() implies #[trigger] self@.slots[i].id
                    < self@.next_id by {
                    let oi = if i < pos { i } else { i + 1 };
                    assert(self@.slots[i] == v.slots[oi]);
                }
            },
            None => {
                proof {
                    lemma_filter_keeps_all(v.slots, id);
                }
            },
        }
    }

    /// Leaves `waker` in the slot of `id`, if it is registered.
    pub fn register(&mut self, id: u64, waker: &Waker)
        requires
            old(self)@.wf(),
        ensures
            final(self)@.wf(),
            final(self)@.waker_left(old(self)@, id, *waker),
    {
        if let Some(pos) = self.position(id) {
            let ghost v = self@;
            let mut reg = self.regs.remove(pos);
            reg.waker.register(waker);
            self.regs.insert(pos, reg);
            proof {
                assert forall|i: int| 0 <= i < v.slots.len() && i != pos implies #[trigger] self@.slots[i]
                    == v.slots[i] by {
                    assert(self@.slots[i] == slot_of(self.regs@[i]));
                }
            }
        }
    }

    /// Wakes every slot.
    pub fn wake_all(&mut self)
        ensures
            final(self)@ == old(self)@.all_woken(),
    {
        let ghost regs = self.regs@;
        let n = self.regs.len();
        let mut i: usize = 0;
        while i < n
            invariant
                n == self.regs.len(),
                n == regs.len(),
                i <= n,
                self.next_id == old(self).next_id,
                self.woken == old(self).woken,
                forall|j: int| 0 <= j < i ==> #[trigger] slot_of(self.regs@[j]) == slot_of(
                    regs[j],
                ).woken(),
                forall|j: int| i <= j < n ==> #[trigger] self.regs@[j] == regs[j],
            decreases n - i,
        {
            let mut reg = self.regs.remove(i);
            reg.waker.wake();
            self.regs.insert(i, reg);
            i = i + 1;
        }
        assert(self@.slots =~= old(self)@.all_woken().slots);
    }

    /// Wakes every slot, first to last, and forgets them all.
    pub fn wake_and_clear(&mut self)
        ensures
            final(self)@ == old(self)@.cleared(),
    {
        while self.regs.len() > 0
            invariant
                self.next_id == old(self).next_id,
                self.woken@ + newly_woken(self@.slots) == old(self)@.woken + newly_woken(
                    old(self)@.slots,
                ),
            decreases self.regs.len(),
        {
            let ghost slots = self@.slots;
            let ghost before = self.regs@[0].waker.spec_woken();
            assert(slots[0] == slot_of(self.regs@[0]));
            let mut reg = self.regs.remove(0);
            reg.waker.wake();
            self.woken = Ghost(self.woken@ + reg.waker.spec_woken().skip(before.len() as int));
            proof {
                assert(self@.slots =~= slots.drop_first());
                assert(reg.waker.spec_woken().skip(before.len() as int) =~= wake_of(slots[0]));
                assert(self.woken@ + newly_woken(self@.slots) =~= old(self)@.woken + newly_woken(
                    old(self)@.slots,
                ));
            }
        }
        assert(self@.slots =~= Seq::<Slot>::empty());
        assert(self.woken@ =~= old(self)@.woken + newly_woken(old(self)@.slots));
    }
}

/// The slots of `slots` that are not under `id`, in order.
pub open spec fn others(slots: Seq<Slot>, id: u64) -> Seq<Slot> {
    slots.filter(|x: Slot| x.id != id)
}

proof fn lemma_filter_absent(s: Seq<Slot>, id: u64)
    ensures
        forall|i: int| 0 <= i < others(s, id).len() ==> #[trigger] others(s, id)[i].id != id,
{
    assert forall|i: int| 0 <= i < others(s, id).len() implies #[trigger] others(s, id)[i].id
        != id by {
        s.lemma_filter_pred(|x: Slot| x.id != id, i);
    }
}

proof fn lemma_filter_remove_unique(v: RegistryView, pos: int, id: u64)
    requires
        v.wf(),
        0 <= pos < v.slots.len(),
        v.slots[pos].id == id,
    ensures
        others(v.slots, id) == v.slots.remove(pos),
    decreases v.slots.len(),
{
    let s = v.slots;
    let p = |x: Slot| x.id != id;
    if pos == s.len() - 1 {
        assert(s.drop_last() =~= s.remove(pos));
        reveal(Seq::filter);
        assert(s.drop_last().filter(p) =~= s.drop_last()) by {
            lemma_filter_keeps_all(s.drop_last(), id);
        }
    } else {
        let w = RegistryView { slots: s.drop_last(), ..v };
        lemma_filter_remove_unique(w, pos, id);
        reveal(Seq::filter);
        assert(s.last().id != id);
        assert(s.remove(pos) =~= s.drop_last().remove(pos).push(s.last()));
    }
}

proof fn lemma_filter_keeps_all(s: Seq<Slot>, id: u64)
    requires
        forall|i: int| 0 <= i < s.len() ==> #[trigger] s[i].id != id,
    ensures
        others(s, id) == s,
    decreases s.len(),
{
    reveal(Seq::filter);
    if s.len() > 0 {
        lemma_filter_keeps_all(s.drop_last(), id);
        assert(s.drop_last().push(s.last()) =~= s);
    } else {
        assert(others(s, id) =~= s);
    }
}

/// Waking every slot wakes, in every slot, the waker it held while
/// waiting, once; a slot that held none, or was waking, wakes nothing. No
/// slot is taken out or added.
pub proof fn lemma_wake_all_wakes_every_slot(r: RegistryView, i: int, w: Waker)
    requires
        0 <= i < r.slots.len(),
    ensures
        r.all_woken().slots.len() == r.slots.len(),
        r.all_woken().slots[i].id == r.slots[i].id,
        r.slots[i].state == WakerState::Waiting && r.slots[i].waker == Some(w) ==> {
            &&& r.all_woken().slots[i].wakes == r.slots[i].wakes.push(w)
            &&& r.all_woken().slots[i].waker is None
        },
        r.slots[i].state == WakerState::Waiting && r.slots[i].waker is None ==> r.all_woken().slots[i].wakes
            == r.slots[i].wakes,
{
}

/// Waking and forgetting every slot wakes, for every slot, the waker it
/// held while waiting, first to last, and nothing else: the record grows
/// by exactly those wakers.
pub proof fn lemma_cleared_wakes_every_slot(r: RegistryView)
    ensures
        r.cleared().slots.len() == 0,
        r.cleared().woken.subrange(0, r.woken.len() as int) == r.woken,
        forall|i: int|
            #![trigger r.slots[i]]
            0 <= i < r.slots.len() && r.slots[i].state == WakerState::Waiting
                && r.slots[i].waker is Some ==> r.cleared().woken.skip(
                r.woken.len() as int,
            ).contains(r.slots[i].waker->0),
        forall|k: int|
            #![trigger r.cleared().woken[k]]
            r.woken.len() <= k < r.cleared().woken.len() ==> exists|i: int|
                #![trigger r.slots[i]]
                0 <= i < r.slots.len() && r.slots[i].state == WakerState::Waiting
                    && r.slots[i].waker == Some(r.cleared().woken[k]),
{
    lemma_newly_woken(r.slots);
    assert(r.cleared().woken.subrange(0, r.woken.len() as int) =~= r.woken);
    assert(r.cleared().woken.skip(r.woken.len() as int) =~= newly_woken(r.slots));
    assert forall|k: int| #![trigger r.cleared().woken[k]]
        r.woken.len() <= k < r.cleared().woken.len() implies exists|i: int|
        #![trigger r.slots[i]]
        0 <= i < r.slots.len() && r.slots[i].state == WakerState::Waiting
            && r.slots[i].waker == Some(r.cleared().woken[k]) by {
        assert(r.cleared().woken[k] == newly_woken(r.slots)[k - r.woken.len()]);
    }
}

/// What waking each slot in turn wakes: the waker of every waiting slot
/// that holds one, and only those.
proof fn lemma_newly_woken(slots: Seq<Slot>)
    ensures
        forall|i: int|
            #![trigger slots[i]]
            0 <= i < slots.len() && slots[i].state == WakerState::Waiting
                && slots[i].waker is Some ==> newly_woken(slots).contains(slots[i].waker->0),
        forall|k: int|
            #![trigger newly_woken(slots)[k]]
            0 <= k < newly_woken(slots).len() ==> exists|i: int|
                #![trigger slots[i]]
                0 <= i < slots.len() && slots[i].state == WakerState::Waiting
                    && slots[i].waker == Some(newly_woken(slots)[k]),
    decreases slots.len(),
{
    if slots.len() > 0 {
        let rest = slots.drop_first();
        lemma_newly_woken(rest);
        let head = wake_of(slots[0]);
        assert forall|i: int|
            #![trigger slots[i]]
            0 <= i < slots.len() && slots[i].state == WakerState::Waiting
                && slots[i].waker is Some implies newly_woken(slots).contains(
            slots[i].waker->0,
        ) by {
            if i == 0 {
                assert(newly_woken(slots)[0] == slots[0].waker->0);
            } else {
                assert(rest[i - 1] == slots[i]);
                let k = choose|k: int| 0 <= k < newly_woken(rest).len() && newly_woken(rest)[k]
                    == slots[i].waker->0;
                assert(newly_woken(slots)[head.len() + k] == slots[i].waker->0);
            }
        }
        assert forall|k: int| #![trigger newly_woken(slots)[k]]
            0 <= k < newly_woken(slots).len() implies exists|i: int|
            #![trigger slots[i]]
            0 <= i < slots.len() && slots[i].state == WakerState::Waiting
                && slots[i].waker == Some(newly_woken(slots)[k]) by {
            if k < head.len() {
                assert(slots[0].waker == Some(newly_woken(slots)[k]));
            } else {
                assert(newly_woken(slots)[k] == newly_woken(rest)[k - head.len()]);
                let i = choose|i: int|
                    #![trigger rest[i]]
                    0 <= i < rest.len() && rest[i].state == WakerState::Waiting
                        && rest[i].waker == Some(newly_woken(rest)[k - head.len()]);
                assert(slots[i + 1] == rest[i]);
            }
        }
    }
}

} // verus!
