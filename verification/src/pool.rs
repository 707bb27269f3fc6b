//! The pool of admission slots and its scan round.
//!
//! A round looks at the slots in index order and claims the first free one.
//! When none is free the round proposes a sleep instead: the time until the
//! first window runs out, and no time at all when a slot was held or its lock
//! was contended, because such a slot may come free at any moment.

use crate::rate::ThrottleRate;
use crate::slot::{HoldHandle, Slot, SlotView, Verdict};
use vstd::pervasive::unreached;
use vstd::prelude::*;

verus! {

/// One admission, as a contract sees it: which slot was claimed, when, and
/// whether the claim holds the slot.
pub struct Admission {
    /// The instant of the claim.
    pub at: nat,
    /// The index of the claimed slot.
    pub slot: nat,
    /// Whether the claim left a hold marker on the slot.
    pub held: bool,
}

/// What a contract can say of a pool.
pub struct PoolView {
    /// The length of the window in nanoseconds.
    pub window: nat,
    /// The slots, in scan order.
    pub slots: Seq<SlotView>,
}

/// The least of `window` and of the times that the slots in `slots` have left
/// at `now`.
pub open spec fn shortest_wait(slots: Seq<SlotView>, now: nat, window: nat) -> nat
    decreases slots.len(),
{
    if slots.len() == 0 {
        window
    } else {
        let rest = shortest_wait(slots.drop_last(), now, window);
        let last = slots.last().remaining(now);
        if last < rest {
            last
        } else {
            rest
        }
    }
}

impl PoolView {
    /// A pool of `count` slots that nobody has claimed yet.
    pub open spec fn fresh(count: nat, window: nat) -> PoolView {
        PoolView {
            window,
            slots: Seq::new(count, |i: int| SlotView { wait_until: 0, held: false }),
        }
    }

    /// How many slots a round gets to probe: all of them, or those before the
    /// first slot whose lock is contended.
    pub open spec fn reach(self, blocked_at: Option<usize>) -> nat {
        match blocked_at {
            Some(blocked) if blocked < self.slots.len() => blocked as nat,
            _ => self.slots.len(),
        }
    }

    /// None of the first `upto` slots is vacant at `now`.
    pub open spec fn no_vacancy(self, now: nat, upto: nat) -> bool {
        forall|j: int|
            0 <= j < upto && j < self.slots.len() ==> !(#[trigger] self.slots[j]).vacant(now)
    }

    /// The admission names a slot of this pool whose window has run out.
    pub open spec fn admissible(self, admission: Admission) -> bool {
        &&& admission.slot < self.slots.len()
        &&& self.slots[admission.slot as int].expired(admission.at)
    }

    /// The pool after the admission: the claimed slot starts a new window, the
    /// others are untouched.
    pub open spec fn claim(self, admission: Admission) -> PoolView {
        PoolView {
            window: self.window,
            slots: self.slots.update(
                admission.slot as int,
                SlotView::claimed(admission.at, self.window, admission.held),
            ),
        }
    }

    /// The sleep that a round at `now` proposes when it admits nobody.
    pub open spec fn round_sleep(self, now: nat, blocked_at: Option<usize>) -> nat {
        if self.reach(blocked_at) < self.slots.len() {
            0
        } else {
            shortest_wait(self.slots, now, self.window)
        }
    }

    /// A round at `now` that went from this pool to `after` was right to
    /// admit its caller to `slot`: the round got as far as `slot`, the slot's
    /// window had run out, no vacant slot was passed over, and only the
    /// claimed slot changed.
    pub open spec fn admits(
        self,
        after: PoolView,
        now: nat,
        blocked_at: Option<usize>,
        hold: bool,
        slot: nat,
    ) -> bool {
        let admission = Admission { at: now, slot, held: hold };
        &&& slot < self.reach(blocked_at)
        &&& self.admissible(admission)
        &&& self.no_vacancy(now, slot)
        &&& after.window == self.window
        &&& after.slots == self.claim(admission).slots
    }

    /// A round at `now` that went from this pool to `after` was right to send
    /// its caller to sleep for `nanos`: no slot within reach was vacant,
    /// nothing changed, and the sleep is the one the round proposes.
    pub open spec fn defers(
        self,
        after: PoolView,
        now: nat,
        blocked_at: Option<usize>,
        nanos: nat,
    ) -> bool {
        &&& self.no_vacancy(now, self.reach(blocked_at))
        &&& after.window == self.window
        &&& after.slots == self.slots
        &&& nanos == self.round_sleep(now, blocked_at)
    }
}

/// The sleep that a round proposes is the least wait there is: it is no
/// longer than the window and no longer than any slot has left, and it is the
/// window or what one of the slots has left.
pub proof fn lemma_shortest_wait_is_least(slots: Seq<SlotView>, now: nat, window: nat)
    ensures
        shortest_wait(slots, now, window) <= window,
        forall|i: int|
            0 <= i < slots.len() ==> shortest_wait(slots, now, window) <= (
            #[trigger] slots[i]).remaining(now),
        shortest_wait(slots, now, window) == window || exists|i: int|
            0 <= i < slots.len() && shortest_wait(slots, now, window) == (
            #[trigger] slots[i]).remaining(now),
    decreases slots.len(),
{
    if slots.len() > 0 {
        let rest = slots.drop_last();
        lemma_shortest_wait_is_least(rest, now, window);
        assert forall|i: int| 0 <= i < slots.len() implies shortest_wait(slots, now, window) <= (
        #[trigger] slots[i]).remaining(now) by {
            if i < rest.len() {
                assert(slots[i] == rest[i]);
            }
        }
        if shortest_wait(slots, now, window) != window {
            if shortest_wait(slots, now, window) == slots.last().remaining(now) {
                assert(slots[slots.len() - 1] == slots.last());
            } else {
                let i = choose|i: int|
                    0 <= i < rest.len() && shortest_wait(rest, now, window) == (
                    #[trigger] rest[i]).remaining(now);
                assert(slots[i] == rest[i]);
            }
        }
    }
}

/// The proposed sleep is long enough to change something: once it is over, a
/// full window has passed or the window of one of the slots has run out.
pub proof fn lemma_sleep_ends_a_window(slots: Seq<SlotView>, now: nat, window: nat)
    ensures
        shortest_wait(slots, now, window) == window || exists|i: int|
            0 <= i < slots.len() && (#[trigger] slots[i]).expired(
                now + shortest_wait(slots, now, window),
            ),
{
    lemma_shortest_wait_is_least(slots, now, window);
    if shortest_wait(slots, now, window) != window {
        let i = choose|i: int|
            0 <= i < slots.len() && shortest_wait(slots, now, window) == (
            #[trigger] slots[i]).remaining(now);
        assert(slots[i].expired(now + shortest_wait(slots, now, window)));
    }
}

/// Admission is owed wherever the pool alone decides: with a vacant slot
/// within reach no round sends its caller to sleep, and the slot it admits
/// the caller to is that slot or one before it. A slot that a round claims
/// was vacant, or was held until then.
pub proof fn lemma_vacant_slot_is_claimed(
    pool: PoolView,
    after: PoolView,
    now: nat,
    blocked_at: Option<usize>,
    hold: bool,
    vacant: nat,
    slot: nat,
    nanos: nat,
)
    requires
        vacant < pool.reach(blocked_at),
        pool.slots[vacant as int].vacant(now),
    ensures
        !pool.defers(after, now, blocked_at, nanos),
        pool.admits(after, now, blocked_at, hold, slot) ==> slot <= vacant,
        pool.admits(after, now, blocked_at, hold, slot) && !pool.slots[slot as int].held
            ==> pool.slots[slot as int].vacant(now),
{
}

/// How one scan round ended for its caller.
pub enum QueueStep<H> {
    /// The caller is admitted and has claimed the slot with this index.
    Admitted { slot: usize, handle: H },
    /// The caller is not admitted and should try again after this sleep.
    Sleep { nanos: u64 },
}

/// A fixed table of admission slots that share one window length.
pub struct ThrottlePool {
    rate_duration: u64,
    slots: Vec<Slot>,
}

impl View for ThrottlePool {
    type V = PoolView;

    closed spec fn view(&self) -> PoolView {
        PoolView {
            window: self.rate_duration as nat,
            slots: Seq::new(self.slots@.len(), |i: int| self.slots@[i]@),
        }
    }
}

impl ThrottlePool {
    /// A pool with one vacant slot for each admission that `rate` allows per
    /// window.
    pub fn new(rate: ThrottleRate) -> (pool: Self)
        ensures
            pool@ == PoolView::fresh(rate.spec_count() as nat, rate.spec_duration() as nat),
            pool@.slots.len() > 0,
            pool@.window > 0,
    {
        let count = rate.count();
        let mut slots: Vec<Slot> = Vec::with_capacity(count);
        let mut filled: usize = 0;
        while filled < count
            invariant
                filled <= count,
                slots@.len() == filled,
                forall|i: int|
                    0 <= i < filled ==> (#[trigger] slots@[i])@ == (SlotView {
                        wait_until: 0,
                        held: false,
                    }),
            decreases count - filled,
        {
            slots.push(Slot::new());
            filled = filled + 1;
        }
        let pool = Self { rate_duration: rate.duration(), slots };
        assert(pool@.slots =~= PoolView::fresh(count as nat, rate.spec_duration() as nat).slots);
        pool
    }

    /// The length of the window in nanoseconds.
    pub fn window(&self) -> (window: u64)
        ensures
            window == self@.window,
    {
        self.rate_duration
    }

    /// The number of slots.
    pub fn len(&self) -> (count: usize)
        ensures
            count == self@.slots.len(),
    {
        self.slots.len()
    }

    /// Takes the pool apart into its window length and its slots, in scan
    /// order, for a caller that guards each slot by a lock of its own.
    pub fn into_slots(self) -> (parts: (u64, Vec<Slot>))
        ensures
            parts.0 == self@.window,
            parts.1@.len() == self@.slots.len(),
            forall|i: int| 0 <= i < parts.1@.len() ==> (#[trigger] parts.1@[i])@ == self@.slots[i],
    {
        (self.rate_duration, self.slots)
    }

    /// One scan round at `now`, with a hold for the admitted caller iff `hold`.
    fn scan(&mut self, now: u64, blocked_at: Option<usize>, hold: bool) -> (step: QueueStep<
        Option<HoldHandle>,
    >)
        requires
            now + old(self)@.window <= u64::MAX,
        ensures
            match step {
                QueueStep::Admitted { slot, handle } => {
                    &&& old(self)@.admits(final(self)@, now as nat, blocked_at, hold, slot as nat)
                    &&& handle is Some <==> hold
                },
                QueueStep::Sleep { nanos } => old(self)@.defers(
                    final(self)@,
                    now as nat,
                    blocked_at,
                    nanos as nat,
                ),
            },
    {
        let ghost before = self@;
        let count = self.slots.len();
        let window = self.rate_duration;
        let mut sleep = window;
        let mut index: usize = 0;
        proof {
            assert(before.slots.take(0) =~= Seq::<SlotView>::empty());
        }
        while index < count
            invariant
                index <= count,
                count == self.slots@.len(),
                window == self.rate_duration,
                now + window <= u64::MAX,
                self@.window == before.window,
                self@.slots == before.slots,
                before == old(self)@,
                before.window == window,
                before.slots.len() == count,
                index <= before.reach(blocked_at),
                before.no_vacancy(now as nat, index as nat),
                sleep == shortest_wait(before.slots.take(index as int), now as nat, window as nat),
            decreases count - index,
        {
            let blocked = match blocked_at {
                Some(at) => at == index,
                None => false,
            };
            if blocked {
                return QueueStep::Sleep { nanos: 0 };
            }
            let (verdict, handle) = self.slots[index].visit(now, window, hold);
            match verdict {
                Verdict::Claim => {
                    proof {
                        assert(self@.slots =~= before.claim(
                            Admission { at: now as nat, slot: index as nat, held: hold },
                        ).slots);
                    }
                    return QueueStep::Admitted { slot: index, handle };
                },
                _ => {
                    proof {
                        assert(self@.slots =~= before.slots);
                        let seen = before.slots.take(index as int + 1);
                        assert(seen.drop_last() =~= before.slots.take(index as int));
                        assert(seen.last() == before.slots[index as int]);
                    }
                    sleep = verdict.sleep_after(sleep);
                },
            }
            index = index + 1;
        }
        proof {
            assert(before.slots.take(count as int) =~= before.slots);
        }
        QueueStep::Sleep { nanos: sleep }
    }

    /// One round of waiting for a slot: scans the slots at `now` and either
    /// admits the caller or says how long to sleep before the next round.
    ///
    /// `blocked_at` names the first slot whose lock another task holds during
    /// this round, if there is one; the round stops there and proposes no
    /// sleep at all. The round admits the caller to the first slot within
    /// reach whose window has run out and which is no longer held. Whether a
    /// held slot has been let go is for its handle's owner to decide; a slot
    /// that is vacant is claimed without asking anyone, so the caller is
    /// admitted whenever a vacant slot is within reach.
    pub fn queue(&mut self, now: u64, blocked_at: Option<usize>) -> (step: QueueStep<()>)
        requires
            now + old(self)@.window <= u64::MAX,
        ensures
            final(self)@.window == old(self)@.window,
            final(self)@.slots.len() == old(self)@.slots.len(),
            match step {
                QueueStep::Admitted { slot, handle } => old(self)@.admits(
                    final(self)@,
                    now as nat,
                    blocked_at,
                    false,
                    slot as nat,
                ),
                QueueStep::Sleep { nanos } => old(self)@.defers(
                    final(self)@,
                    now as nat,
                    blocked_at,
                    nanos as nat,
                ),
            },
    {
        match self.scan(now, blocked_at, false) {
            QueueStep::Admitted { slot, handle } => QueueStep::Admitted { slot, handle: () },
            QueueStep::Sleep { nanos } => QueueStep::Sleep { nanos },
        }
    }

    /// Like [`queue`](Self::queue), but an admitted caller also gets a handle
    /// that holds the claimed slot: the slot cannot be claimed again, however
    /// long ago its window ran out, until the handle is released or dropped.
    pub fn queue_with_hold(&mut self, now: u64, blocked_at: Option<usize>) -> (step: QueueStep<
        HoldHandle,
    >)
        requires
            now + old(self)@.window <= u64::MAX,
        ensures
            final(self)@.window == old(self)@.window,
            final(self)@.slots.len() == old(self)@.slots.len(),
            match step {
                QueueStep::Admitted { slot, handle } => old(self)@.admits(
                    final(self)@,
                    now as nat,
                    blocked_at,
                    true,
                    slot as nat,
                ),
                QueueStep::Sleep { nanos } => old(self)@.defers(
                    final(self)@,
                    now as nat,
                    blocked_at,
                    nanos as nat,
                ),
            },
    {
        match self.scan(now, blocked_at, true) {
            QueueStep::Admitted { slot, handle } => match handle {
                Some(handle) => QueueStep::Admitted { slot, handle },
                None => unreached(),
            },
            QueueStep::Sleep { nanos } => QueueStep::Sleep { nanos },
        }
    }
}

} // verus!
