//! The capacity bound: no window holds more admissions than the pool has
//! slots.
//!
//! The bound rests on one fact about a single slot. A claim is made only once
//! the slot's window has run out, and it starts a new window at the instant of
//! the claim, so two claims of one slot lie at least a window apart. A stretch
//! of time shorter than that can then hold at most one claim per slot.

use crate::pool::{Admission, PoolView};
use vstd::prelude::*;
use vstd::relations::injective_on;
use vstd::set_lib::{lemma_int_range, lemma_len_subset, lemma_map_size, set_int_range};

verus! {

/// The pool after the admissions of `history`, made in order.
pub open spec fn replay(pool: PoolView, history: Seq<Admission>) -> PoolView
    decreases history.len(),
{
    if history.len() == 0 {
        pool
    } else {
        replay(pool, history.drop_last()).claim(history.last())
    }
}

/// Every admission of `history` was made as a round makes it: on a slot of
/// the pool whose window, as the admissions before had left it, had run out.
pub open spec fn lawful(pool: PoolView, history: Seq<Admission>) -> bool
    decreases history.len(),
{
    if history.len() == 0 {
        true
    } else {
        &&& lawful(pool, history.drop_last())
        &&& replay(pool, history.drop_last()).admissible(history.last())
    }
}

/// The admission falls into the stretch of length `window` that begins at
/// `start` and ends just before `start + window`.
pub open spec fn within(admission: Admission, start: nat, window: nat) -> bool {
    start <= admission.at < start + window
}

/// The positions in `history` of the admissions that fall into the stretch of
/// length `window` that begins at `start`.
pub open spec fn admitted_within(history: Seq<Admission>, start: nat, window: nat) -> Set<int> {
    Set::new(|k: int| 0 <= k < history.len() && within(history[k], start, window))
}

/// Replaying admissions keeps the window length and the number of slots.
pub proof fn lemma_replay_keeps_shape(pool: PoolView, history: Seq<Admission>)
    requires
        lawful(pool, history),
    ensures
        replay(pool, history).window == pool.window,
        replay(pool, history).slots.len() == pool.slots.len(),
    decreases history.len(),
{
    if history.len() > 0 {
        lemma_replay_keeps_shape(pool, history.drop_last());
    }
}

/// A round that admits its caller makes a lawful admission: a history that is
/// lawful stays lawful when the round's admission is added to it, and the
/// pool that the round leaves behind is the replay of the longer history.
pub proof fn lemma_round_extends_history(
    pool: PoolView,
    history: Seq<Admission>,
    after: PoolView,
    now: nat,
    blocked_at: Option<usize>,
    hold: bool,
    slot: nat,
)
    requires
        lawful(pool, history),
        replay(pool, history).admits(after, now, blocked_at, hold, slot),
    ensures
        lawful(pool, history.push(Admission { at: now, slot, held: hold })),
        replay(pool, history.push(Admission { at: now, slot, held: hold })).window == after.window,
        replay(pool, history.push(Admission { at: now, slot, held: hold })).slots == after.slots,
{
    let longer = history.push(Admission { at: now, slot, held: hold });
    assert(longer.drop_last() =~= history);
}

/// A probe that claims a slot makes a lawful admission too: the claim shows
/// that the slot's window had run out, and what the probe leaves of the slot
/// is what the admission leaves of it in the pool.
pub proof fn lemma_claim_is_admission(
    pool: PoolView,
    index: nat,
    released: bool,
    now: nat,
    hold: bool,
)
    requires
        index < pool.slots.len(),
        pool.slots[index as int].verdict(released, now) is Claim,
    ensures
        pool.admissible(Admission { at: now, slot: index, held: hold }),
        pool.claim(Admission { at: now, slot: index, held: hold }).slots == pool.slots.update(
            index as int,
            pool.slots[index as int].after(
                pool.slots[index as int].verdict(released, now),
                now,
                pool.window,
                hold,
            ),
        ),
{
}

/// Two admissions to one slot lie at least a window apart, every admission
/// names a slot of the pool, and no slot's window ends before a full window
/// has passed since each of its admissions.
pub proof fn lemma_admissions_spaced(pool: PoolView, history: Seq<Admission>)
    requires
        lawful(pool, history),
    ensures
        forall|k: int| 0 <= k < history.len() ==> (#[trigger] history[k]).slot < pool.slots.len(),
        forall|k: int|
            0 <= k < history.len() ==> (#[trigger] history[k]).at + pool.window <= replay(
                pool,
                history,
            ).slots[history[k].slot as int].wait_until,
        forall|p: int, q: int|
            0 <= p < q < history.len() && (#[trigger] history[p]).slot == (
            #[trigger] history[q]).slot ==> history[p].at + pool.window <= history[q].at,
    decreases history.len(),
{
    if history.len() > 0 {
        let earlier = history.drop_last();
        lemma_admissions_spaced(pool, earlier);
        lemma_replay_keeps_shape(pool, earlier);
        assert forall|k: int| 0 <= k < history.len() implies (#[trigger] history[k]).slot
            < pool.slots.len() by {
            if k < earlier.len() {
                assert(history[k] == earlier[k]);
            }
        }
        assert forall|k: int| 0 <= k < history.len() implies (#[trigger] history[k]).at
            + pool.window <= replay(pool, history).slots[history[k].slot as int].wait_until by {
            if k < earlier.len() {
                assert(history[k] == earlier[k]);
            }
        }
        assert forall|p: int, q: int|
            0 <= p < q < history.len() && (#[trigger] history[p]).slot == (
            #[trigger] history[q]).slot implies history[p].at + pool.window <= history[q].at by {
            assert(history[p] == earlier[p]);
            if q < earlier.len() {
                assert(history[q] == earlier[q]);
            }
        }
    }
}

/// The capacity bound. Whatever rounds a pool has gone through, and at
/// whatever instants, any stretch of time as long as the pool's window, taken
/// from its first instant up to but not including the instant one window
/// later, holds at most as many admissions as the pool has slots.
pub proof fn lemma_capacity_bound(pool: PoolView, history: Seq<Admission>, start: nat)
    requires
        lawful(pool, history),
    ensures
        admitted_within(history, start, pool.window).finite(),
        admitted_within(history, start, pool.window).len() <= pool.slots.len(),
{
    let hits = admitted_within(history, start, pool.window);
    let slot_of = |k: int| history[k].slot as int;
    let claimed = hits.map(slot_of);
    let positions = set_int_range(0, history.len() as int);
    let slots = set_int_range(0, pool.slots.len() as int);
    lemma_admissions_spaced(pool, history);
    lemma_int_range(0, history.len() as int);
    lemma_int_range(0, pool.slots.len() as int);
    lemma_len_subset(hits, positions);
    assert(injective_on(slot_of, hits)) by {
        assert forall|p: int, q: int|
            hits.contains(p) && hits.contains(q) && #[trigger] slot_of(p) == #[trigger] slot_of(
                q,
            ) implies p == q by {
            if p < q {
                assert(history[p].at + pool.window <= history[q].at);
            } else if q < p {
                assert(history[q].at + pool.window <= history[p].at);
            }
        }
    }
    lemma_map_size(hits, claimed, slot_of);
    assert(claimed.subset_of(slots)) by {
        assert forall|s: int| claimed.contains(s) implies slots.contains(s) by {
            let k = choose|k: int| hits.contains(k) && slot_of(k) == s;
            assert(history[k].slot < pool.slots.len());
        }
    }
    lemma_len_subset(claimed, slots);
}

} // verus!
