//! One admission slot, and the handle that keeps a slot held.
//!
//! A slot is claimed for one window at a time. A claim made "with hold" also
//! leaves a marker on the slot: the receiving end of a one-shot channel whose
//! sending end travels in the [`HoldHandle`]. The slot can be claimed again
//! only after its window has run out and the handle is gone.

use futures::channel::oneshot::{Canceled, Receiver, Sender};
use vstd::prelude::*;

verus! {

/// `futures::channel::oneshot::Receiver`, the end of a one-shot channel that a
/// held slot keeps. Nothing inside it is visible to a contract.
#[verifier::external_type_specification]
#[verifier::external_body]
#[verifier::reject_recursive_types(T)]
pub struct ExReceiver<T>(Receiver<T>);

/// `futures::channel::oneshot::Sender`, the end of a one-shot channel that a
/// [`HoldHandle`] carries. Nothing inside it is visible to a contract.
#[verifier::external_type_specification]
#[verifier::external_body]
#[verifier::reject_recursive_types(T)]
pub struct ExSender<T>(Sender<T>);

/// `futures::channel::oneshot::Canceled`, the error a receiver reports once
/// its sender has been dropped.
#[verifier::external_type_specification]
#[verifier::external_body]
pub struct ExCanceled(Canceled);

/// `futures::channel::oneshot::channel` makes a fresh pair of connected ends.
/// It takes nothing and cannot fail; nothing is claimed of the pair.
pub assume_specification<T>[ futures::channel::oneshot::channel::<T> ]() -> (ends: (
    Sender<T>,
    Receiver<T>,
));

/// `Receiver::try_recv` looks, without waiting, whether the sender has sent or
/// has been dropped. The answer depends on what the sender's owner has done in
/// the meantime, so nothing is claimed of it.
pub assume_specification<T>[ Receiver::<T>::try_recv ](rx: &mut Receiver<T>) -> (got: Result<
    Option<T>,
    Canceled,
>);

/// What a contract can say of a slot.
pub struct SlotView {
    /// The instant from which the slot may be claimed again.
    pub wait_until: nat,
    /// Whether a hold marker sits on the slot.
    pub held: bool,
}

impl SlotView {
    /// The slot's window has run out at `now`.
    pub open spec fn expired(self, now: nat) -> bool {
        self.wait_until <= now
    }

    /// The slot can be claimed at `now` whatever any handle's owner does: its
    /// window has run out and nothing holds it.
    pub open spec fn vacant(self, now: nat) -> bool {
        self.expired(now) && !self.held
    }

    /// How long after `now` the slot's window runs out; zero once it has.
    pub open spec fn remaining(self, now: nat) -> nat {
        if self.wait_until > now {
            (self.wait_until - now) as nat
        } else {
            0
        }
    }

    /// A slot freshly claimed at `now` for one `window`.
    pub open spec fn claimed(now: nat, window: nat, held: bool) -> SlotView {
        SlotView { wait_until: now + window, held }
    }

    /// What probing the slot at `now` yields, where `released` says whether
    /// its hold marker, if it has one, reports that the handle is gone.
    pub open spec fn verdict(self, released: bool, now: nat) -> Verdict {
        if !self.expired(now) {
            Verdict::Wait((self.wait_until - now) as u64)
        } else if self.held && !released {
            Verdict::Held
        } else {
            Verdict::Claim
        }
    }

    /// The slot after a probe at `now` that yielded `verdict`: claimed anew on
    /// `Claim`, untouched otherwise.
    pub open spec fn after(self, verdict: Verdict, now: nat, window: nat, hold: bool) -> SlotView {
        if verdict is Claim {
            SlotView::claimed(now, window, hold)
        } else {
            self
        }
    }
}

/// What one probe of one slot yields during a scan round.
#[derive(Clone, Copy, Debug, PartialEq, Eq, Structural)]
pub enum Verdict {
    /// The slot was free and now belongs to the caller.
    Claim,
    /// The slot's window has run out but a handle still holds it.
    Held,
    /// The slot is occupied for this many more nanoseconds.
    Wait(u64),
    /// The slot's lock was taken by another task; its state is unknown.
    Contended,
}

impl Verdict {
    /// Whether the scan round ends with this probe.
    pub open spec fn spec_ends_round(self) -> bool {
        self is Claim || self is Contended
    }

    /// The sleep a round proposes after this probe, given the sleep it
    /// proposed before: the least wait seen so far, and none at all once a
    /// slot was held or contended.
    pub open spec fn spec_sleep_after(self, sleep: u64) -> u64 {
        match self {
            Verdict::Wait(wait) => if wait < sleep {
                wait
            } else {
                sleep
            },
            Verdict::Claim => sleep,
            Verdict::Held => 0,
            Verdict::Contended => 0,
        }
    }

    /// Whether the scan round ends with this probe: it does once a slot is
    /// claimed, and when a slot's lock could not be had.
    #[verifier::when_used_as_spec(spec_ends_round)]
    pub fn ends_round(self) -> (ends: bool)
        ensures
            ends == self.spec_ends_round(),
    {
        match self {
            Verdict::Claim => true,
            Verdict::Contended => true,
            Verdict::Held => false,
            Verdict::Wait(_) => false,
        }
    }

    /// The sleep to propose after this probe, given the proposal so far.
    #[verifier::when_used_as_spec(spec_sleep_after)]
    pub fn sleep_after(self, sleep: u64) -> (next: u64)
        ensures
            next == self.spec_sleep_after(sleep),
    {
        match self {
            Verdict::Wait(wait) => if wait < sleep {
                wait
            } else {
                sleep
            },
            Verdict::Claim => sleep,
            Verdict::Held => 0,
            Verdict::Contended => 0,
        }
    }
}

/// Decides what a probe at `now` yields for a slot whose window ends at
/// `wait_until`, which carries a hold marker iff `held`, and whose marker
/// reports a gone handle iff `released`.
///
/// An occupied slot is never claimed, and neither is a slot that is still
/// held, however long ago its window ran out.
pub fn decide(wait_until: u64, held: bool, released: bool, now: u64) -> (verdict: Verdict)
    ensures
        verdict == (SlotView { wait_until: wait_until as nat, held }).verdict(released, now as nat),
        held && !released ==> !(verdict is Claim),
        wait_until > now ==> !(verdict is Claim),
{
    if wait_until > now {
        Verdict::Wait(wait_until - now)
    } else if held && !released {
        Verdict::Held
    } else {
        Verdict::Claim
    }
}

/// One admission slot: the instant at which it can be claimed again, and the
/// hold marker of the claim that holds it, if any.
#[derive(Debug)]
pub struct Slot {
    wait_until: u64,
    hold: Option<Receiver<()>>,
}

impl View for Slot {
    type V = SlotView;

    closed spec fn view(&self) -> SlotView {
        SlotView { wait_until: self.wait_until as nat, held: self.hold.is_some() }
    }
}

impl Slot {
    /// A slot that nobody has claimed yet: it is vacant at every instant.
    pub fn new() -> (slot: Slot)
        ensures
            slot@ == (SlotView { wait_until: 0, held: false }),
    {
        Slot { wait_until: 0, hold: None }
    }

    /// The instant from which the slot may be claimed again.
    pub fn wait_until(&self) -> (at: u64)
        ensures
            at == self@.wait_until,
    {
        self.wait_until
    }

    /// Whether a hold marker sits on the slot.
    pub fn is_held(&self) -> (held: bool)
        ensures
            held == self@.held,
    {
        self.hold.is_some()
    }

    /// Asks the slot's hold marker whether its handle is gone. A slot without
    /// a marker has no handle to be gone.
    fn observe_release(&mut self) -> (released: bool)
        ensures
            final(self)@ == old(self)@,
            !old(self)@.held ==> !released,
    {
        match &mut self.hold {
            Some(marker) => {
                let got = marker.try_recv();
                got.is_err()
            },
            None => false,
        }
    }

    /// Probes the slot at `now` on behalf of a caller that wants it for one
    /// `window`, with a hold iff `hold`, and claims it if it is free.
    ///
    /// A vacant slot is always claimed, an occupied one never. A slot whose
    /// window has run out but which carries a hold marker is claimed iff the
    /// marker reports that its handle is gone, which only the handle's owner
    /// decides. A claim restarts the window at `now`, replaces the marker by
    /// the new claim's, or by none, and hands out a handle iff `hold`.
    pub fn visit(&mut self, now: u64, window: u64, hold: bool) -> (probe: (
        Verdict,
        Option<HoldHandle>,
    ))
        requires
            now + window <= u64::MAX,
        ensures
            probe.0 == old(self)@.verdict(false, now as nat) || probe.0 == old(self)@.verdict(
                true,
                now as nat,
            ),
            old(self)@.vacant(now as nat) ==> probe.0 is Claim,
            probe.0 matches Verdict::Wait(wait) ==> wait == old(self)@.remaining(now as nat),
            final(self)@ == old(self)@.after(probe.0, now as nat, window as nat, hold),
            probe.1 is Some <==> probe.0 is Claim && hold,
    {
        let held = self.hold.is_some();
        let released = if held && self.wait_until <= now {
            self.observe_release()
        } else {
            false
        };
        let verdict = decide(self.wait_until, held, released, now);
        match verdict {
            Verdict::Claim => {
                self.wait_until = now + window;
                if hold {
                    let (tx, rx) = futures::channel::oneshot::channel::<()>();
                    self.hold = Some(rx);
                    (verdict, Some(HoldHandle { tx: Some(tx) }))
                } else {
                    self.hold = None;
                    (verdict, None)
                }
            },
            _ => (verdict, None),
        }
    }
}

/// Keeps a slot held for as long as it lives.
///
/// Releasing the handle, or just dropping it, lets the slot be claimed again
/// once its window has run out.
pub struct HoldHandle {
    tx: Option<Sender<()>>,
}

impl HoldHandle {
    /// Ends the hold. The slot keeps its window, and the next probe after the
    /// window has run out finds the slot free.
    pub fn release(self) {
        let mut handle = self;
        let _ = handle.tx.take();
    }
}

} // verus!
