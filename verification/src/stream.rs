//! Pacing a lazy sequence: one admission, then one item.
//!
//! [`Throttled`] is the state of a paced sequence between two polls. It does
//! not wait and it does not produce: its driver starts and polls the
//! admission, polls the inner sequence, and reports what came of it. The
//! machine answers each report with the next thing to do, so that one item's
//! admission and production never overlap with the next item's.

use vstd::prelude::*;

verus! {

/// Where a paced sequence stands.
#[derive(Clone, Copy, Debug, PartialEq, Eq, Structural)]
pub enum State {
    /// Nothing is in flight: no poll has come yet, or the last one gave an item.
    Idle,
    /// An admission is in flight.
    Acquiring,
    /// The admission was granted and the inner sequence is being polled.
    Producing,
    /// The inner sequence has ended. Nothing follows this state.
    Finished,
}

/// What the driver reports to the machine.
#[derive(Clone, Copy, Debug, PartialEq, Eq, Structural)]
pub enum Event {
    /// The consumer polls the sequence.
    Polled,
    /// The admission in flight is not granted yet.
    AdmissionPending,
    /// The admission in flight is granted.
    AdmissionGranted,
    /// The inner sequence has no item ready yet.
    InnerPending,
    /// The inner sequence produced an item.
    InnerItem,
    /// The inner sequence has ended.
    InnerEnded,
}

/// What the machine asks of its driver.
#[derive(Clone, Copy, Debug, PartialEq, Eq, Structural)]
pub enum Action {
    /// Start a new admission with the pool, poll it and report.
    StartAdmission,
    /// Poll the admission in flight and report.
    PollAdmission,
    /// Drop the granted admission, poll the inner sequence and report.
    PollInner,
    /// Tell the consumer that nothing is ready yet.
    Suspend,
    /// Hand the item that the inner sequence produced to the consumer.
    Emit,
    /// Tell the consumer that the sequence has ended.
    Finish,
}

/// The state that follows `state` on `event`, and what the driver is to do.
///
/// A report that answers nothing the machine has asked for changes nothing:
/// the machine asks again for what it is waiting for.
pub open spec fn transition(state: State, event: Event) -> (State, Action) {
    match state {
        State::Idle => (State::Acquiring, Action::StartAdmission),
        State::Acquiring => match event {
            Event::AdmissionGranted => (State::Producing, Action::PollInner),
            Event::AdmissionPending => (State::Acquiring, Action::Suspend),
            _ => (State::Acquiring, Action::PollAdmission),
        },
        State::Producing => match event {
            Event::InnerItem => (State::Idle, Action::Emit),
            Event::InnerEnded => (State::Finished, Action::Finish),
            Event::InnerPending => (State::Producing, Action::Suspend),
            _ => (State::Producing, Action::PollInner),
        },
        State::Finished => (State::Finished, Action::Finish),
    }
}

/// The state that a machine in `state` reaches through `events`, in order.
pub open spec fn run(state: State, events: Seq<Event>) -> State
    decreases events.len(),
{
    if events.len() == 0 {
        state
    } else {
        transition(run(state, events.drop_last()), events.last()).0
    }
}

/// The state of a paced sequence between two polls.
#[must_use]
pub struct Throttled {
    state: State,
}

impl View for Throttled {
    type V = State;

    closed spec fn view(&self) -> State {
        self.state
    }
}

impl Throttled {
    /// A paced sequence that has not been polled yet.
    pub fn new() -> (paced: Self)
        ensures
            paced@ == State::Idle,
    {
        Throttled { state: State::Idle }
    }

    /// Where the sequence stands.
    pub fn state(&self) -> (state: State)
        ensures
            state == self@,
    {
        self.state
    }

    /// Takes the driver's report and says what to do next.
    ///
    /// A poll of an idle sequence starts an admission; only a granted
    /// admission leads to a poll of the inner sequence; an item leaves the
    /// sequence idle again, and the end of the inner sequence finishes it for
    /// good. A new admission is started from the idle state only, so at most
    /// one is in flight, and a finished sequence starts none.
    pub fn poll_next(&mut self, event: Event) -> (action: Action)
        ensures
            (final(self)@, action) == transition(old(self)@, event),
            action is StartAdmission <==> old(self)@ is Idle,
            old(self)@ is Finished ==> final(self)@ is Finished && action is Finish,
    {
        let (next, action) = match self.state {
            State::Idle => (State::Acquiring, Action::StartAdmission),
            State::Acquiring => match event {
                Event::AdmissionGranted => (State::Producing, Action::PollInner),
                Event::AdmissionPending => (State::Acquiring, Action::Suspend),
                _ => (State::Acquiring, Action::PollAdmission),
            },
            State::Producing => match event {
                Event::InnerItem => (State::Idle, Action::Emit),
                Event::InnerEnded => (State::Finished, Action::Finish),
                Event::InnerPending => (State::Producing, Action::Suspend),
                _ => (State::Producing, Action::PollInner),
            },
            State::Finished => (State::Finished, Action::Finish),
        };
        self.state = next;
        action
    }
}

/// A finished sequence stays finished: whatever is reported to it, and
/// however often, it answers by telling the consumer that the sequence has
/// ended, and it starts no admission.
pub proof fn lemma_finished_is_terminal(events: Seq<Event>)
    ensures
        run(State::Finished, events) == State::Finished,
        forall|event: Event|
            #[trigger] transition(run(State::Finished, events), event).1 == Action::Finish,
    decreases events.len(),
{
    if events.len() > 0 {
        lemma_finished_is_terminal(events.drop_last());
    }
}

/// One thing at a time: while an admission is in flight the machine neither
/// starts another nor asks for the inner sequence to be polled, unless the
/// admission was granted; and while the inner sequence is being polled it
/// starts no admission.
pub proof fn lemma_one_in_flight(state: State, event: Event)
    ensures
        state is Acquiring ==> !(transition(state, event).1 is StartAdmission),
        state is Acquiring && !(event is AdmissionGranted) ==> !(transition(
            state,
            event,
        ).1 is PollInner),
        state is Producing ==> !(transition(state, event).1 is StartAdmission) && !(transition(
            state,
            event,
        ).1 is PollAdmission),
        transition(state, event).1 is Emit ==> state is Producing && event is InnerItem,
{
}

} // verus!
