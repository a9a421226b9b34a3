//! How the socket's two units, the signalling loop and the message loop,
//! resolve into one outcome. The driver awaits the units and reports each
//! completion here; what follows from a completion is decided here.

use vstd::prelude::*;

verus! {

/// How far the race between the two units has come.
#[derive(Clone, Copy, Debug, PartialEq, Eq, Structural)]
pub enum Phase {
    /// Neither unit has completed: both are awaited.
    Racing,
    /// The signalling loop has ended cleanly: the message loop alone is
    /// awaited.
    MessageLoopOnly,
    /// The outcome is decided: nothing is awaited.
    Resolved,
}

/// What the driver reports.
#[derive(Debug)]
pub enum Completion<E> {
    /// The message loop ran to its end.
    MessageLoop,
    /// The signalling loop ended, cleanly or with its error.
    Signalling(Result<(), E>),
    /// No unit is left that could still complete.
    Exhausted,
}

/// Whether `event` can follow in `phase`. A unit completes once: after its
/// completion it is not awaited, and a further report of it counts for
/// nothing.
pub open spec fn counts<E>(phase: Phase, event: Completion<E>) -> bool {
    match (phase, event) {
        (Phase::Resolved, _) => false,
        (Phase::MessageLoopOnly, Completion::Signalling(_)) => false,
        _ => true,
    }
}

/// The outcome that `event` decides in `phase`, if it decides one.
///
/// The end of the message loop is the end of the socket, and a success. An
/// error of the signalling loop is the error of the socket, whatever the
/// message loop is doing. A clean end of the signalling loop decides
/// nothing. Where no unit is left, the socket ends with a success.
pub open spec fn verdict<E>(phase: Phase, event: Completion<E>) -> Option<Result<(), E>> {
    if !counts(phase, event) {
        None
    } else {
        match event {
            Completion::MessageLoop => Some(Ok(())),
            Completion::Signalling(Err(error)) => Some(Err(error)),
            Completion::Signalling(Ok(())) => None,
            Completion::Exhausted => Some(Ok(())),
        }
    }
}

/// The phase that follows `phase` on `event`.
pub open spec fn next_phase<E>(phase: Phase, event: Completion<E>) -> Phase {
    if !counts(phase, event) {
        phase
    } else if verdict(phase, event) is Some {
        Phase::Resolved
    } else {
        Phase::MessageLoopOnly
    }
}

/// The phase that a fresh orchestrator has reached after `events`.
pub open spec fn phase_after<E>(events: Seq<Completion<E>>) -> Phase
    decreases events.len(),
{
    if events.len() == 0 {
        Phase::Racing
    } else {
        next_phase(phase_after(events.drop_last()), events.last())
    }
}

/// The outcome that a fresh orchestrator has decided after `events`, if any.
pub open spec fn outcome_after<E>(events: Seq<Completion<E>>) -> Option<Result<(), E>>
    decreases events.len(),
{
    if events.len() == 0 {
        None
    } else {
        match outcome_after(events.drop_last()) {
            Some(outcome) => Some(outcome),
            None => verdict(phase_after(events.drop_last()), events.last()),
        }
    }
}

/// Decides, completion by completion, how the socket ends.
#[derive(Debug)]
pub struct Orchestrator {
    phase: Phase,
}

impl View for Orchestrator {
    type V = Phase;

    closed spec fn view(&self) -> Phase {
        self.phase
    }
}

impl Orchestrator {
    /// An orchestrator whose two units are both still running.
    pub fn new() -> (orchestrator: Self)
        ensures
            orchestrator@ == Phase::Racing,
    {
        Orchestrator { phase: Phase::Racing }
    }

    /// The phase that the race has reached.
    pub fn phase(&self) -> (phase: Phase)
        ensures
            phase == self@,
    {
        self.phase
    }

    /// Whether the driver is to await the signalling loop.
    pub fn awaits_signalling(&self) -> (awaited: bool)
        ensures
            awaited == (self@ == Phase::Racing),
    {
        self.phase == Phase::Racing
    }

    /// Whether the driver is to await the message loop.
    pub fn awaits_message_loop(&self) -> (awaited: bool)
        ensures
            awaited == (self@ != Phase::Resolved),
    {
        self.phase != Phase::Resolved
    }

    /// Takes note of `event`. Returns the outcome of the socket if `event`
    /// decides it, and `None` while the driver is to go on.
    pub fn on_completion<E>(&mut self, event: Completion<E>) -> (outcome: Option<Result<(), E>>)
        ensures
            outcome == verdict(old(self)@, event),
            final(self)@ == next_phase(old(self)@, event),
    {
        match self.phase {
            Phase::Resolved => None,
            Phase::MessageLoopOnly => match event {
                Completion::Signalling(_) => None,
                _ => {
                    self.phase = Phase::Resolved;
                    Some(Ok(()))
                },
            },
            Phase::Racing => match event {
                Completion::Signalling(Ok(())) => {
                    self.phase = Phase::MessageLoopOnly;
                    None
                },
                Completion::Signalling(Err(error)) => {
                    self.phase = Phase::Resolved;
                    Some(Err(error))
                },
                _ => {
                    self.phase = Phase::Resolved;
                    Some(Ok(()))
                },
            },
        }
    }
}

/// While the outcome is open, the end of the message loop decides it, and it
/// is a success.
pub proof fn lemma_message_loop_ends_socket<E>(phase: Phase)
    requires
        phase != Phase::Resolved,
    ensures
        verdict(phase, Completion::<E>::MessageLoop) == Some(Ok::<(), E>(())),
        next_phase(phase, Completion::<E>::MessageLoop) == Phase::Resolved,
{
}

/// An error of the signalling loop is the outcome at once: the message loop
/// is still running then, and is not waited for.
pub proof fn lemma_signalling_error_is_fatal<E>(error: E)
    ensures
        verdict(Phase::Racing, Completion::Signalling(Err(error))) == Some(Err::<(), E>(error)),
        next_phase(Phase::Racing, Completion::Signalling(Err(error))) == Phase::Resolved,
{
}

/// A clean end of the signalling loop decides nothing: the message loop alone
/// is awaited from then on, and its end is the success of the socket.
pub proof fn lemma_clean_signalling_is_no_shutdown<E>()
    ensures
        verdict(Phase::Racing, Completion::<E>::Signalling(Ok(()))) == None::<Result<(), E>>,
        next_phase(Phase::Racing, Completion::<E>::Signalling(Ok(()))) == Phase::MessageLoopOnly,
        verdict(Phase::MessageLoopOnly, Completion::<E>::MessageLoop) == Some(Ok::<(), E>(())),
{
}

/// Where no unit is left to await while the outcome is open, the outcome is a
/// success.
pub proof fn lemma_exhaustion_is_success<E>(phase: Phase)
    requires
        phase != Phase::Resolved,
    ensures
        verdict(phase, Completion::<E>::Exhausted) == Some(Ok::<(), E>(())),
{
}

/// The outcome is decided exactly when the phase is `Resolved`.
pub proof fn lemma_resolved_iff_decided<E>(events: Seq<Completion<E>>)
    ensures
        outcome_after(events) is Some <==> phase_after(events) == Phase::Resolved,
    decreases events.len(),
{
    if events.len() > 0 {
        lemma_resolved_iff_decided(events.drop_last());
    }
}

/// A socket has one outcome for its whole life: once decided, no further
/// completion changes it.
pub proof fn lemma_outcome_is_final<E>(events: Seq<Completion<E>>, more: Seq<Completion<E>>)
    requires
        outcome_after(events) is Some,
    ensures
        outcome_after(events + more) == outcome_after(events),
    decreases more.len(),
{
    if more.len() == 0 {
        assert(events + more =~= events);
    } else {
        lemma_outcome_is_final(events, more.drop_last());
        assert((events + more).drop_last() =~= events + more.drop_last());
    }
}

/// The only error that a socket ends with is an error that the signalling
/// loop completed with.
pub proof fn lemma_error_comes_from_signalling<E>(events: Seq<Completion<E>>, error: E)
    requires
        outcome_after(events) == Some(Err::<(), E>(error)),
    ensures
        exists|i: int|
            0 <= i < events.len() && #[trigger] events[i] == Completion::Signalling(
                Err::<(), E>(error),
            ),
    decreases events.len(),
{
    if events.len() > 0 {
        let earlier = events.drop_last();
        if outcome_after(earlier) is Some {
            lemma_error_comes_from_signalling(earlier, error);
            let i = choose|i: int|
                0 <= i < earlier.len() && #[trigger] earlier[i] == Completion::Signalling(
                    Err::<(), E>(error),
                );
            assert(events[i] == earlier[i]);
        } else {
            assert(events[events.len() - 1] == Completion::Signalling(Err::<(), E>(error)));
        }
    }
}

} // verus!
