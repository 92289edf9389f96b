//! Decisions of the process supervisor: the stdin slot that is closed once, and the steps of a
//! graceful stop that falls back to a forced kill.

use vstd::prelude::*;

verus! {

/// A value that can be taken out once; later takes find nothing.
pub struct TakeOnce<T> {
    item: Option<T>,
}

impl<T> View for TakeOnce<T> {
    type V = Option<T>;

    closed spec fn view(&self) -> Option<T> {
        self.item
    }
}

/// What a take hands out, and what the slot holds afterwards.
pub open spec fn take_spec<T>(slot: Option<T>) -> (Option<T>, Option<T>) {
    (slot, None)
}

impl<T> TakeOnce<T> {
    /// A slot holding `item`.
    pub fn new(item: T) -> (r: Self)
        ensures
            r@ == Some(item),
    {
        TakeOnce { item: Some(item) }
    }

    /// Takes the value out, leaving the slot empty. `None` when it was already taken.
    pub fn take(&mut self) -> (r: Option<T>)
        ensures
            (r, final(self)@) == take_spec(old(self)@),
    {
        self.item.take()
    }

    /// Whether the value is still there.
    pub fn is_present(&self) -> (r: bool)
        ensures
            r == self@ is Some,
    {
        self.item.is_some()
    }
}

/// A second take of the slot hands out nothing and leaves it as it was: the value is released
/// at most once.
pub proof fn lemma_take_twice<T>(slot: Option<T>)
    ensures
        ({
            let (first, after_first) = take_spec(slot);
            let (second, after_second) = take_spec(after_first);
            first == slot && second is None && after_second == after_first
        }),
{
}

/// How a stop ended.
#[derive(Clone, Copy, Debug, PartialEq, Eq, Structural)]
pub enum StopOutcome {
    /// The process exited within the timeout after its stdin was closed.
    Graceful,
    /// The process outlived the timeout, was killed and has exited.
    Killed,
    /// The forced kill failed: the process may still run.
    KillFailed,
}

/// Where a stop stands.
#[derive(Clone, Copy, Debug, PartialEq, Eq, Structural)]
pub enum StopPhase {
    /// Nothing done yet.
    Start,
    /// Waiting for the stdin slot to be taken and closed.
    Closing,
    /// Waiting, with the timeout, for the process to exit.
    Waiting,
    /// Waiting for the forced kill to complete.
    Killing,
    /// Waiting for the killed process to exit.
    Reaping,
    /// The stop is over.
    Finished(StopOutcome),
}

/// What the driver of a stop has observed.
#[derive(Clone, Copy, Debug, PartialEq, Eq, Structural)]
pub enum StopEvent {
    /// The stop was asked for.
    Begin,
    /// The stdin slot was taken; `was_present` is false when an earlier stop had taken it.
    StdinTaken { was_present: bool },
    /// The process has exited.
    Exited,
    /// The timeout elapsed before the process exited.
    TimedOut,
    /// The forced kill was delivered.
    KillSucceeded,
    /// The forced kill failed.
    KillFailed,
}

/// What the driver must do next.
#[derive(Clone, Copy, Debug, PartialEq, Eq, Structural)]
pub enum StopAction {
    /// Take the stdin slot and close the writer, if any, so that the process exits on its own.
    CloseStdin,
    /// Wait for the process to exit, at most for the timeout.
    WaitWithTimeout,
    /// Kill the process.
    Kill,
    /// Wait for the process to exit, without a limit.
    WaitExit,
    /// Return to the caller.
    Finish(StopOutcome),
}

/// The state of one stop: its phase, how many kills it has asked for, and whether the process
/// has been seen to exit.
#[derive(Clone, Copy, Debug, PartialEq, Eq, Structural)]
pub struct StopState {
    pub phase: StopPhase,
    pub kills: u8,
    pub exited: bool,
}

pub open spec fn initial_stop() -> StopState {
    StopState { phase: StopPhase::Start, kills: 0, exited: false }
}

/// The next state and the action for `event`; an event that does not fit the phase is ignored.
pub open spec fn stop_next(s: StopState, event: StopEvent) -> (StopState, Option<StopAction>) {
    match (s.phase, event) {
        (StopPhase::Start, StopEvent::Begin) => (
            StopState { phase: StopPhase::Closing, ..s },
            Some(StopAction::CloseStdin),
        ),
        (StopPhase::Closing, StopEvent::StdinTaken { .. }) => (
            StopState { phase: StopPhase::Waiting, ..s },
            Some(StopAction::WaitWithTimeout),
        ),
        (StopPhase::Waiting, StopEvent::Exited) => (
            StopState { phase: StopPhase::Finished(StopOutcome::Graceful), exited: true, ..s },
            Some(StopAction::Finish(StopOutcome::Graceful)),
        ),
        (StopPhase::Waiting, StopEvent::TimedOut) => (
            StopState { phase: StopPhase::Killing, kills: (s.kills + 1) as u8, ..s },
            Some(StopAction::Kill),
        ),
        (StopPhase::Killing, StopEvent::KillSucceeded) => (
            StopState { phase: StopPhase::Reaping, ..s },
            Some(StopAction::WaitExit),
        ),
        (StopPhase::Killing, StopEvent::KillFailed) => (
            StopState { phase: StopPhase::Finished(StopOutcome::KillFailed), ..s },
            Some(StopAction::Finish(StopOutcome::KillFailed)),
        ),
        (StopPhase::Reaping, StopEvent::Exited) => (
            StopState { phase: StopPhase::Finished(StopOutcome::Killed), exited: true, ..s },
            Some(StopAction::Finish(StopOutcome::Killed)),
        ),
        _ => (s, None),
    }
}

/// The state after the events, from `s`.
pub open spec fn stop_run(s: StopState, events: Seq<StopEvent>) -> StopState
    decreases events.len(),
{
    if events.len() == 0 {
        s
    } else {
        stop_next(stop_run(s, events.drop_last()), events.last()).0
    }
}

/// The facts that hold in every state that a stop reaches.
pub open spec fn stop_invariant(s: StopState) -> bool {
    &&& s.kills <= 1
    &&& (s.phase == StopPhase::Start || s.phase == StopPhase::Closing || s.phase
        == StopPhase::Waiting) ==> s.kills == 0 && !s.exited
    &&& (s.phase == StopPhase::Killing || s.phase == StopPhase::Reaping) ==> s.kills == 1
        && !s.exited
    &&& s.phase == StopPhase::Finished(StopOutcome::Graceful) ==> s.kills == 0 && s.exited
    &&& s.phase == StopPhase::Finished(StopOutcome::Killed) ==> s.kills == 1 && s.exited
    &&& s.phase == StopPhase::Finished(StopOutcome::KillFailed) ==> s.kills == 1 && !s.exited
}

impl StopState {
    /// A stop that has not begun.
    pub fn new() -> (r: Self)
        ensures
            r == initial_stop(),
    {
        StopState { phase: StopPhase::Start, kills: 0, exited: false }
    }

    /// Records `event` and returns what to do next, `None` when the event does not fit the phase.
    pub fn step(&mut self, event: StopEvent) -> (r: Option<StopAction>)
        requires
            stop_invariant(*old(self)),
        ensures
            (*final(self), r) == stop_next(*old(self), event),
            stop_invariant(*final(self)),
    {
        match (self.phase, event) {
            (StopPhase::Start, StopEvent::Begin) => {
                self.phase = StopPhase::Closing;
                Some(StopAction::CloseStdin)
            },
            (StopPhase::Closing, StopEvent::StdinTaken { .. }) => {
                self.phase = StopPhase::Waiting;
                Some(StopAction::WaitWithTimeout)
            },
            (StopPhase::Waiting, StopEvent::Exited) => {
                self.phase = StopPhase::Finished(StopOutcome::Graceful);
                self.exited = true;
                Some(StopAction::Finish(StopOutcome::Graceful))
            },
            (StopPhase::Waiting, StopEvent::TimedOut) => {
                self.phase = StopPhase::Killing;
                self.kills = self.kills + 1;
                Some(StopAction::Kill)
            },
            (StopPhase::Killing, StopEvent::KillSucceeded) => {
                self.phase = StopPhase::Reaping;
                Some(StopAction::WaitExit)
            },
            (StopPhase::Killing, StopEvent::KillFailed) => {
                self.phase = StopPhase::Finished(StopOutcome::KillFailed);
                Some(StopAction::Finish(StopOutcome::KillFailed))
            },
            (StopPhase::Reaping, StopEvent::Exited) => {
                self.phase = StopPhase::Finished(StopOutcome::Killed);
                self.exited = true;
                Some(StopAction::Finish(StopOutcome::Killed))
            },
            _ => None,
        }
    }
}

/// Every state that a stop reaches from its start meets the invariant.
pub proof fn lemma_stop_invariant(events: Seq<StopEvent>)
    ensures
        stop_invariant(stop_run(initial_stop(), events)),
    decreases events.len(),
{
    if events.len() > 0 {
        lemma_stop_invariant(events.drop_last());
    }
}

/// A stop in which the timeout never elapses asks for no kill.
pub proof fn lemma_no_kill_without_timeout(events: Seq<StopEvent>)
    requires
        forall|i: int| 0 <= i < events.len() ==> events[i] != StopEvent::TimedOut,
    ensures
        stop_run(initial_stop(), events).kills == 0,
    decreases events.len(),
{
    if events.len() > 0 {
        lemma_no_kill_without_timeout(events.drop_last());
    }
}

/// A stop asks for at most one kill; once the timeout elapses in the wait, exactly one; it
/// only reports success after the process has been seen to exit, and a failed kill is reported.
pub proof fn lemma_kill_once_then_exit(events: Seq<StopEvent>)
    ensures
        ({
            let s = stop_run(initial_stop(), events);
            &&& s.kills <= 1
            &&& (s.phase == StopPhase::Killing || s.phase == StopPhase::Reaping
                || s.phase == StopPhase::Finished(StopOutcome::Killed) || s.phase
                == StopPhase::Finished(StopOutcome::KillFailed)) ==> s.kills == 1
            &&& s.phase == StopPhase::Finished(StopOutcome::Killed) ==> s.exited
            &&& s.phase == StopPhase::Finished(StopOutcome::Graceful) ==> s.exited && s.kills == 0
        }),
{
    lemma_stop_invariant(events);
}

} // verus!
