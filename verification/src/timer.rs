//! The timer state machine.
//!
//! A timer's shared state is two sticky flags. A poll of an idle timer arms
//! it (the caller must then spawn the one worker); the worker's commit fires
//! it; a fired timer reports ready forever after. The executable methods
//! below are the serialized touches of the shared state, in the order a
//! surrounding lock admits them, and the spec functions `step`, `run` and
//! `spawn_count` say what any history of such touches does.

use std::time::Duration;
use vstd::prelude::*;

verus! {

/// What one poll reports to its caller: the timer has fired, or the caller
/// must suspend and wait for the wake notification.
#[derive(Clone, Copy, Debug, PartialEq, Eq, Structural)]
pub enum PollOutcome {
    Ready,
    Pending,
}

/// The mutable state a timer handle shares with its worker.
///
/// Both flags start out false and each moves to true at most once, never
/// back: `poll_called_already` when the first poll arms the timer, and
/// `timed_out` when the worker commits completion.
#[derive(Clone, Copy, Debug, PartialEq, Eq, Structural)]
pub struct TimerState {
    pub timed_out: bool,
    pub poll_called_already: bool,
}

impl TimerState {
    /// Idle: no poll has happened yet, so no worker exists.
    pub open spec fn is_idle(self) -> bool {
        !self.poll_called_already && !self.timed_out
    }

    /// Armed: a first poll has spawned the worker; the deadline has not
    /// passed yet.
    pub open spec fn is_armed(self) -> bool {
        self.poll_called_already && !self.timed_out
    }

    /// Fired: the worker has committed completion. Terminal.
    pub open spec fn is_fired(self) -> bool {
        self.timed_out
    }

    /// Completion is committed only by a worker, and a worker exists only
    /// once a poll has armed the timer: a fired timer was armed first.
    pub open spec fn inv(self) -> bool {
        self.timed_out ==> self.poll_called_already
    }

    /// Creates the state a fresh timer starts in.
    pub fn new() -> (s: TimerState)
        ensures
            s.is_idle(),
    {
        TimerState { timed_out: false, poll_called_already: false }
    }

    /// One poll of the shared state. Returns what the poll reports, and
    /// whether the caller has just armed the timer and must now spawn the
    /// one worker, handing it the duration and the captured wake callback.
    pub fn poll_step(&mut self) -> (r: (PollOutcome, bool))
        ensures
            r.0 == outcome_of(*old(self)),
            r.1 == spawns(*old(self), TimerEvent::Poll),
            *final(self) == step(*old(self), TimerEvent::Poll),
            old(self).is_idle() ==> final(self).is_armed(),
    {
        if self.timed_out {
            (PollOutcome::Ready, false)
        } else if self.poll_called_already {
            (PollOutcome::Pending, false)
        } else {
            self.poll_called_already = true;
            (PollOutcome::Pending, true)
        }
    }

    /// The worker's commit of completion, made once the duration has
    /// elapsed. The caller must invoke the wake callback only after this
    /// returns, so every poll the wake provokes already sees the flag.
    pub fn fire(&mut self)
        ensures
            *final(self) == step(*old(self), TimerEvent::Fire),
            final(self).is_fired(),
    {
        self.timed_out = true;
    }
}

/// One serialized touch of the shared state, in the order the surrounding
/// lock admits them: a poll by the owning task, or the worker's commit.
#[derive(Clone, Copy, Debug, PartialEq, Eq, Structural)]
pub enum TimerEvent {
    Poll,
    Fire,
}

/// What a poll reports in state `s`.
pub open spec fn outcome_of(s: TimerState) -> PollOutcome {
    if s.timed_out {
        PollOutcome::Ready
    } else {
        PollOutcome::Pending
    }
}

/// Whether the event spawns a worker: only the first poll of an idle timer
/// does.
pub open spec fn spawns(s: TimerState, e: TimerEvent) -> bool {
    e is Poll && s.is_idle()
}

/// The state after one event. A poll of an idle timer arms it; a poll of an
/// armed or fired timer changes nothing; the worker's commit sets
/// `timed_out` and touches nothing else.
pub open spec fn step(s: TimerState, e: TimerEvent) -> TimerState {
    match e {
        TimerEvent::Poll => if s.is_idle() {
            TimerState { poll_called_already: true, ..s }
        } else {
            s
        },
        TimerEvent::Fire => TimerState { timed_out: true, ..s },
    }
}

/// The state after a whole history of events.
pub open spec fn run(s: TimerState, es: Seq<TimerEvent>) -> TimerState
    decreases es.len(),
{
    if es.len() == 0 {
        s
    } else {
        run(step(s, es[0]), es.subrange(1, es.len() as int))
    }
}

/// How many events of the history spawn a worker.
pub open spec fn spawn_count(s: TimerState, es: Seq<TimerEvent>) -> nat
    decreases es.len(),
{
    if es.len() == 0 {
        0
    } else {
        (if spawns(s, es[0]) {
            1nat
        } else {
            0nat
        }) + spawn_count(step(s, es[0]), es.subrange(1, es.len() as int))
    }
}

/// Once a timer is armed or fired it never turns idle again, so no history
/// of polls and commits ever spawns another worker for it.
pub proof fn lemma_no_spawn_once_armed(s: TimerState, es: Seq<TimerEvent>)
    requires
        !s.is_idle(),
    ensures
        spawn_count(s, es) == 0,
        !run(s, es).is_idle(),
    decreases es.len(),
{
    if es.len() != 0 {
        lemma_no_spawn_once_armed(step(s, es[0]), es.subrange(1, es.len() as int));
    }
}

/// At most one worker is ever spawned for a timer, whatever the history of
/// polls and commits and however many polls it holds — also when polls from
/// several tasks race, since the lock serializes them into one history.
pub proof fn lemma_at_most_one_spawn(s: TimerState, es: Seq<TimerEvent>)
    ensures
        spawn_count(s, es) <= 1,
    decreases es.len(),
{
    if es.len() != 0 {
        if spawns(s, es[0]) {
            lemma_no_spawn_once_armed(step(s, es[0]), es.subrange(1, es.len() as int));
        } else {
            lemma_at_most_one_spawn(step(s, es[0]), es.subrange(1, es.len() as int));
        }
    }
}

/// Once `timed_out` is true it never reverts: after any further history the
/// timer is still fired, every poll of it reports ready at once, and no
/// worker is ever spawned.
pub proof fn lemma_fired_is_sticky(s: TimerState, es: Seq<TimerEvent>)
    requires
        s.is_fired(),
    ensures
        run(s, es).is_fired(),
        outcome_of(run(s, es)) == PollOutcome::Ready,
        spawn_count(s, es) == 0,
    decreases es.len(),
{
    if es.len() != 0 {
        lemma_fired_is_sticky(step(s, es[0]), es.subrange(1, es.len() as int));
    }
}

/// A poll can report ready only after the worker's commit: a history made
/// of polls alone leaves an unfired timer pending. Together with the
/// driver's obligation to commit only once the duration has elapsed, this
/// is why a timer never reports ready early.
pub proof fn lemma_ready_needs_fire(s: TimerState, es: Seq<TimerEvent>)
    requires
        !s.is_fired(),
        forall|i: int| 0 <= i < es.len() ==> es[i] is Poll,
    ensures
        !run(s, es).is_fired(),
        outcome_of(run(s, es)) == PollOutcome::Pending,
    decreases es.len(),
{
    if es.len() != 0 {
        assert(es[0] is Poll);
        assert(forall|i: int|
            0 <= i < es.subrange(1, es.len() as int).len() ==> es.subrange(
                1,
                es.len() as int,
            )[i] is Poll);
        lemma_ready_needs_fire(step(s, es[0]), es.subrange(1, es.len() as int));
    }
}

/// Each event preserves the state invariant, given the one fact the
/// protocol supplies: a commit comes only from a worker, and a worker
/// exists only once a poll has armed the timer. However a timer is driven,
/// a fired timer is one that was armed first.
pub proof fn lemma_inv_preserved(s: TimerState, e: TimerEvent)
    requires
        s.inv(),
        e is Fire ==> s.poll_called_already,
    ensures
        step(s, e).inv(),
{
}

/// The pollable timer handle: the requested duration, owned exclusively,
/// and the state its driver and its worker mutate under one lock.
#[derive(Debug)]
pub struct Timer {
    pub duration: Duration,
    pub state: TimerState,
}

impl Timer {
    /// Creates a new idle `Timer` that is to become ready once `duration`
    /// has elapsed after its first poll.
    pub fn new(duration: Duration) -> (t: Timer)
        ensures
            t.state.is_idle(),
            t.duration == duration,
    {
        Timer { state: TimerState::new(), duration }
    }

    /// Polls the timer: reports `Ready` exactly when the worker has
    /// committed completion, and `Pending` otherwise. The first poll arms
    /// the timer and asks the caller, by the returned flag, to spawn the one
    /// worker; no later poll ever does.
    pub fn poll(&mut self) -> (r: (PollOutcome, bool))
        ensures
            final(self).duration == old(self).duration,
            r.0 == outcome_of(old(self).state),
            r.1 == spawns(old(self).state, TimerEvent::Poll),
            final(self).state == step(old(self).state, TimerEvent::Poll),
            old(self).state.is_idle() ==> final(self).state.is_armed(),
    {
        self.state.poll_step()
    }

    /// The worker's side: commits completion once the duration has elapsed.
    pub fn fire(&mut self)
        ensures
            final(self).duration == old(self).duration,
            final(self).state == step(old(self).state, TimerEvent::Fire),
            final(self).state.is_fired(),
    {
        self.state.fire()
    }
}

/// Returns a pollable value that becomes ready once `duration` has elapsed
/// after its first poll: a free-function alias of [`Timer::new`].
pub fn set_timeout(duration: Duration) -> (t: Timer)
    ensures
        t.state.is_idle(),
        t.duration == duration,
{
    Timer::new(duration)
}

} // verus!
