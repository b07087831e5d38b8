//! Settling the race between the computation's completion and the timeout.
//!
//! One invocation waits for exactly one of three events: the computed value
//! arrives on the completion channel, the timer elapses first, or the channel
//! closes without a value because the worker terminated abnormally. The
//! functions here map that single observed event to the invocation's result
//! and prove that the outcome is fixed by the first event alone, so at most
//! one value is ever delivered.

use vstd::prelude::*;

verus! {

/// The two ways an invocation can fail.
#[derive(Clone, Copy, Debug, PartialEq, Eq, Structural)]
pub enum SpawnError {
    /// The timeout elapsed before the worker produced a result.
    TimeoutExceeded,
    /// The worker terminated without sending a result, so the completion
    /// channel closed with no value.
    ChannelClosed,
}

impl SpawnError {
    /// A human-readable description of the failure.
    pub fn message(&self) -> (r: String)
        ensures
            *self is TimeoutExceeded ==> r@ == "spawn_blocking timeout"@,
            *self is ChannelClosed ==> r@ == "spawn_blocking channel closed"@,
    {
        match self {
            SpawnError::TimeoutExceeded => "spawn_blocking timeout".to_owned(),
            SpawnError::ChannelClosed => "spawn_blocking channel closed".to_owned(),
        }
    }
}

/// The first event the waiting caller observes for one invocation.
pub enum Event<T> {
    /// The computation finished and its value arrived on the channel.
    Completed(T),
    /// The resolved timeout elapsed before any value arrived.
    TimerElapsed,
    /// The channel closed without a value: the sender was dropped before
    /// sending, i.e. the worker terminated abnormally.
    SenderDropped,
}

/// The result an invocation returns for a given observed event.
pub open spec fn outcome_of<T>(e: Event<T>) -> Result<T, SpawnError> {
    match e {
        Event::Completed(v) => Ok(v),
        Event::TimerElapsed => Err(SpawnError::TimeoutExceeded),
        Event::SenderDropped => Err(SpawnError::ChannelClosed),
    }
}

/// Turn the first observed event of an invocation into its result: the
/// computed value exactly as it arrived, or the error naming which of the
/// two failure conditions occurred.
pub fn settle<T>(e: Event<T>) -> (r: Result<T, SpawnError>)
    ensures
        r == outcome_of(e),
        e matches Event::Completed(v) ==> r == Ok::<T, SpawnError>(v),
        e is TimerElapsed ==> r == Err::<T, SpawnError>(SpawnError::TimeoutExceeded),
        e is SenderDropped ==> r == Err::<T, SpawnError>(SpawnError::ChannelClosed),
{
    match e {
        Event::Completed(v) => Ok(v),
        Event::TimerElapsed => Err(SpawnError::TimeoutExceeded),
        Event::SenderDropped => Err(SpawnError::ChannelClosed),
    }
}

/// The lifecycle of one invocation's wait: still waiting for the first
/// event, or settled with its final result.
pub enum WaitState<T> {
    Waiting,
    Done(Result<T, SpawnError>),
}

/// One transition of the wait: the first observed event settles the
/// invocation, and every event after that is ignored, so a late completion
/// or a late timer is a benign no-op.
pub open spec fn next_state<T>(s: WaitState<T>, e: Event<T>) -> WaitState<T> {
    match s {
        WaitState::Waiting => WaitState::Done(outcome_of(e)),
        WaitState::Done(r) => WaitState::Done(r),
    }
}

/// The state an invocation reaches after observing a sequence of events.
pub open spec fn run<T>(s: WaitState<T>, evs: Seq<Event<T>>) -> WaitState<T>
    decreases evs.len(),
{
    if evs.len() == 0 {
        s
    } else {
        run(next_state(s, evs[0]), evs.subrange(1, evs.len() as int))
    }
}

/// Advance the wait by one observed event: settle on the first event, ignore
/// every later one.
pub fn step<T>(s: WaitState<T>, e: Event<T>) -> (r: WaitState<T>)
    ensures
        r == next_state(s, e),
{
    match s {
        WaitState::Waiting => WaitState::Done(settle(e)),
        WaitState::Done(res) => WaitState::Done(res),
    }
}

/// A settled invocation stays settled: no later event changes its result.
pub proof fn lemma_done_is_final<T>(r: Result<T, SpawnError>, evs: Seq<Event<T>>)
    ensures
        run(WaitState::Done(r), evs) == WaitState::Done(r),
    decreases evs.len(),
{
    if evs.len() > 0 {
        lemma_done_is_final(r, evs.subrange(1, evs.len() as int));
    }
}

/// At most one value is delivered per invocation: however many events arrive,
/// the invocation's result is the outcome of the first event alone, so a
/// second delivery attempt changes nothing and causes no error.
pub proof fn lemma_single_delivery<T>(evs: Seq<Event<T>>)
    requires
        evs.len() > 0,
    ensures
        run(WaitState::Waiting, evs) == WaitState::Done(outcome_of(evs[0])),
{
    lemma_done_is_final(outcome_of(evs[0]), evs.subrange(1, evs.len() as int));
}

/// Success path: when the computed value arrives strictly before any other
/// event, the invocation returns success carrying exactly that value,
/// whatever arrives afterwards.
pub proof fn lemma_success_path<T>(v: T, later: Seq<Event<T>>)
    ensures
        run(WaitState::Waiting, seq![Event::Completed(v)] + later) == WaitState::Done(
            Ok::<T, SpawnError>(v),
        ),
{
    let evs = seq![Event::Completed(v)] + later;
    assert(evs[0] == Event::Completed(v));
    lemma_single_delivery(evs);
}

/// Timeout path: when the timer elapses strictly before any value arrives,
/// the invocation fails with the timeout error, regardless of what the
/// computation eventually produces and delivers later.
pub proof fn lemma_timeout_path<T>(later: Seq<Event<T>>)
    ensures
        run(WaitState::Waiting, seq![Event::TimerElapsed] + later) == WaitState::Done(
            Err::<T, SpawnError>(SpawnError::TimeoutExceeded),
        ),
{
    let evs = seq![Event::TimerElapsed] + later;
    assert(evs[0] == Event::TimerElapsed::<T>);
    lemma_single_delivery(evs);
}

} // verus!
