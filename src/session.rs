//! The rules by which the measurement worker keeps going or stops: a session
//! runs until its source closes or its sink goes away, and then stays stopped.

use vstd::prelude::*;

verus! {

/// Where a session stands once it has been started.
#[derive(Debug, Clone, Copy, PartialEq, Eq, Structural)]
pub enum Phase {
    Running,
    /// Final: nothing more is processed.
    Terminated,
}

/// What the worker observed on its channels.
#[derive(Debug, Clone, Copy, PartialEq, Eq, Structural)]
pub enum Event {
    /// A raw sample arrived from the source.
    SampleArrived,
    /// The source was closed: no more samples will arrive.
    SourceClosed,
    /// A reading was handed to the sink.
    ReadingDelivered,
    /// The sink refused a reading: nobody receives readings any more.
    ReadingRefused,
}

/// What the worker does next.
#[derive(Debug, Clone, Copy, PartialEq, Eq, Structural)]
pub enum Action {
    /// Go on: process the sample that arrived, or wait for the next one.
    Continue,
    /// Stop the worker.
    Stop,
}

/// The next phase, and the worker's action, after `e` in phase `p`.
pub open spec fn transition(p: Phase, e: Event) -> (Phase, Action) {
    match (p, e) {
        (Phase::Running, Event::SampleArrived) => (Phase::Running, Action::Continue),
        (Phase::Running, Event::ReadingDelivered) => (Phase::Running, Action::Continue),
        _ => (Phase::Terminated, Action::Stop),
    }
}

/// The phase reached from `p` through the events `es`, in order.
pub open spec fn phase_after(p: Phase, es: Seq<Event>) -> Phase
    decreases es.len(),
{
    if es.len() == 0 {
        p
    } else {
        phase_after(transition(p, es[0]).0, es.drop_first())
    }
}

proof fn lemma_terminated_absorbs(es: Seq<Event>)
    ensures
        phase_after(Phase::Terminated, es) == Phase::Terminated,
    decreases es.len(),
{
    if es.len() > 0 {
        lemma_terminated_absorbs(es.drop_first());
    }
}

/// Once the source is closed, the session is terminated, and stays so
/// whatever happens next: each later event makes the worker stop.
pub proof fn lemma_closed_source_stops(p: Phase, later: Seq<Event>)
    ensures
        transition(p, Event::SourceClosed) == (Phase::Terminated, Action::Stop),
        phase_after(Phase::Terminated, later) == Phase::Terminated,
        forall|i: int|
            0 <= i < later.len() ==> #[trigger] transition(
                phase_after(Phase::Terminated, later.take(i)),
                later[i],
            ) == (Phase::Terminated, Action::Stop),
{
    lemma_terminated_absorbs(later);
    assert forall|i: int| 0 <= i < later.len() implies #[trigger] transition(
        phase_after(Phase::Terminated, later.take(i)),
        later[i],
    ) == (Phase::Terminated, Action::Stop) by {
        lemma_terminated_absorbs(later.take(i));
    }
}

/// Decides the next phase and action after event `e` in phase `p`.
pub fn step(p: Phase, e: Event) -> (r: (Phase, Action))
    ensures
        r == transition(p, e),
{
    match (p, e) {
        (Phase::Running, Event::SampleArrived) => (Phase::Running, Action::Continue),
        (Phase::Running, Event::ReadingDelivered) => (Phase::Running, Action::Continue),
        _ => (Phase::Terminated, Action::Stop),
    }
}

} // verus!
