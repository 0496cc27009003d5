//! Trace events emitted by the stack's operations.
//!
//! Recording is inlined into the hot path behind a no-op default recorder, so
//! instrumentation costs nothing unless a real recorder is supplied.

use vstd::prelude::*;

verus! {

/// One trace point in the life of a push or pop operation.
#[derive(Clone, Copy, Debug, PartialEq, Eq, Structural)]
pub enum Event {
    StartPush,
    StartEliminationArrayPush,
    StartExchangerPush,
    StartPop,
    StartEliminationArrayPop,
    StartExchangerPop,
    TryStack,
    TryEliminationArray,
    FinishPush,
    FinishPop,
}

/// How deep in the layering an event sits: operation start and finish at the
/// surface, layer attempts one level down, the elimination array below that,
/// and the exchangers at the bottom.
pub open spec fn padding_of(e: Event) -> nat {
    match e {
        Event::StartPush => 0,
        Event::StartEliminationArrayPush => 2,
        Event::StartExchangerPush => 3,
        Event::StartPop => 0,
        Event::StartEliminationArrayPop => 2,
        Event::StartExchangerPop => 3,
        Event::TryStack => 1,
        Event::TryEliminationArray => 1,
        Event::FinishPush => 0,
        Event::FinishPop => 0,
    }
}

/// The indentation width used when an event trace is pretty-printed.
pub fn padding(e: &Event) -> (n: usize)
    ensures
        n == padding_of(*e),
{
    match e {
        Event::StartPush => 0,
        Event::StartEliminationArrayPush => 2,
        Event::StartExchangerPush => 3,
        Event::StartPop => 0,
        Event::StartEliminationArrayPop => 2,
        Event::StartExchangerPop => 3,
        Event::TryStack => 1,
        Event::TryEliminationArray => 1,
        Event::FinishPush => 0,
        Event::FinishPop => 0,
    }
}

/// A sink for trace events, called inline on the recording thread.
///
/// A recorder either keeps every event handed to it or none: the no-op
/// default keeps none at zero cost, a real recorder appends each event to
/// its trace.
pub trait EventRecorder {
    /// Whether this recorder retains the events handed to it.
    spec fn keeps() -> bool;

    /// The events this recorder has retained, oldest first.
    spec fn recorded(&self) -> Seq<Event>;

    fn record(&mut self, e: Event)
        ensures
            Self::keeps() ==> final(self).recorded() == old(self).recorded().push(e),
            !Self::keeps() ==> final(self).recorded() == old(self).recorded(),
    ;
}

/// The default recorder: drops every event.
pub struct NoOpRecorder {}

impl EventRecorder for NoOpRecorder {
    open spec fn keeps() -> bool {
        false
    }

    open spec fn recorded(&self) -> Seq<Event> {
        Seq::empty()
    }

    fn record(&mut self, _event: Event) {
    }
}

impl EventRecorder for Vec<Event> {
    open spec fn keeps() -> bool {
        true
    }

    open spec fn recorded(&self) -> Seq<Event> {
        self@
    }

    fn record(&mut self, event: Event)
        ensures
            final(self)@ == old(self)@.push(event),
    {
        self.push(event);
    }
}

} // verus!
