//! An elimination-backoff stack: a LIFO container that composes a head-CAS
//! stack with an elimination array pairing opposing operations, driven by a
//! pluggable per-operation retry strategy.
//!
//! This crate verifies the algorithm's logic over exclusively owned state:
//! the stack layer, the exchanger protocol with its slot state machine, the
//! array dispatch, and the strategies with their bounded retry budgets.

pub mod elimination_array;
pub mod event;
pub mod exchanger;
pub mod strategy;
pub mod treiber_stack;

use core::marker::PhantomData;
use elimination_array::EliminationArray;
use event::{Event, EventRecorder, NoOpRecorder};
use strategy::ExpRetryStrategy;
use treiber_stack::TreiberStack;
use vstd::prelude::*;

verus! {

/// Strategy for push operations: one thread-local object consulted by every
/// layer of a single push.
pub trait PushStrategy: treiber_stack::PushStrategy + elimination_array::PushStrategy {
    /// A fresh strategy for one push operation. It grants the first attempt
    /// at the stack layer: every operation begins there.
    fn new() -> (r: Self) where Self: Sized
        ensures
            r.push_granted(),
    ;

    /// What the next call to `use_elimination_array` answers.
    spec fn elim_push_decision(&self) -> bool;

    /// Decide whether the stack should try eliminating the push operation on
    /// the elimination array next. Is called each time such elimination is
    /// possible. The query does not change the strategy.
    fn use_elimination_array(&mut self) -> (r: bool)
        ensures
            r == old(self).elim_push_decision(),
            *final(self) == *old(self),
    ;
}

/// Strategy for pop operations: one thread-local object consulted by every
/// layer of a single pop.
pub trait PopStrategy: treiber_stack::PopStrategy + elimination_array::PopStrategy {
    /// A fresh strategy for one pop operation. It grants the first attempt
    /// at the stack layer: every operation begins there.
    fn new() -> (r: Self) where Self: Sized
        ensures
            r.pop_granted(),
    ;

    /// What the next call to `use_elimination_array` answers.
    spec fn elim_pop_decision(&self) -> bool;

    /// Decide whether the stack should try eliminating the pop operation on
    /// the elimination array next. Is called each time such elimination is
    /// possible. The query does not change the strategy.
    fn use_elimination_array(&mut self) -> (r: bool)
        ensures
            r == old(self).elim_pop_decision(),
            *final(self) == *old(self),
    ;
}

/// The elimination-backoff stack: the Treiber layer composed with the
/// elimination array, driven by one push strategy and one pop strategy chosen
/// at construction time.
///
/// The view is the stack content from the bottom up: the last element of the
/// sequence is the top. A push appends to it and a pop removes from it, the
/// outcome of `lifo_step`: held exclusively, the composite behaves exactly
/// like a reference last-in-first-out container.
pub struct Stack<T, PushS = ExpRetryStrategy, PopS = ExpRetryStrategy> {
    stack: TreiberStack<T>,
    elimination_array: EliminationArray<T>,
    phantom: PhantomData<(PushS, PopS)>,
}

impl<T, PushS, PopS> View for Stack<T, PushS, PopS> {
    type V = Seq<T>;

    closed spec fn view(&self) -> Seq<T> {
        self.stack@
    }
}

impl<T, PushS, PopS> Stack<T, PushS, PopS> where PushS: PushStrategy, PopS: PopStrategy {
    /// A well-formed stack has a nonempty elimination array with no exchange
    /// left in progress: operations restore the quiescent array before they
    /// return.
    pub closed spec fn wf(&self) -> bool {
        self.elimination_array.wf() && self.elimination_array.all_empty()
    }

    pub fn new() -> (r: Self)
        ensures
            r.wf(),
            r@ == Seq::<T>::empty(),
    {
        Self {
            stack: TreiberStack::new(),
            elimination_array: EliminationArray::new(),
            phantom: PhantomData,
        }
    }

    /// Pushes `item` onto the stack. Never fails: the operation alternates
    /// between the layers until one accepts the value.
    pub fn push(&mut self, item: T)
        requires
            old(self).wf(),
        ensures
            final(self).wf(),
            final(self)@ == old(self)@.push(item),
    {
        let mut recorder = NoOpRecorder {  };
        self.instrumented_push(item, &mut recorder);
    }

    /// `push`, reporting each step to the given recorder: the operation's
    /// start first, its finish last, and a stack attempt announced before it
    /// is made. An array attempt would be announced only after the strategy
    /// agreed to one, which under exclusive access never happens: the first
    /// granted stack attempt cannot be contested, so the trace is exactly
    /// start, one stack attempt, finish.
    pub fn instrumented_push<R: EventRecorder>(&mut self, item: T, recorder: &mut R)
        requires
            old(self).wf(),
        ensures
            final(self).wf(),
            final(self)@ == old(self)@.push(item),
            R::keeps() ==> final(recorder).recorded() == old(recorder).recorded() + seq![
                Event::StartPush,
                Event::TryStack,
                Event::FinishPush,
            ],
            !R::keeps() ==> final(recorder).recorded() == old(recorder).recorded(),
    {
        let ghost rec0 = recorder.recorded();
        recorder.record(Event::StartPush);
        let mut strategy = PushS::new();
        let ghost pushed = item;
        let ghost view0 = self@;
        let mut pending: Option<T> = Some(item);

        loop
            invariant_except_break
                pending == Some(pushed),
                strategy.push_granted(),
                self.wf(),
                self@ == view0,
                R::keeps() ==> recorder.recorded() == rec0.push(Event::StartPush),
                !R::keeps() ==> recorder.recorded() == rec0,
            ensures
                self.wf(),
                self@ == view0.push(pushed),
                R::keeps() ==> recorder.recorded() == rec0.push(Event::StartPush).push(
                    Event::TryStack,
                ),
                !R::keeps() ==> recorder.recorded() == rec0,
            decreases 1int,
        {
            recorder.record(Event::TryStack);
            let v = match pending {
                Some(v) => v,
                None => vstd::pervasive::unreached(),
            };
            match self.stack.push(v, &mut strategy) {
                Ok(()) => {
                    pending = None;
                    break;
                },
                Err(i) => {
                    // A fresh strategy grants the first stack attempt, and
                    // under exclusive access a granted attempt cannot fail:
                    // from here on the loop body mirrors the shared-state
                    // alternation between the layers.
                    pending = Some(i);
                },
            }
            if strategy.use_elimination_array() {
                recorder.record(Event::TryEliminationArray);
                let v = match pending {
                    Some(v) => v,
                    None => vstd::pervasive::unreached(),
                };
                match self.elimination_array.exchange_push(v, &mut strategy, recorder) {
                    Ok(()) => {
                        pending = None;
                        break;
                    },
                    Err(i) => {
                        pending = Some(i);
                    },
                }
            }
        }

        recorder.record(Event::FinishPush);
        proof {
            assert(rec0.push(Event::StartPush).push(Event::TryStack).push(Event::FinishPush)
                =~= rec0 + seq![Event::StartPush, Event::TryStack, Event::FinishPush]);
        }
    }

    /// Pops the top of the stack; `None` exactly when the stack was empty.
    pub fn pop(&mut self) -> (r: Option<T>)
        requires
            old(self).wf(),
        ensures
            final(self).wf(),
            old(self)@.len() == 0 ==> r is None && final(self)@ == old(self)@,
            old(self)@.len() > 0 ==> r == Some(old(self)@.last()) && final(self)@ == old(
                self,
            )@.drop_last(),
    {
        let mut recorder = NoOpRecorder {  };
        self.instrumented_pop(&mut recorder)
    }

    /// `pop`, reporting each step to the given recorder: the operation's
    /// start first, its finish last, and a stack attempt announced before it
    /// is made, exactly as for pushes. The recorder only observes; the
    /// result is that of [`Stack::pop`].
    ///
    /// `None` is only ever the Treiber layer's verdict that the chain was
    /// empty; a contention miss on either layer is retried, never reported as
    /// emptiness.
    pub fn instrumented_pop<R: EventRecorder>(&mut self, recorder: &mut R) -> (r: Option<T>)
        requires
            old(self).wf(),
        ensures
            final(self).wf(),
            old(self)@.len() == 0 ==> r is None && final(self)@ == old(self)@,
            old(self)@.len() > 0 ==> r == Some(old(self)@.last()) && final(self)@ == old(
                self,
            )@.drop_last(),
            R::keeps() ==> final(recorder).recorded() == old(recorder).recorded() + seq![
                Event::StartPop,
                Event::TryStack,
                Event::FinishPop,
            ],
            !R::keeps() ==> final(recorder).recorded() == old(recorder).recorded(),
    {
        let ghost rec0 = recorder.recorded();
        recorder.record(Event::StartPop);
        let mut strategy = PopS::new();
        let ghost view0 = self@;
        let mut result: Option<T> = None;

        loop
            invariant_except_break
                result is None,
                strategy.pop_granted(),
                self.wf(),
                self@ == view0,
                R::keeps() ==> recorder.recorded() == rec0.push(Event::StartPop),
                !R::keeps() ==> recorder.recorded() == rec0,
            ensures
                self.wf(),
                view0.len() == 0 ==> result is None && self@ == view0,
                view0.len() > 0 ==> result == Some(view0.last()) && self@ == view0.drop_last(),
                R::keeps() ==> recorder.recorded() == rec0.push(Event::StartPop).push(
                    Event::TryStack,
                ),
                !R::keeps() ==> recorder.recorded() == rec0,
            decreases 1int,
        {
            recorder.record(Event::TryStack);
            match self.stack.pop(&mut strategy) {
                Ok(item) => {
                    result = item;
                    break;
                },
                Err(()) => {},
            }
            if strategy.use_elimination_array() {
                recorder.record(Event::TryEliminationArray);
                match self.elimination_array.exchange_pop(&mut strategy, recorder) {
                    Ok(item) => {
                        result = Some(item);
                        break;
                    },
                    Err(()) => {},
                }
            }
        }

        recorder.record(Event::FinishPop);
        proof {
            assert(rec0.push(Event::StartPop).push(Event::TryStack).push(Event::FinishPop)
                =~= rec0 + seq![Event::StartPop, Event::TryStack, Event::FinishPop]);
        }
        result
    }
}

/// One operation a client can ask of the stack.
pub enum StackOp<T> {
    Push(T),
    Pop,
}

/// What one operation does to a reference last-in-first-out container: the
/// container afterwards, and what the operation returned. The contracts of
/// [`Stack::push`] and [`Stack::pop`] promise exactly these outcomes.
pub open spec fn lifo_step<T>(s: Seq<T>, op: StackOp<T>) -> (Seq<T>, Option<T>) {
    match op {
        StackOp::Push(v) => (s.push(v), None),
        StackOp::Pop => if s.len() == 0 {
            (s, None)
        } else {
            (s.drop_last(), Some(s.last()))
        },
    }
}

/// The container after a whole run of operations.
pub open spec fn lifo_run<T>(s: Seq<T>, ops: Seq<StackOp<T>>) -> Seq<T>
    decreases ops.len(),
{
    if ops.len() == 0 {
        s
    } else {
        lifo_run(lifo_step(s, ops[0]).0, ops.drop_first())
    }
}

/// How many operations of the run are pushes.
pub open spec fn count_pushes<T>(ops: Seq<StackOp<T>>) -> nat
    decreases ops.len(),
{
    if ops.len() == 0 {
        0
    } else {
        (if ops[0] is Push {
            1nat
        } else {
            0nat
        }) + count_pushes(ops.drop_first())
    }
}

/// How many pops of the run come back with a value.
pub open spec fn count_hits<T>(s: Seq<T>, ops: Seq<StackOp<T>>) -> nat
    decreases ops.len(),
{
    if ops.len() == 0 {
        0
    } else {
        (if lifo_step(s, ops[0]).1 is Some {
            1nat
        } else {
            0nat
        }) + count_hits(lifo_step(s, ops[0]).0, ops.drop_first())
    }
}

/// Pushing a value and popping right after returns exactly that value and
/// restores the container to what it was: one LIFO round trip.
pub proof fn lemma_push_pop_round_trip<T>(s: Seq<T>, v: T)
    ensures
        lifo_step(lifo_step(s, StackOp::Push(v)).0, StackOp::Pop) == (s, Some(v)),
{
    assert(s.push(v).drop_last() =~= s);
}

/// No run of operations loses or invents a value: the pops that come back
/// with a value never outnumber the pushes plus what was there at the start,
/// and once the run is over — the quiescent point — the container holds
/// exactly the initial count plus the pushes minus the successful pops.
pub proof fn lemma_no_loss<T>(s: Seq<T>, ops: Seq<StackOp<T>>)
    ensures
        count_hits(s, ops) <= s.len() + count_pushes(ops),
        lifo_run(s, ops).len() == s.len() + count_pushes(ops) - count_hits(s, ops),
    decreases ops.len(),
{
    if ops.len() > 0 {
        lemma_no_loss(lifo_step(s, ops[0]).0, ops.drop_first());
    }
}

} // verus!
