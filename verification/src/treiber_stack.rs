//! The stack layer: a LIFO chain of nodes reached from a single head.
//!
//! In the lock-free algorithm the chain hangs off an atomic head pointer and
//! every update is a compare-and-set on that pointer; a strategy decides how
//! often a contested update is retried. This module verifies the layer over
//! exclusively owned state, where an update, once granted by the strategy,
//! cannot be contested: a granted attempt therefore succeeds at once, and a
//! refused attempt hands the value back unchanged, exactly as the algorithm
//! does when its retry budget runs out.

use vstd::prelude::*;

verus! {

/// Decisions a push operation asks of its strategy at the stack layer.
pub trait PushStrategy: Sized {
    /// Whether the next head-update attempt is granted.
    spec fn push_granted(&self) -> bool;

    /// How many consecutive grants may still follow; each grant consumes one.
    spec fn push_tries_left(&self) -> nat;

    /// The strategy state after the next `try_push` call.
    spec fn after_try_push(&self) -> Self;

    /// Does the stack get another attempt at the head update?
    ///
    /// A refusal re-arms the budget: the operation may always come back to the
    /// stack later, which is what keeps it from starving on the elimination
    /// side.
    fn try_push(&mut self) -> (r: bool)
        ensures
            r == old(self).push_granted(),
            *final(self) == old(self).after_try_push(),
            r ==> final(self).push_tries_left() < old(self).push_tries_left(),
            !r ==> final(self).push_granted(),
    ;
}

/// Decisions a pop operation asks of its strategy at the stack layer.
pub trait PopStrategy: Sized {
    /// Whether the next head-update attempt is granted.
    spec fn pop_granted(&self) -> bool;

    /// How many consecutive grants may still follow; each grant consumes one.
    spec fn pop_tries_left(&self) -> nat;

    /// The strategy state after the next `try_pop` call.
    spec fn after_try_pop(&self) -> Self;

    /// Does the stack get another attempt at the head update?
    ///
    /// A refusal re-arms the budget, as for pushes.
    fn try_pop(&mut self) -> (r: bool)
        ensures
            r == old(self).pop_granted(),
            *final(self) == old(self).after_try_pop(),
            r ==> final(self).pop_tries_left() < old(self).pop_tries_left(),
            !r ==> final(self).pop_granted(),
    ;
}

/// A last-in-first-out stack over an owned chain of nodes.
///
/// The view is the chain from the bottom up: the last element of the sequence
/// is the top of the stack, the one a pop removes first.
pub struct TreiberStack<T> {
    items: Vec<T>,
}

impl<T> View for TreiberStack<T> {
    type V = Seq<T>;

    closed spec fn view(&self) -> Seq<T> {
        self.items@
    }
}

impl<T> TreiberStack<T> {
    /// Creates a new, empty stack.
    pub fn new() -> (r: TreiberStack<T>)
        ensures
            r@ == Seq::<T>::empty(),
    {
        TreiberStack { items: Vec::new() }
    }

    /// Pushes a value on top of the stack, if the strategy grants an attempt.
    ///
    /// With exclusive access a granted head update cannot be contested, so one
    /// grant decides the outcome: granted means the value goes on top, refused
    /// means the caller gets it back and the stack is untouched.
    pub fn push<S: PushStrategy>(&mut self, t: T, strategy: &mut S) -> (r: Result<(), T>)
        ensures
            old(strategy).push_granted() ==> r is Ok && final(self)@ == old(self)@.push(t),
            !old(strategy).push_granted() ==> (r matches Err(v) && v == t) && final(self)@
                == old(self)@,
    {
        if strategy.try_push() {
            self.items.push(t);
            Ok(())
        } else {
            Err(t)
        }
    }

    /// Attempts to pop the top element from the stack.
    ///
    /// An empty stack is reported as `Ok(None)` at once: observing the empty
    /// chain is an answer, not contention, so it does not consume the retry
    /// budget. Otherwise a granted attempt removes and returns the top, and a
    /// refused attempt reports contention and leaves the stack untouched.
    pub fn pop<S: PopStrategy>(&mut self, strategy: &mut S) -> (r: Result<Option<T>, ()>)
        ensures
            old(self)@.len() == 0 ==> r == Ok::<Option<T>, ()>(None) && final(self)@ == old(self)@
                && *final(strategy) == *old(strategy),
            old(self)@.len() > 0 && old(strategy).pop_granted() ==> (r matches Ok(s)
                && s == Some(old(self)@.last())) && final(self)@ == old(self)@.drop_last(),
            old(self)@.len() > 0 && !old(strategy).pop_granted() ==> r is Err
                && final(self)@ == old(self)@,
    {
        if self.items.len() == 0 {
            return Ok(None);
        }
        if strategy.try_pop() {
            let v = self.items.pop();
            match v {
                Some(t) => Ok(Some(t)),
                None => Ok(None),
            }
        } else {
            Err(())
        }
    }
}

} // verus!
