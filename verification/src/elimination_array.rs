//! The elimination array: a fixed row of exchangers, one picked at random for
//! each rendezvous attempt.
//!
//! The strategy decides how many attempts an operation gets and how many of
//! the exchangers are currently in scope — the space-backoff knob: a narrow
//! prefix raises the rendezvous probability under low contention, the full
//! width spreads load under high contention.

use crate::event::{Event, EventRecorder};
use crate::exchanger::{self, Exchanger, Slot};
use vstd::prelude::*;

verus! {

/// Decisions a push operation asks of its strategy at the array.
pub trait PushStrategy: exchanger::PushStrategy + Sized {
    /// Whether the next exchanger pick is granted.
    spec fn array_push_granted(&self) -> bool;

    /// The strategy state after the next `try_push` call.
    spec fn after_array_try_push(&self) -> Self;

    /// How many exchangers the strategy currently has in scope.
    spec fn push_width(&self, total: usize) -> usize;

    /// Does the operation get another exchanger pick? Each grant consumes one
    /// unit of the dispatch budget.
    fn try_push(&mut self) -> (r: bool)
        ensures
            r == old(self).array_push_granted(),
            *final(self) == old(self).after_array_try_push(),
            r ==> final(self).dispatch_push_tries_left() < old(
                self,
            ).dispatch_push_tries_left(),
    ;

    /// Decide how many of the `total` exchangers should be considered. On low
    /// contention one could only use the first few exchangers to increase the
    /// exchange-success rate. The query does not change the strategy.
    fn num_exchangers(&mut self, total: usize) -> (w: usize)
        requires
            1 <= total,
        ensures
            1 <= w <= total,
            w == old(self).push_width(total),
            *final(self) == *old(self),
    ;
}

/// Decisions a pop operation asks of its strategy at the array.
pub trait PopStrategy: exchanger::PopStrategy + Sized {
    /// Whether the next exchanger pick is granted.
    spec fn array_pop_granted(&self) -> bool;

    /// The strategy state after the next `try_pop` call.
    spec fn after_array_try_pop(&self) -> Self;

    /// How many exchangers the strategy currently has in scope.
    spec fn pop_width(&self, total: usize) -> usize;

    /// Does the operation get another exchanger pick? Each grant consumes one
    /// unit of the dispatch budget.
    fn try_pop(&mut self) -> (r: bool)
        ensures
            r == old(self).array_pop_granted(),
            *final(self) == old(self).after_array_try_pop(),
            r ==> final(self).dispatch_pop_tries_left() < old(self).dispatch_pop_tries_left(),
    ;

    /// Decide how many of the `total` exchangers should be considered, as for
    /// pushes. The query does not change the strategy.
    fn num_exchangers(&mut self, total: usize) -> (w: usize)
        requires
            1 <= total,
        ensures
            1 <= w <= total,
            w == old(self).pop_width(total),
            *final(self) == *old(self),
    ;
}

/// Relies on num_cpus::get: the number of logical CPUs available to this
/// process, documented to be at least one.
#[verifier::external_body]
fn cpu_count() -> (n: usize)
    ensures
        1 <= n,
{
    num_cpus::get()
}

/// Relies on rand::random_range: a sample from the thread-local generator,
/// uniform over a nonempty range and in particular inside it.
#[verifier::external_body]
fn random_below(n: usize) -> (r: usize)
    requires
        1 <= n,
    ensures
        r < n,
{
    rand::random_range(0..n)
}

/// A mutable borrow of one exchanger of the row.
fn exchanger_at<T>(arr: &mut Vec<Exchanger<T>>, i: usize) -> (e: &mut Exchanger<T>)
    requires
        i < old(arr).len(),
    ensures
        *e == old(arr)@[i as int],
        final(arr)@ == old(arr)@.update(i as int, *final(e)),
{
    &mut arr[i]
}

/// A fixed row of exchangers; its length defaults to the CPU count and never
/// changes afterwards.
pub struct EliminationArray<T> {
    exchangers: Vec<Exchanger<T>>,
}

impl<T> EliminationArray<T> {
    /// The slot states of the row's exchangers.
    pub closed spec fn slots(&self) -> Seq<Slot<T>> {
        self.exchangers@.map_values(|e: Exchanger<T>| e@)
    }

    /// A well-formed row holds at least one exchanger.
    pub open spec fn wf(&self) -> bool {
        self.slots().len() >= 1
    }

    /// No exchange is in progress anywhere in the row.
    pub open spec fn all_empty(&self) -> bool {
        forall|i: int| 0 <= i < self.slots().len() ==> self.slots()[i] is Empty
    }

    /// Creates an array of exactly `n` exchangers, each with an empty slot.
    /// The structure never changes afterwards.
    pub fn with_width(n: usize) -> (r: Self)
        requires
            1 <= n,
        ensures
            r.slots().len() == n,
            r.all_empty(),
    {
        let mut exchangers: Vec<Exchanger<T>> = Vec::new();
        while exchangers.len() < n
            invariant
                exchangers@.len() <= n,
                forall|i: int| 0 <= i < exchangers@.len() ==> exchangers@[i]@ is Empty,
            decreases n - exchangers.len(),
        {
            exchangers.push(Exchanger::new());
        }
        Self { exchangers }
    }

    /// Creates an array with one empty exchanger per logical CPU: the width
    /// is the drawn CPU count, handed to [`EliminationArray::with_width`],
    /// which pins the shape for any given count.
    pub fn new() -> (r: Self)
        ensures
            r.wf(),
            r.all_empty(),
    {
        Self::with_width(cpu_count())
    }

    /// Offers `item` on randomly picked exchangers while the strategy grants
    /// attempts.
    ///
    /// A rendezvous needs a concurrent popper, and under exclusive access
    /// none can arrive: the value always comes back to the caller and every
    /// slot is left as it was found.
    pub fn exchange_push<S: PushStrategy, R: EventRecorder>(
        &mut self,
        item: T,
        strategy: &mut S,
        recorder: &mut R,
    ) -> (r: Result<(), T>)
        requires
            old(self).wf(),
        ensures
            r matches Err(v) && v == item,
            final(self).slots() == old(self).slots(),
    {
        recorder.record(Event::StartEliminationArrayPush);
        let ghost kept = item;
        let ghost row0 = self.exchangers@;
        let mut pending: Option<T> = Some(item);

        while strategy.try_push()
            invariant
                pending == Some(kept),
                self.exchangers@ == row0,
                self.exchangers.len() >= 1,
            decreases strategy.dispatch_push_tries_left(),
        {
            let total = self.exchangers.len();
            let width = strategy.num_exchangers(total);
            let i = random_below(width);
            let v = match pending {
                Some(v) => v,
                None => vstd::pervasive::unreached(),
            };
            let ex = exchanger_at(&mut self.exchangers, i);
            match ex.exchange_push(v, strategy, recorder) {
                Ok(()) => {
                    // The rendezvous succeeded: the value now belongs to a
                    // popper. Unreachable without a concurrent partner.
                    return Ok(());
                },
                Err(w) => {
                    pending = Some(w);
                },
            }
            proof {
                assert(self.exchangers@ =~= row0);
            }
        }

        let v = match pending {
            Some(v) => v,
            None => vstd::pervasive::unreached(),
        };
        Err(v)
    }

    /// Scans randomly picked exchangers for a waiting deposit while the
    /// strategy grants attempts.
    ///
    /// A claim can only take a value that a pusher had already deposited, it
    /// takes that exact value, and it leaves the claimed slot busy for the
    /// depositor to acknowledge; every other slot is left untouched. With no
    /// deposit anywhere — in particular whenever the caller holds the array
    /// exclusively and quiescent — the scan comes back empty-handed.
    ///
    /// Success is owed where nothing is left to chance: on a one-exchanger
    /// array whose slot holds a deposit, the random pick is forced, so a
    /// strategy that grants the pick and then the claim must come back with
    /// the value.
    pub fn exchange_pop<S: PopStrategy, R: EventRecorder>(
        &mut self,
        strategy: &mut S,
        recorder: &mut R,
    ) -> (r: Result<T, ()>)
        requires
            old(self).wf(),
        ensures
            old(self).all_empty() ==> r is Err,
            r is Err ==> final(self).slots() == old(self).slots(),
            r matches Ok(v) ==> exists|i: int|
                0 <= i < old(self).slots().len() && old(self).slots()[i] == Slot::Waiting(v)
                    && final(self).slots() == old(self).slots().update(i, Slot::<T>::Busy),
            old(self).slots().len() == 1 && old(self).slots()[0] is Waiting && old(
                strategy,
            ).array_pop_granted() && old(strategy).after_array_try_pop().exchange_granted()
                ==> r is Ok,
    {
        recorder.record(Event::StartEliminationArrayPop);
        let ghost row0 = self.exchangers@;
        let ghost strategy0 = *strategy;
        let ghost forced = row0.len() == 1 && row0[0]@ is Waiting
            && strategy0.array_pop_granted()
            && strategy0.after_array_try_pop().exchange_granted();
        let ghost mut widx: int = 0;
        let mut claimed: Option<T> = None;

        while strategy.try_pop()
            invariant_except_break
                claimed is None,
                self.exchangers@ == row0,
                self.exchangers.len() >= 1,
                forced == (row0.len() == 1 && row0[0]@ is Waiting
                    && strategy0.array_pop_granted()
                    && strategy0.after_array_try_pop().exchange_granted()),
                forced ==> *strategy == strategy0,
            ensures
                forced ==> claimed is Some,
                claimed is None ==> self.exchangers@ == row0,
                claimed matches Some(v) ==> 0 <= widx < row0.len() && row0[widx]@
                    == Slot::Waiting(v) && self.exchangers@.len() == row0.len()
                    && self.exchangers@[widx]@ is Busy && (forall|j: int|
                    0 <= j < row0.len() && j != widx ==> self.exchangers@[j] == row0[j]),
            decreases strategy.dispatch_pop_tries_left(),
        {
            let total = self.exchangers.len();
            let width = strategy.num_exchangers(total);
            let i = random_below(width);
            let ex = exchanger_at(&mut self.exchangers, i);
            match ex.exchange_pop(strategy, recorder) {
                Ok(v) => {
                    proof {
                        widx = i as int;
                    }
                    claimed = Some(v);
                    break;
                },
                Err(()) => {},
            }
            proof {
                assert(self.exchangers@ =~= row0);
            }
        }

        proof {
            // The forced-success hypothesis speaks of the slot view, the loop
            // of the exchanger row; connect the two at index zero.
            if old(self).slots().len() == 1 {
                assert(old(self).slots()[0] == row0[0]@);
            }
        }
        match claimed {
            Some(v) => {
                proof {
                    assert(old(self).slots()[widx] == row0[widx]@);
                    assert(self.exchangers@[widx]@ is Busy);
                    assert(self.slots() =~= old(self).slots().update(widx, Slot::<T>::Busy));
                    assert(0 <= widx < old(self).slots().len() && old(self).slots()[widx]
                        == Slot::Waiting(v) && self.slots() == old(self).slots().update(
                        widx,
                        Slot::<T>::Busy,
                    ));
                }
                Ok(v)
            },
            None => Err(()),
        }
    }
}

} // verus!
