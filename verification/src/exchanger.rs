//! The exchanger: a single-slot rendezvous between one pusher and one popper.
//!
//! The slot moves through three states. A pusher deposits its value
//! (`Empty -> Waiting`), a popper claims it (`Waiting -> Busy`), and the
//! pusher acknowledges the hand-off (`Busy -> Empty`); a pusher that finds no
//! taker reclaims its value instead (`Waiting -> Empty`). In the lock-free
//! algorithm each of these steps is one compare-and-set on the slot; here each
//! step is a verified transition with an exact contract, and the two full
//! operations drive the same steps under a strategy's retry budgets.
//!
//! Under exclusive access no partner can arrive between steps, so a full
//! `exchange_push` always hands its value back and a full `exchange_pop` can
//! succeed only on a slot that already holds a deposit. The hand-off itself —
//! that a claim obtains exactly the deposited value, once — is stated by the
//! transition contracts and the lemmas at the end of this module.

use crate::event::{Event, EventRecorder};
use vstd::multiset::Multiset;
use vstd::prelude::*;

verus! {

/// The content of an exchanger slot.
pub enum Slot<T> {
    /// No value present.
    Empty,
    /// A pusher has deposited a value and awaits a popper.
    Waiting(T),
    /// A popper has claimed the waiting value; the pusher has yet to
    /// acknowledge.
    Busy,
}

/// The state of a slot with the value abstracted away: what a load of the
/// slot's tagged pointer tells an observer.
#[derive(Clone, Copy, Debug, PartialEq, Eq, Structural)]
pub enum SlotTag {
    Empty,
    Waiting,
    Busy,
}

impl<T> Slot<T> {
    /// The tag of this slot state.
    pub open spec fn tag(self) -> SlotTag {
        match self {
            Slot::Empty => SlotTag::Empty,
            Slot::Waiting(_) => SlotTag::Waiting,
            Slot::Busy => SlotTag::Busy,
        }
    }
}

/// A pusher's deposit attempt: `Empty -> Waiting(v)`, refused on any other
/// state, which must never be overwritten.
pub open spec fn deposit_step<T>(s: Slot<T>, v: T) -> (Slot<T>, Result<(), T>) {
    match s {
        Slot::Empty => (Slot::Waiting(v), Ok(())),
        _ => (s, Err(v)),
    }
}

/// A popper's claim attempt: `Waiting(v) -> Busy`, yielding `v`; anything else
/// yields nothing and stays put.
pub open spec fn claim_step<T>(s: Slot<T>) -> (Slot<T>, Option<T>) {
    match s {
        Slot::Waiting(v) => (Slot::Busy, Some(v)),
        _ => (s, None),
    }
}

/// A pusher's reclaim attempt: `Waiting(v) -> Empty`, recovering `v`; anything
/// else stays put.
pub open spec fn reclaim_step<T>(s: Slot<T>) -> (Slot<T>, Option<T>) {
    match s {
        Slot::Waiting(v) => (Slot::Empty, Some(v)),
        _ => (s, None),
    }
}

/// The pusher's acknowledgement of a claim: `Busy -> Empty`.
pub open spec fn ack_step<T>(s: Slot<T>) -> Slot<T> {
    match s {
        Slot::Busy => Slot::Empty,
        _ => s,
    }
}

/// Decisions a push operation asks of its strategy at the exchanger.
pub trait PushStrategy: Sized {
    /// Whether the next deposit attempt is granted.
    spec fn start_granted(&self) -> bool;

    /// How many consecutive deposit attempts may still be granted.
    spec fn start_tries_left(&self) -> nat;

    /// How many more rounds of waiting for a popper may be granted.
    spec fn check_tries_left(&self) -> nat;

    /// The retry budget of the dispatch loop that sent the operation to this
    /// exchanger. The slot-level hooks never refill it; that is what keeps
    /// the dispatch loop's number of rounds bounded.
    spec fn dispatch_push_tries_left(&self) -> nat;

    /// The strategy state after the next `try_start_exchange` call.
    spec fn after_try_start_exchange(&self) -> Self;

    /// The strategy state after the next `retry_check_exchanged` call.
    spec fn after_retry_check_exchanged(&self) -> Self;

    /// Is the pusher still trying to deposit its value?
    fn try_start_exchange(&mut self) -> (r: bool)
        ensures
            r == old(self).start_granted(),
            *final(self) == old(self).after_try_start_exchange(),
            r ==> final(self).start_tries_left() < old(self).start_tries_left(),
            final(self).dispatch_push_tries_left() <= old(self).dispatch_push_tries_left(),
    ;

    /// Should the pusher keep waiting for a popper to claim its deposit?
    fn retry_check_exchanged(&mut self) -> (r: bool)
        ensures
            *final(self) == old(self).after_retry_check_exchanged(),
            r ==> final(self).check_tries_left() < old(self).check_tries_left(),
            final(self).dispatch_push_tries_left() <= old(self).dispatch_push_tries_left(),
    ;
}

/// The strategy after `k` deposit queries in a row, as a pusher makes while
/// it seeks a free slot.
pub open spec fn after_seek_rounds<S: PushStrategy>(s: S, k: nat) -> S
    decreases k,
{
    if k == 0 {
        s
    } else {
        after_seek_rounds(s, (k - 1) as nat).after_try_start_exchange()
    }
}

/// The strategy after `k` wait queries in a row, as a depositing pusher
/// makes while it waits for a popper.
pub open spec fn after_wait_rounds<S: PushStrategy>(s: S, k: nat) -> S
    decreases k,
{
    if k == 0 {
        s
    } else {
        after_wait_rounds(s, (k - 1) as nat).after_retry_check_exchanged()
    }
}

/// Decisions a pop operation asks of its strategy at the exchanger.
pub trait PopStrategy: Sized {
    /// Whether the next claim attempt is granted.
    spec fn exchange_granted(&self) -> bool;

    /// How many consecutive claim attempts may still be granted.
    spec fn exchange_tries_left(&self) -> nat;

    /// The retry budget of the dispatch loop above; see
    /// [`PushStrategy::dispatch_push_tries_left`].
    spec fn dispatch_pop_tries_left(&self) -> nat;

    /// The strategy state after the next `try_exchange` call.
    spec fn after_try_exchange(&self) -> Self;

    /// The strategy state after an `on_contention` callback.
    spec fn after_on_contention(&self) -> Self;

    /// The strategy state after an `on_no_contention` callback.
    spec fn after_on_no_contention(&self) -> Self;

    /// Does the popper get another look at the slot?
    fn try_exchange(&mut self) -> (r: bool)
        ensures
            r == old(self).exchange_granted(),
            *final(self) == old(self).after_try_exchange(),
            r ==> final(self).exchange_tries_left() < old(self).exchange_tries_left(),
            final(self).dispatch_pop_tries_left() <= old(self).dispatch_pop_tries_left(),
    ;

    /// Fired when the popper observes another operation holding the slot.
    /// An observation never refills a retry budget.
    fn on_contention(&mut self)
        ensures
            *final(self) == old(self).after_on_contention(),
            final(self).exchange_tries_left() <= old(self).exchange_tries_left(),
            final(self).dispatch_pop_tries_left() <= old(self).dispatch_pop_tries_left(),
    ;

    /// Fired when the popper observes an empty slot: no opposing traffic.
    /// An observation never refills a retry budget.
    fn on_no_contention(&mut self)
        ensures
            *final(self) == old(self).after_on_no_contention(),
            final(self).exchange_tries_left() <= old(self).exchange_tries_left(),
            final(self).dispatch_pop_tries_left() <= old(self).dispatch_pop_tries_left(),
    ;
}

/// One granted look by a popper at a slot that yields no claim, together
/// with the single observation callback that look fires: `on_no_contention`
/// for an empty slot, `on_contention` for a busy one. A waiting slot is
/// claimed, not scanned past.
pub open spec fn scan_round<S: PopStrategy>(s: S, tag: SlotTag) -> S {
    match tag {
        SlotTag::Empty => s.after_try_exchange().after_on_no_contention(),
        SlotTag::Busy => s.after_try_exchange().after_on_contention(),
        SlotTag::Waiting => s,
    }
}

/// The strategy after `k` scan rounds over a slot stuck at `tag`.
pub open spec fn after_scan_rounds<S: PopStrategy>(s: S, tag: SlotTag, k: nat) -> S
    decreases k,
{
    if k == 0 {
        s
    } else {
        scan_round(after_scan_rounds(s, tag, (k - 1) as nat), tag)
    }
}

/// A single-slot rendezvous point.
pub struct Exchanger<T> {
    item: Slot<T>,
}

impl<T> View for Exchanger<T> {
    type V = Slot<T>;

    closed spec fn view(&self) -> Slot<T> {
        self.item
    }
}

impl<T> Exchanger<T> {
    /// Creates an exchanger with an empty slot.
    pub fn new() -> (r: Self)
        ensures
            r@ == Slot::<T>::Empty,
    {
        Self { item: Slot::Empty }
    }

    /// What a load of the slot observes: its tag.
    pub fn load(&self) -> (t: SlotTag)
        ensures
            t == self@.tag(),
    {
        match &self.item {
            Slot::Empty => SlotTag::Empty,
            Slot::Waiting(_) => SlotTag::Waiting,
            Slot::Busy => SlotTag::Busy,
        }
    }

    /// The pusher's deposit: one `Empty -> Waiting` update of the slot.
    pub fn try_deposit(&mut self, v: T) -> (r: Result<(), T>)
        ensures
            (final(self)@, r) == deposit_step(old(self)@, v),
    {
        match &self.item {
            Slot::Empty => {
                self.item = Slot::Waiting(v);
                Ok(())
            },
            _ => Err(v),
        }
    }

    /// The popper's claim: one `Waiting -> Busy` update, taking the value.
    pub fn try_claim(&mut self) -> (r: Option<T>)
        ensures
            (final(self)@, r) == claim_step(old(self)@),
    {
        let mut current = Slot::Busy;
        core::mem::swap(&mut self.item, &mut current);
        match current {
            Slot::Waiting(v) => Some(v),
            other => {
                self.item = other;
                None
            },
        }
    }

    /// The pusher's reclaim: one `Waiting -> Empty` update, recovering the
    /// value it deposited.
    pub fn try_reclaim(&mut self) -> (r: Option<T>)
        ensures
            (final(self)@, r) == reclaim_step(old(self)@),
    {
        let mut current = Slot::Empty;
        core::mem::swap(&mut self.item, &mut current);
        match current {
            Slot::Waiting(v) => Some(v),
            other => {
                self.item = other;
                None
            },
        }
    }

    /// The pusher's acknowledgement of a claim: `Busy -> Empty`. Only the
    /// pusher that authored the claimed deposit clears `Busy`, so the caller
    /// must know the slot is busy; the update cannot fail.
    pub fn acknowledge(&mut self)
        requires
            old(self)@ is Busy,
        ensures
            final(self)@ == Slot::<T>::Empty,
    {
        self.item = Slot::Empty;
    }

    /// A full push-side exchange: deposit the value, wait the strategy's
    /// budget for a popper, then reclaim.
    ///
    /// A rendezvous needs a concurrent partner, and under exclusive access
    /// none can arrive between the steps: the operation always hands the
    /// value back and leaves the slot as it found it. In particular the
    /// caller never loses ownership of a value the exchange did not deliver.
    ///
    /// The strategy sees exactly the queries the two phases make: a refusing
    /// strategy is asked for one deposit and nothing more; on a free slot
    /// one granted deposit query is followed by some number of wait queries;
    /// on an occupied slot only deposit queries are made, one per look.
    pub fn exchange_push<S: PushStrategy, R: EventRecorder>(
        &mut self,
        item: T,
        strategy: &mut S,
        recorder: &mut R,
    ) -> (r: Result<(), T>)
        ensures
            r matches Err(v) && v == item,
            *final(self) == *old(self),
            !old(strategy).start_granted() ==> *final(strategy) == old(
                strategy,
            ).after_try_start_exchange(),
            old(self)@ is Empty && old(strategy).start_granted() ==> (exists|k: nat|
                1 <= k && *final(strategy) == after_wait_rounds(
                    old(strategy).after_try_start_exchange(),
                    k,
                )),
            !(old(self)@ is Empty) && old(strategy).start_granted() ==> (exists|k: nat|
                1 <= k && *final(strategy) == after_seek_rounds(*old(strategy), k)),
            final(strategy).dispatch_push_tries_left()
                <= old(strategy).dispatch_push_tries_left(),
            R::keeps() ==> final(recorder).recorded() == old(recorder).recorded().push(
                Event::StartExchangerPush,
            ),
            !R::keeps() ==> final(recorder).recorded() == old(recorder).recorded(),
    {
        recorder.record(Event::StartExchangerPush);
        let ghost snapshot = *self;
        let ghost deposited = item;
        let ghost strategy0 = *strategy;
        let ghost granted0 = strategy.start_granted();
        let ghost dispatch0 = strategy.dispatch_push_tries_left();
        let ghost mut seeks: nat = 0;
        let mut pending: Option<T> = Some(item);
        let mut gave_up = false;

        // Phase A: deposit. Seize the slot while the strategy grants
        // attempts; a slot held by another exchange may not be overwritten.
        loop
            invariant_except_break
                !gave_up,
                pending == Some(deposited),
                *self == snapshot,
                *strategy == after_seek_rounds(strategy0, seeks),
                granted0 == strategy0.start_granted(),
                snapshot@ is Empty ==> seeks == 0,
                seeks >= 1 ==> granted0,
                strategy.dispatch_push_tries_left() <= dispatch0,
            ensures
                strategy.dispatch_push_tries_left() <= dispatch0,
                gave_up ==> pending == Some(deposited) && *self == snapshot,
                gave_up && snapshot@ is Empty ==> !granted0,
                !gave_up ==> pending is None && self@ == Slot::Waiting(deposited)
                    && snapshot@ is Empty && seeks == 1 && granted0,
                *strategy == after_seek_rounds(strategy0, seeks),
                1 <= seeks,
                !granted0 ==> seeks == 1,
            decreases strategy.start_tries_left(),
        {
            let start_granted = strategy.try_start_exchange();
            proof {
                seeks = seeks + 1;
                assert(after_seek_rounds(strategy0, seeks) == after_seek_rounds(
                    strategy0,
                    (seeks - 1) as nat,
                ).after_try_start_exchange());
            }
            if !start_granted {
                gave_up = true;
                break;
            }
            match self.load() {
                SlotTag::Empty => {
                    let v = match pending {
                        Some(v) => v,
                        None => vstd::pervasive::unreached(),
                    };
                    match self.try_deposit(v) {
                        Ok(()) => {
                            pending = None;
                            break;
                        },
                        Err(i) => {
                            pending = Some(i);
                        },
                    }
                },
                SlotTag::Waiting => {},
                SlotTag::Busy => {},
            }
        }
        if gave_up {
            // The strategy gave up before the slot came free: the caller
            // keeps its value.
            proof {
                assert(after_seek_rounds(strategy0, 1) == strategy0.after_try_start_exchange());
            }
            let v = match pending {
                Some(v) => v,
                None => vstd::pervasive::unreached(),
            };
            return Err(v);
        }

        // Phase B: await a popper, then take the value back. With the slot
        // exclusively ours, no popper can claim and no other actor can touch
        // the slot: it still holds our deposit.
        let ghost checkpoint = *strategy;
        let ghost mut waits: nat = 0;
        proof {
            assert(after_seek_rounds(strategy0, 1) == strategy0.after_try_start_exchange());
        }
        let mut recovered: Option<T> = None;
        loop
            invariant_except_break
                recovered is None,
                self@ == Slot::Waiting(deposited),
                *strategy == after_wait_rounds(checkpoint, waits),
                strategy.dispatch_push_tries_left() <= dispatch0,
            ensures
                strategy.dispatch_push_tries_left() <= dispatch0,
                recovered matches Some(v) && v == deposited,
                self@ == Slot::<T>::Empty,
                *strategy == after_wait_rounds(checkpoint, waits),
                1 <= waits,
            decreases strategy.check_tries_left(),
        {
            match self.load() {
                SlotTag::Empty => {
                    // Only the depositing pusher clears its own slot, and that
                    // is us: this observation cannot occur.
                    proof {
                        assert(false);
                    }
                },
                SlotTag::Waiting => {
                    let keep_waiting = strategy.retry_check_exchanged();
                    proof {
                        waits = waits + 1;
                        assert(after_wait_rounds(checkpoint, waits) == after_wait_rounds(
                            checkpoint,
                            (waits - 1) as nat,
                        ).after_retry_check_exchanged());
                    }
                    if !keep_waiting {
                        match self.try_reclaim() {
                            Some(v) => {
                                recovered = Some(v);
                                break;
                            },
                            None => {
                                // A reclaim of our own waiting deposit cannot
                                // miss.
                                proof {
                                    assert(false);
                                }
                            },
                        }
                    }
                },
                SlotTag::Busy => {
                    // A popper claimed the deposit: acknowledge the hand-off.
                    // No popper can reach an exclusively held slot, so this
                    // arm is unreachable here; it is the success path of the
                    // shared-slot algorithm.
                    self.acknowledge();
                    return Ok(());
                },
            }
        }
        let v = match recovered {
            Some(v) => v,
            None => vstd::pervasive::unreached(),
        };
        proof {
            // The reclaim emptied the slot, which is exactly how we found it.
            assert(*self == snapshot);
        }
        Err(v)
    }

    /// A full pop-side exchange: scan the slot while the strategy grants
    /// attempts and claim a waiting deposit.
    ///
    /// Success is possible exactly when a deposit is already waiting and the
    /// strategy grants a first look; the claimed value is the deposited one,
    /// and the slot is left busy for the depositor to acknowledge. In every
    /// other case the slot is left as found.
    ///
    /// The strategy observes exactly one callback per granted look that
    /// yields no claim — `on_no_contention` on an empty slot, `on_contention`
    /// on a busy one (or on a contested claim, which exclusive access rules
    /// out here) — and no callback at all on the successful claim: the final
    /// strategy state is some number of [`scan_round`]s followed by the last
    /// consumed look.
    pub fn exchange_pop<S: PopStrategy, R: EventRecorder>(
        &mut self,
        strategy: &mut S,
        recorder: &mut R,
    ) -> (r: Result<T, ()>)
        ensures
            old(self)@ matches Slot::Waiting(v) ==> (old(strategy).exchange_granted() ==> r
                == Ok::<T, ()>(v) && final(self)@ is Busy),
            !(old(self)@ is Waiting && old(strategy).exchange_granted()) ==> r is Err
                && *final(self) == *old(self),
            old(self)@ is Waiting ==> *final(strategy) == old(strategy).after_try_exchange(),
            old(self)@ is Empty ==> (exists|k: nat|
                *final(strategy) == after_scan_rounds(
                    *old(strategy),
                    SlotTag::Empty,
                    k,
                ).after_try_exchange()),
            old(self)@ is Busy ==> (exists|k: nat|
                *final(strategy) == after_scan_rounds(
                    *old(strategy),
                    SlotTag::Busy,
                    k,
                ).after_try_exchange()),
            final(strategy).dispatch_pop_tries_left() <= old(strategy).dispatch_pop_tries_left(),
            R::keeps() ==> final(recorder).recorded() == old(recorder).recorded().push(
                Event::StartExchangerPop,
            ),
            !R::keeps() ==> final(recorder).recorded() == old(recorder).recorded(),
    {
        recorder.record(Event::StartExchangerPop);
        let ghost snapshot = *self;
        let ghost strategy0 = *strategy;
        let ghost granted0 = strategy.exchange_granted();
        let ghost dispatch0 = strategy.dispatch_pop_tries_left();
        let ghost mut rounds: nat = 0;
        let mut claimed: Option<T> = None;

        while strategy.try_exchange()
            invariant_except_break
                claimed is None,
                *self == snapshot,
                snapshot@ is Waiting ==> *strategy == strategy0 && strategy.exchange_granted()
                    == granted0,
                snapshot@ is Empty ==> *strategy == after_scan_rounds(
                    strategy0,
                    SlotTag::Empty,
                    rounds,
                ),
                snapshot@ is Busy ==> *strategy == after_scan_rounds(
                    strategy0,
                    SlotTag::Busy,
                    rounds,
                ),
                strategy.dispatch_pop_tries_left() <= dispatch0,
            ensures
                strategy.dispatch_pop_tries_left() <= dispatch0,
                claimed matches Some(v) ==> snapshot@ == Slot::Waiting(v) && self@ is Busy
                    && granted0,
                claimed is None ==> *self == snapshot && !(snapshot@ is Waiting && granted0),
                snapshot@ is Waiting ==> *strategy == strategy0.after_try_exchange(),
                snapshot@ is Empty ==> (exists|k: nat|
                    *strategy == after_scan_rounds(
                        strategy0,
                        SlotTag::Empty,
                        k,
                    ).after_try_exchange()),
                snapshot@ is Busy ==> (exists|k: nat|
                    *strategy == after_scan_rounds(
                        strategy0,
                        SlotTag::Busy,
                        k,
                    ).after_try_exchange()),
            decreases strategy.exchange_tries_left(),
        {
            match self.load() {
                SlotTag::Empty => {
                    strategy.on_no_contention();
                    proof {
                        rounds = rounds + 1;
                        assert(after_scan_rounds(strategy0, SlotTag::Empty, rounds) == scan_round(
                            after_scan_rounds(strategy0, SlotTag::Empty, (rounds - 1) as nat),
                            SlotTag::Empty,
                        ));
                    }
                },
                SlotTag::Waiting => {
                    match self.try_claim() {
                        Some(v) => {
                            claimed = Some(v);
                            break;
                        },
                        None => {
                            // A claim of a deposit we just observed cannot
                            // miss while the slot is ours alone.
                            strategy.on_contention();
                        },
                    }
                },
                SlotTag::Busy => {
                    strategy.on_contention();
                    proof {
                        rounds = rounds + 1;
                        assert(after_scan_rounds(strategy0, SlotTag::Busy, rounds) == scan_round(
                            after_scan_rounds(strategy0, SlotTag::Busy, (rounds - 1) as nat),
                            SlotTag::Busy,
                        ));
                    }
                },
            }
        }

        match claimed {
            Some(v) => Ok(v),
            None => Err(()),
        }
    }
}

/// One full hand-off moves exactly the deposited value to the claimer, once,
/// and returns the slot to empty: a deposit into an empty slot succeeds, the
/// claim obtains that value and no other, and the acknowledgement clears the
/// slot. Together with [`lemma_claim_is_exclusive`] this is the exchanger's
/// no-loss, no-duplication guarantee.
pub proof fn lemma_handoff_transfers<T>(v: T)
    ensures
        deposit_step(Slot::<T>::Empty, v) == (Slot::Waiting(v), Ok::<(), T>(())),
        claim_step(Slot::Waiting(v)) == (Slot::<T>::Busy, Some(v)),
        ack_step(Slot::<T>::Busy) == Slot::<T>::Empty,
{
}

/// A deposit never overwrites a slot that is not empty: the occupying
/// exchange keeps the slot, and the depositor keeps its value.
pub proof fn lemma_no_overwrite<T>(s: Slot<T>, v: T)
    requires
        !(s is Empty),
    ensures
        deposit_step(s, v).0 == s,
        deposit_step(s, v).1 == Err::<(), T>(v),
{
}

/// A value can be claimed at most once: after a successful claim, a second
/// claim of the slot obtains nothing.
pub proof fn lemma_claim_is_exclusive<T>(s: Slot<T>)
    requires
        claim_step(s).1 is Some,
    ensures
        claim_step(claim_step(s).0).1 is None,
{
}

/// One atomic step some actor performs on a slot; each is a single
/// compare-and-set of the lock-free algorithm, so a concurrent execution is
/// exactly some interleaved history of these.
pub enum SlotAction<T> {
    Deposit(T),
    Claim,
    Reclaim,
    Ack,
}

/// The slot after one action, successful or not.
pub open spec fn action_step<T>(s: Slot<T>, a: SlotAction<T>) -> Slot<T> {
    match a {
        SlotAction::Deposit(v) => deposit_step(s, v).0,
        SlotAction::Claim => claim_step(s).0,
        SlotAction::Reclaim => reclaim_step(s).0,
        SlotAction::Ack => ack_step(s),
    }
}

/// The slot after a whole history of actions.
pub open spec fn history_run<T>(s: Slot<T>, h: Seq<SlotAction<T>>) -> Slot<T>
    decreases h.len(),
{
    if h.len() == 0 {
        s
    } else {
        history_run(action_step(s, h[0]), h.drop_first())
    }
}

/// The values that the history's successful deposits put into the slot.
pub open spec fn deposited_values<T>(s: Slot<T>, h: Seq<SlotAction<T>>) -> Multiset<T>
    decreases h.len(),
{
    if h.len() == 0 {
        Multiset::empty()
    } else {
        let rest = deposited_values(action_step(s, h[0]), h.drop_first());
        match h[0] {
            SlotAction::Deposit(v) => if s is Empty {
                rest.insert(v)
            } else {
                rest
            },
            _ => rest,
        }
    }
}

/// The values that the history's successful claims took out of the slot.
pub open spec fn claimed_values<T>(s: Slot<T>, h: Seq<SlotAction<T>>) -> Multiset<T>
    decreases h.len(),
{
    if h.len() == 0 {
        Multiset::empty()
    } else {
        let rest = claimed_values(action_step(s, h[0]), h.drop_first());
        match h[0] {
            SlotAction::Claim => match s {
                Slot::Waiting(v) => rest.insert(v),
                _ => rest,
            },
            _ => rest,
        }
    }
}

/// The values that the history's successful reclaims handed back to their
/// depositors.
pub open spec fn reclaimed_values<T>(s: Slot<T>, h: Seq<SlotAction<T>>) -> Multiset<T>
    decreases h.len(),
{
    if h.len() == 0 {
        Multiset::empty()
    } else {
        let rest = reclaimed_values(action_step(s, h[0]), h.drop_first());
        match h[0] {
            SlotAction::Reclaim => match s {
                Slot::Waiting(v) => rest.insert(v),
                _ => rest,
            },
            _ => rest,
        }
    }
}

/// What the slot itself holds.
pub open spec fn held_value<T>(s: Slot<T>) -> Multiset<T> {
    match s {
        Slot::Waiting(v) => Multiset::empty().insert(v),
        _ => Multiset::empty(),
    }
}

/// Slot histories conserve values: whatever the interleaving of the two
/// parties' steps, every deposited value is — at the end of the history —
/// either still waiting in the slot, in the hands of exactly one claimer, or
/// back with its depositor, and nothing else ever comes out. This is the
/// exchanger's no-loss, no-duplication invariant over arbitrary histories.
pub proof fn lemma_history_conserves_values<T>(s: Slot<T>, h: Seq<SlotAction<T>>)
    ensures
        held_value(s).add(deposited_values(s, h)) == held_value(history_run(s, h)).add(
            claimed_values(s, h),
        ).add(reclaimed_values(s, h)),
    decreases h.len(),
{
    broadcast use vstd::multiset::group_multiset_axioms;

    if h.len() == 0 {
        assert(held_value(s).add(deposited_values(s, h)) =~= held_value(history_run(s, h)).add(
            claimed_values(s, h),
        ).add(reclaimed_values(s, h)));
    } else {
        let s1 = action_step(s, h[0]);
        let h1 = h.drop_first();
        lemma_history_conserves_values(s1, h1);
        assert(history_run(s, h) == history_run(s1, h1));
        match h[0] {
            SlotAction::Deposit(v) => {
                if s is Empty {
                    assert(deposited_values(s, h) == deposited_values(s1, h1).insert(v));
                    assert(held_value(s1) == Multiset::empty().insert(v));
                    assert(held_value(s).add(deposited_values(s, h)) =~= held_value(s1).add(
                        deposited_values(s1, h1),
                    ));
                } else {
                    assert(s1 == s);
                }
            },
            SlotAction::Claim => {
                if s is Waiting {
                    assert(held_value(s).add(deposited_values(s, h)) =~= held_value(s1).add(
                        deposited_values(s1, h1),
                    ).insert(s->0));
                    assert(claimed_values(s, h) == claimed_values(s1, h1).insert(s->0));
                } else {
                    assert(s1 == s);
                }
            },
            SlotAction::Reclaim => {
                if s is Waiting {
                    assert(held_value(s).add(deposited_values(s, h)) =~= held_value(s1).add(
                        deposited_values(s1, h1),
                    ).insert(s->0));
                    assert(reclaimed_values(s, h) == reclaimed_values(s1, h1).insert(s->0));
                } else {
                    assert(s1 == s);
                }
            },
            SlotAction::Ack => {
                assert(held_value(s1) == held_value(s));
            },
        }
        assert(held_value(s).add(deposited_values(s, h)) =~= held_value(history_run(s, h)).add(
            claimed_values(s, h),
        ).add(reclaimed_values(s, h)));
    }
}

} // verus!
