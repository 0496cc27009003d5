use elimination_backoff_stack::event::NoOpRecorder;
use elimination_backoff_stack::exchanger::{Exchanger, SlotTag};
use elimination_backoff_stack::strategy::{BackAndForthStrategy, ExpRetryStrategy};

/// The full hand-off, with the two parties' steps interleaved as two threads
/// would interleave them: deposit, claim, acknowledge. The claimer obtains
/// exactly the deposited value, once, and the slot returns to empty.
#[test]
fn handoff_transfers_exactly_once() {
    let mut ex: Exchanger<u32> = Exchanger::new();
    assert_eq!(ex.load(), SlotTag::Empty);

    assert!(ex.try_deposit(7).is_ok());
    assert_eq!(ex.load(), SlotTag::Waiting);

    assert_eq!(ex.try_claim(), Some(7));
    assert_eq!(ex.load(), SlotTag::Busy);

    // A second claim gets nothing: the value cannot be duplicated.
    assert_eq!(ex.try_claim(), None);
    assert_eq!(ex.load(), SlotTag::Busy);

    ex.acknowledge();
    assert_eq!(ex.load(), SlotTag::Empty);
}

/// Many hand-offs in a row: every deposit pairs up with exactly one claim
/// and the slot is clean again after each round.
#[test]
fn repeated_handoffs_all_pair_up() {
    let mut ex: Exchanger<usize> = Exchanger::new();
    for i in 0..100 {
        assert!(ex.try_deposit(i).is_ok());
        assert_eq!(ex.try_claim(), Some(i));
        ex.acknowledge();
        assert_eq!(ex.load(), SlotTag::Empty);
    }
}

#[test]
fn deposit_never_overwrites() {
    let mut ex: Exchanger<u32> = Exchanger::new();
    assert!(ex.try_deposit(1).is_ok());
    // A second pusher may not overwrite the waiting value.
    assert_eq!(ex.try_deposit(2), Err(2));
    assert_eq!(ex.try_claim(), Some(1));
    // Nor may anyone deposit over a busy slot.
    assert_eq!(ex.try_deposit(3), Err(3));
    ex.acknowledge();
    assert!(ex.try_deposit(4).is_ok());
    assert_eq!(ex.try_reclaim(), Some(4));
    assert_eq!(ex.load(), SlotTag::Empty);
}

#[test]
fn reclaim_recovers_the_deposit() {
    let mut ex: Exchanger<&'static str> = Exchanger::new();
    assert!(ex.try_deposit("mine").is_ok());
    assert_eq!(ex.try_reclaim(), Some("mine"));
    assert_eq!(ex.load(), SlotTag::Empty);
    // Nothing left to reclaim or claim.
    assert_eq!(ex.try_reclaim(), None);
    assert_eq!(ex.try_claim(), None);
}

#[test]
fn exchange_push_returns_the_value_without_a_partner() {
    let mut ex: Exchanger<u32> = Exchanger::new();
    let mut strategy = ExpRetryStrategy::new();
    let mut recorder = NoOpRecorder {};
    assert_eq!(ex.exchange_push(42, &mut strategy, &mut recorder), Err(42));
    assert_eq!(ex.load(), SlotTag::Empty);

    let mut strategy = BackAndForthStrategy::new();
    assert_eq!(ex.exchange_push(43, &mut strategy, &mut recorder), Err(43));
    assert_eq!(ex.load(), SlotTag::Empty);
}

#[test]
fn exchange_pop_claims_a_waiting_deposit() {
    let mut ex: Exchanger<u32> = Exchanger::new();
    let mut recorder = NoOpRecorder {};

    // Nothing waiting: the pop comes back empty-handed.
    let mut strategy = ExpRetryStrategy::new();
    assert_eq!(ex.exchange_pop(&mut strategy, &mut recorder), Err(()));
    assert_eq!(ex.load(), SlotTag::Empty);

    // A deposit is waiting, as it would be mid-exchange of a pusher: the pop
    // claims exactly that value and leaves the slot busy for the pusher.
    assert!(ex.try_deposit(5).is_ok());
    let mut strategy = ExpRetryStrategy::new();
    assert_eq!(ex.exchange_pop(&mut strategy, &mut recorder), Ok(5));
    assert_eq!(ex.load(), SlotTag::Busy);
    ex.acknowledge();
    assert_eq!(ex.load(), SlotTag::Empty);
}
