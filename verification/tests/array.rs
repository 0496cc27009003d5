use elimination_backoff_stack::elimination_array::EliminationArray;
use elimination_backoff_stack::event::NoOpRecorder;
use elimination_backoff_stack::strategy::{BackAndForthStrategy, ExpRetryStrategy};

#[test]
fn push_without_partner_returns_the_value() {
    let mut array: EliminationArray<u64> = EliminationArray::new();
    let mut recorder = NoOpRecorder {};
    let mut strategy = ExpRetryStrategy::new();
    assert_eq!(array.exchange_push(11, &mut strategy, &mut recorder), Err(11));
    let mut strategy = BackAndForthStrategy::new();
    assert_eq!(array.exchange_push(12, &mut strategy, &mut recorder), Err(12));
}

#[test]
fn pop_on_a_quiet_array_comes_back_empty() {
    let mut array: EliminationArray<u64> = EliminationArray::new();
    let mut recorder = NoOpRecorder {};
    let mut strategy = ExpRetryStrategy::new();
    assert_eq!(array.exchange_pop(&mut strategy, &mut recorder), Err(()));
    let mut strategy = BackAndForthStrategy::new();
    assert_eq!(array.exchange_pop(&mut strategy, &mut recorder), Err(()));
}

#[test]
fn chosen_width_arrays_work() {
    let mut recorder = NoOpRecorder {};
    for n in [1, 2, 8, 64] {
        let mut array: EliminationArray<u32> = EliminationArray::with_width(n);
        let mut strategy = ExpRetryStrategy::new();
        assert_eq!(array.exchange_push(5, &mut strategy, &mut recorder), Err(5));
        let mut strategy = ExpRetryStrategy::new();
        assert_eq!(array.exchange_pop(&mut strategy, &mut recorder), Err(()));
    }
}

#[test]
fn repeated_exchanges_leave_the_array_reusable() {
    let mut array: EliminationArray<u64> = EliminationArray::new();
    let mut recorder = NoOpRecorder {};
    for i in 0..100 {
        let mut strategy = ExpRetryStrategy::new();
        assert_eq!(array.exchange_push(i, &mut strategy, &mut recorder), Err(i));
        let mut strategy = ExpRetryStrategy::new();
        assert_eq!(array.exchange_pop(&mut strategy, &mut recorder), Err(()));
    }
}
