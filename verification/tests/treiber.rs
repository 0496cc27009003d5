use elimination_backoff_stack::strategy::{BackAndForthStrategy, ExpRetryStrategy};
use elimination_backoff_stack::treiber_stack::TreiberStack;

#[test]
fn push_and_pop_in_lifo_order() {
    let mut stack: TreiberStack<u32> = TreiberStack::new();
    let mut s = ExpRetryStrategy::new();
    assert_eq!(stack.push(1, &mut s), Ok(()));
    let mut s = ExpRetryStrategy::new();
    assert_eq!(stack.push(2, &mut s), Ok(()));
    let mut s = ExpRetryStrategy::new();
    assert_eq!(stack.pop(&mut s), Ok(Some(2)));
    let mut s = ExpRetryStrategy::new();
    assert_eq!(stack.pop(&mut s), Ok(Some(1)));
}

#[test]
fn empty_pop_skips_the_retry_budget() {
    let mut stack: TreiberStack<u32> = TreiberStack::new();
    // Even a strategy that grants nothing learns that the stack is empty:
    // emptiness is an answer, not contention.
    let mut exhausted = BackAndForthStrategy {
        treiber_stack_push_cnt: 1,
        treiber_stack_pop_cnt: 1,
        elimination_array_push_cnt: 0,
        elimination_array_pop_cnt: 0,
        exchanger_start_push_cnt: 0,
        exchanger_retry_check_success_cnt: 0,
        exchanger_try_pop_cnt: 0,
    };
    assert_eq!(stack.pop(&mut exhausted), Ok(None));
}

#[test]
fn refused_attempts_hand_the_value_back() {
    let mut stack: TreiberStack<u32> = TreiberStack::new();
    let mut exhausted = BackAndForthStrategy {
        treiber_stack_push_cnt: 1,
        treiber_stack_pop_cnt: 1,
        elimination_array_push_cnt: 0,
        elimination_array_pop_cnt: 0,
        exchanger_start_push_cnt: 0,
        exchanger_retry_check_success_cnt: 0,
        exchanger_try_pop_cnt: 0,
    };
    // The refused push returns the caller's value untouched.
    assert_eq!(stack.push(9, &mut exhausted), Err(9));
    // The refusal re-armed the budget: the next try is granted.
    assert_eq!(stack.push(9, &mut exhausted), Ok(()));
    // A refused pop reports contention, not emptiness.
    assert_eq!(stack.pop(&mut exhausted), Err(()));
    assert_eq!(stack.pop(&mut exhausted), Ok(Some(9)));
}
