use elimination_backoff_stack::elimination_array::PopStrategy as ArrayPopStrategy;
use elimination_backoff_stack::elimination_array::PushStrategy as ArrayPushStrategy;
use elimination_backoff_stack::exchanger::PopStrategy as ExchangerPopStrategy;
use elimination_backoff_stack::exchanger::PushStrategy as ExchangerPushStrategy;
use elimination_backoff_stack::strategy::{
    BackAndForthStrategy, ExpRetryStrategy, NoEliminationStrategy,
};
use elimination_backoff_stack::treiber_stack::PopStrategy as TreiberPopStrategy;
use elimination_backoff_stack::treiber_stack::PushStrategy as TreiberPushStrategy;
use elimination_backoff_stack::PushStrategy as StackPushStrategy;

#[test]
fn back_and_forth_alternates_at_the_stack() {
    let mut s = BackAndForthStrategy::new();
    // One granted try, one refusal, then granted again: the budget re-arms.
    assert!(TreiberPushStrategy::try_push(&mut s));
    assert!(!TreiberPushStrategy::try_push(&mut s));
    assert!(TreiberPushStrategy::try_push(&mut s));
    assert!(TreiberPopStrategy::try_pop(&mut s));
    assert!(!TreiberPopStrategy::try_pop(&mut s));
    assert!(TreiberPopStrategy::try_pop(&mut s));
}

#[test]
fn back_and_forth_exchanger_budgets() {
    let mut s = BackAndForthStrategy::new();
    // Eleven granted deposit attempts in a row, then a refusal.
    for _ in 0..11 {
        assert!(s.try_start_exchange());
    }
    assert!(!s.try_start_exchange());
    for _ in 0..11 {
        assert!(s.retry_check_exchanged());
    }
    assert!(!s.retry_check_exchanged());
    for _ in 0..11 {
        assert!(s.try_exchange());
    }
    assert!(!s.try_exchange());
    // The hooks fired on observations change nothing here.
    s.on_contention();
    s.on_no_contention();
    assert_eq!(s.exchanger_try_pop_cnt, 0);
}

#[test]
fn use_elimination_array_changes_nothing() {
    let mut s = ExpRetryStrategy::new();
    s.on_contention();
    let before = s.retry_exponent;
    assert!(StackPushStrategy::use_elimination_array(&mut s));
    assert_eq!(s.retry_exponent, before);
    assert_eq!(s.treiber_stack_push_cnt, 0);
    assert_eq!(s.elimination_array_push_cnt, 0);

    let mut b = BackAndForthStrategy::new();
    assert!(StackPushStrategy::use_elimination_array(&mut b));
    assert_eq!(b.treiber_stack_push_cnt, 0);
    assert_eq!(b.elimination_array_push_cnt, 0);
    assert_eq!(b.exchanger_start_push_cnt, 0);
}

#[test]
fn back_and_forth_uses_the_full_array() {
    let mut s = BackAndForthStrategy::new();
    assert!(StackPushStrategy::use_elimination_array(&mut s));
    assert_eq!(ArrayPushStrategy::num_exchangers(&mut s, 8), 8);
    assert_eq!(ArrayPopStrategy::num_exchangers(&mut s, 3), 3);
    assert!(ArrayPushStrategy::try_push(&mut s));
    assert!(!ArrayPushStrategy::try_push(&mut s));
    assert!(ArrayPopStrategy::try_pop(&mut s));
    assert!(!ArrayPopStrategy::try_pop(&mut s));
}

#[test]
fn no_elimination_refuses_every_elimination_hook() {
    let mut s = NoEliminationStrategy::new();
    assert!(!StackPushStrategy::use_elimination_array(&mut s));
    assert!(!ArrayPushStrategy::try_push(&mut s));
    assert!(!ArrayPopStrategy::try_pop(&mut s));
    assert!(!s.try_start_exchange());
    assert!(!s.retry_check_exchanged());
    assert!(!s.try_exchange());
    // The stack layer still alternates as usual.
    assert!(TreiberPushStrategy::try_push(&mut s));
    assert!(!TreiberPushStrategy::try_push(&mut s));
    assert!(TreiberPopStrategy::try_pop(&mut s));
    assert!(!TreiberPopStrategy::try_pop(&mut s));
}

#[test]
fn exp_retry_raises_the_exponent_on_congestion() {
    let mut s = ExpRetryStrategy::new();
    assert_eq!(s.retry_exponent, 0);
    // A refused stack try signals congestion.
    assert!(TreiberPushStrategy::try_push(&mut s));
    assert!(!TreiberPushStrategy::try_push(&mut s));
    assert_eq!(s.retry_exponent, 1);
    assert!(TreiberPopStrategy::try_pop(&mut s));
    assert!(!TreiberPopStrategy::try_pop(&mut s));
    assert_eq!(s.retry_exponent, 2);
    // Contention on a slot raises it further, clamped at the ceiling.
    s.on_contention();
    s.on_contention();
    s.on_contention();
    s.on_contention();
    assert_eq!(s.retry_exponent, 5);
    s.on_contention();
    assert_eq!(s.retry_exponent, 5);
    // An empty slot lowers it by two, saturating at zero.
    s.on_no_contention();
    assert_eq!(s.retry_exponent, 3);
    s.on_no_contention();
    s.on_no_contention();
    assert_eq!(s.retry_exponent, 0);
}

#[test]
fn exp_retry_widens_the_array_scope_exponentially() {
    let mut s = ExpRetryStrategy::new();
    assert_eq!(ArrayPushStrategy::num_exchangers(&mut s, 64), 1);
    s.on_contention();
    assert_eq!(ArrayPushStrategy::num_exchangers(&mut s, 64), 2);
    s.on_contention();
    assert_eq!(ArrayPushStrategy::num_exchangers(&mut s, 64), 4);
    s.on_contention();
    s.on_contention();
    s.on_contention();
    assert_eq!(ArrayPushStrategy::num_exchangers(&mut s, 64), 32);
    // Never wider than the array itself.
    assert_eq!(ArrayPopStrategy::num_exchangers(&mut s, 3), 3);
}

#[test]
fn exp_retry_array_budget_doubles_with_congestion() {
    let mut s = ExpRetryStrategy::new();
    // At exponent zero: two picks, then a refusal.
    assert!(ArrayPushStrategy::try_push(&mut s));
    assert!(ArrayPushStrategy::try_push(&mut s));
    assert!(!ArrayPushStrategy::try_push(&mut s));
    // One congestion level: four picks.
    s.on_contention();
    for _ in 0..4 {
        assert!(ArrayPopStrategy::try_pop(&mut s));
    }
    assert!(!ArrayPopStrategy::try_pop(&mut s));
}

#[test]
fn exp_retry_exchanger_hooks() {
    let mut s = ExpRetryStrategy::new();
    // One deposit attempt per exchanger; a refusal raises the exponent.
    assert!(s.try_start_exchange());
    assert!(!s.try_start_exchange());
    assert_eq!(s.retry_exponent, 1);
    // The wait budget is ten rounds per congestion level.
    for _ in 0..10 {
        assert!(s.retry_check_exchanged());
    }
    assert!(!s.retry_check_exchanged());
    // Waiting in vain means congestion is gone: the exponent drops by two.
    assert_eq!(s.retry_exponent, 0);
    // At exponent zero the wait budget is empty.
    assert!(!s.retry_check_exchanged());
    // One claim attempt per exchanger.
    assert!(s.try_exchange());
    assert!(!s.try_exchange());
    assert!(s.try_exchange());
}
