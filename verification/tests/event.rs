use elimination_backoff_stack::event::{padding, Event};
use elimination_backoff_stack::Stack;

#[test]
fn padding_reflects_the_layering() {
    assert_eq!(padding(&Event::StartPush), 0);
    assert_eq!(padding(&Event::StartPop), 0);
    assert_eq!(padding(&Event::FinishPush), 0);
    assert_eq!(padding(&Event::FinishPop), 0);
    assert_eq!(padding(&Event::TryStack), 1);
    assert_eq!(padding(&Event::TryEliminationArray), 1);
    assert_eq!(padding(&Event::StartEliminationArrayPush), 2);
    assert_eq!(padding(&Event::StartEliminationArrayPop), 2);
    assert_eq!(padding(&Event::StartExchangerPush), 3);
    assert_eq!(padding(&Event::StartExchangerPop), 3);
}

#[test]
fn event_recording() {
    let mut stack: Stack<Vec<u8>> = Stack::new();
    let item = b"my_test_item".to_vec();
    let mut recorder: Vec<Event> = vec![];

    stack.instrumented_push(item.clone(), &mut recorder);
    assert_eq!(
        recorder,
        vec![Event::StartPush, Event::TryStack, Event::FinishPush]
    );

    recorder.clear();
    assert_eq!(stack.instrumented_pop(&mut recorder), Some(item));
    assert_eq!(
        recorder,
        vec![Event::StartPop, Event::TryStack, Event::FinishPop]
    );

    recorder.clear();
    assert_eq!(stack.instrumented_pop(&mut recorder), None);
    assert_eq!(
        recorder,
        vec![Event::StartPop, Event::TryStack, Event::FinishPop]
    );
}

#[test]
fn recording_appends_to_an_existing_trace() {
    let mut stack: Stack<u8> = Stack::new();
    let mut recorder: Vec<Event> = vec![Event::StartPop, Event::TryStack, Event::FinishPop];
    stack.instrumented_push(1, &mut recorder);
    // The earlier trace is kept; the push's three events follow it.
    assert_eq!(recorder.len(), 6);
    assert_eq!(recorder[0], Event::StartPop);
    assert_eq!(recorder[3], Event::StartPush);
    assert_eq!(recorder[4], Event::TryStack);
    assert_eq!(recorder[5], Event::FinishPush);
}
