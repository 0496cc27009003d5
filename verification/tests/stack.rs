use elimination_backoff_stack::strategy::NoEliminationStrategy;
use elimination_backoff_stack::Stack;

#[test]
fn single_threaded_scenario() {
    let mut stack: Stack<u32> = Stack::new();
    stack.push(1);
    stack.push(2);
    stack.push(3);
    assert_eq!(stack.pop(), Some(3));
    assert_eq!(stack.pop(), Some(2));
    stack.push(4);
    assert_eq!(stack.pop(), Some(4));
    assert_eq!(stack.pop(), Some(1));
    assert_eq!(stack.pop(), None);
}

#[test]
fn quickcheck_single_threaded_compare_to_vec() {
    // Random interleavings of pushes and pops, mirrored against a Vec as the
    // reference LIFO container.
    for round in 0..50 {
        let mut stack: Stack<usize> = Stack::new();
        let mut vec_stack: Vec<usize> = vec![];
        let op_count: usize = rand::random_range(0..200);
        for i in 0..op_count {
            if rand::random::<bool>() {
                let item = round * 1000 + i;
                stack.push(item);
                vec_stack.push(item);
            } else {
                assert_eq!(stack.pop(), vec_stack.pop());
            }
        }
        while let Some(expected) = vec_stack.pop() {
            assert_eq!(stack.pop(), Some(expected));
        }
        assert_eq!(stack.pop(), None);
    }
}

#[test]
fn producer_then_consumer_multiset() {
    let mut stack: Stack<usize> = Stack::new();
    for i in 0..1000 {
        stack.push(i);
    }
    let mut received = vec![];
    for _ in 0..1000 {
        received.push(stack.pop().expect("the stack still holds values"));
    }
    assert_eq!(stack.pop(), None);
    received.sort();
    let expected: Vec<usize> = (0..1000).collect();
    assert_eq!(received, expected);
}

#[test]
fn heavy_same_direction() {
    let item_count = 100_000 * num_cpus::get();
    let mut stack: Stack<()> = Stack::new();
    for _ in 0..item_count {
        stack.push(());
    }
    for _ in 0..item_count {
        assert_eq!(stack.pop(), Some(()));
    }
    assert_eq!(stack.pop(), None);
}

#[test]
fn heavy_opposite_direction_multiset() {
    let n = 1000;
    let mut stack: Stack<usize> = Stack::new();
    let mut pushed = vec![];
    for i in 0..n {
        stack.push(i);
        pushed.push(i);
    }
    for i in n..(2 * n) {
        stack.push(i);
        pushed.push(i);
    }
    let mut popped = vec![];
    for _ in 0..(2 * n) {
        popped.push(stack.pop().expect("the stack still holds values"));
    }
    assert_eq!(stack.pop(), None);
    popped.sort();
    popped.dedup();
    assert_eq!(popped.len(), 2 * n, "a value was duplicated or lost");
    pushed.sort();
    assert_eq!(popped, pushed);
}

#[test]
fn no_elimination_mode() {
    let mut stack: Stack<usize, NoEliminationStrategy, NoEliminationStrategy> = Stack::new();
    for i in 0..10_000 {
        stack.push(i);
    }
    for i in (0..10_000).rev() {
        assert_eq!(stack.pop(), Some(i));
    }
    assert_eq!(stack.pop(), None);

    let mut other: Stack<u8, NoEliminationStrategy, NoEliminationStrategy> = Stack::new();
    other.push(7);
    other.push(9);
    assert_eq!(other.pop(), Some(9));
    assert_eq!(other.pop(), Some(7));
    assert_eq!(other.pop(), None);
}

#[test]
fn randomized_no_duplication_no_loss() {
    // Unique values pushed; whatever comes back must come back once, and
    // nothing may be invented or lost.
    for _ in 0..20 {
        let mut stack: Stack<u64> = Stack::new();
        let mut next: u64 = 0;
        let mut pushed_count: u64 = 0;
        let mut popped = vec![];
        let op_count: usize = rand::random_range(1..400);
        for _ in 0..op_count {
            if rand::random::<bool>() {
                stack.push(next);
                next += 1;
                pushed_count += 1;
            } else if let Some(v) = stack.pop() {
                popped.push(v);
            }
        }
        assert!(popped.len() as u64 <= pushed_count);
        while let Some(v) = stack.pop() {
            popped.push(v);
        }
        assert_eq!(popped.len() as u64, pushed_count, "a value was lost");
        popped.sort();
        popped.dedup();
        assert_eq!(popped.len() as u64, pushed_count, "a value was duplicated");
    }
}
