use mpsc::inner::Inner;
use std::collections::VecDeque;

#[test]
fn fresh_state_has_one_sender_and_no_values() {
    let inner = Inner::<i32>::new();
    assert_eq!(inner.senders(), 1);
    assert_eq!(inner.queued(), 0);
    assert!(inner.is_open());
    assert!(inner.is_idle());
    assert!(inner.can_attach());
}

#[test]
fn attach_and_detach_count_by_one() {
    let mut inner = Inner::<i32>::new();
    inner.attach();
    inner.attach();
    assert_eq!(inner.senders(), 3);
    inner.detach();
    assert_eq!(inner.senders(), 2);
    inner.detach();
    inner.detach();
    assert_eq!(inner.senders(), 0);
    assert!(!inner.is_open());
}

#[test]
fn open_exactly_while_clones_plus_one_exceed_drops() {
    for k in 0..4usize {
        for j in 0..=(k + 1) {
            let mut inner = Inner::<u8>::new();
            for _ in 0..k {
                inner.attach();
            }
            for _ in 0..j {
                inner.detach();
            }
            assert_eq!(inner.senders(), k + 1 - j);
            assert_eq!(inner.is_open(), k + 1 - j > 0);
        }
    }
}

#[test]
fn idle_only_when_empty_and_open() {
    let mut inner = Inner::<i32>::new();
    assert!(inner.is_idle());
    inner.push(1);
    assert!(!inner.is_idle());
    inner.detach();
    assert!(!inner.is_idle());
    let mut buffer = VecDeque::new();
    assert_eq!(inner.take(&mut buffer), Some(1));
    assert!(!inner.is_idle());
    assert_eq!(inner.queued(), 0);
    assert_eq!(inner.senders(), 0);
}

#[test]
fn take_hands_over_the_front_and_moves_the_rest() {
    let mut inner = Inner::<i32>::new();
    inner.push(10);
    inner.push(20);
    inner.push(30);
    assert_eq!(inner.queued(), 3);
    let mut buffer = VecDeque::new();
    assert_eq!(inner.take(&mut buffer), Some(10));
    assert_eq!(buffer, VecDeque::from(vec![20, 30]));
    assert_eq!(inner.queued(), 0);
    assert_eq!(inner.senders(), 1);
}

#[test]
fn take_from_an_empty_queue_changes_nothing() {
    let mut inner = Inner::<i32>::new();
    let mut buffer = VecDeque::from(vec![7, 8]);
    assert_eq!(inner.take(&mut buffer), None);
    assert_eq!(buffer, VecDeque::from(vec![7, 8]));
    assert_eq!(inner.queued(), 0);
    assert_eq!(inner.senders(), 1);
}

#[test]
fn take_leaves_the_old_buffer_in_the_queue() {
    let mut inner = Inner::<i32>::new();
    inner.push(1);
    inner.push(2);
    let mut buffer = VecDeque::from(vec![7, 8, 9]);
    assert_eq!(inner.take(&mut buffer), Some(1));
    assert_eq!(buffer, VecDeque::from(vec![2]));
    assert_eq!(inner.queued(), 3);
    let mut other = VecDeque::new();
    assert_eq!(inner.take(&mut other), Some(7));
    assert_eq!(other, VecDeque::from(vec![8, 9]));
}

#[test]
fn push_does_not_touch_the_count() {
    let mut inner = Inner::<u8>::new();
    inner.attach();
    inner.push(1);
    inner.push(2);
    assert_eq!(inner.senders(), 2);
    assert_eq!(inner.queued(), 2);
}

#[test]
fn count_in_adds_one_sender() {
    let mut inner = Inner::<i32>::new();
    inner.push(5);
    inner.count_in();
    assert_eq!(inner.senders(), 2);
    inner.count_in();
    assert_eq!(inner.senders(), 3);
    assert_eq!(inner.queued(), 1);
}

#[test]
fn count_out_takes_one_sender_off() {
    let mut inner = Inner::<i32>::new();
    inner.push(5);
    inner.count_in();
    inner.count_out();
    assert_eq!(inner.senders(), 1);
    inner.count_out();
    assert_eq!(inner.senders(), 0);
    assert!(!inner.is_open());
    assert_eq!(inner.queued(), 1);
}

#[test]
fn count_out_leaves_a_count_of_zero() {
    let mut inner = Inner::<i32>::new();
    inner.count_out();
    assert_eq!(inner.senders(), 0);
    inner.count_out();
    assert_eq!(inner.senders(), 0);
    inner.count_in();
    assert_eq!(inner.senders(), 1);
}
