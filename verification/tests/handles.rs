use mpsc::channel;

#[test]
fn single_sender_test() {
    let (mut tx, mut rx) = channel::<i32>();
    tx.send(43);
    assert_eq!(rx.recv(), Some(43));
}

#[test]
fn single_sender_drop_test() {
    let (tx, mut rx) = channel::<i32>();
    drop(tx);
    assert_eq!(rx.recv(), None);
}

#[test]
fn values_arrive_in_the_order_sent() {
    let (mut tx, mut rx) = channel::<u32>();
    for v in 0..100u32 {
        tx.send(v * 7);
    }
    for v in 0..100u32 {
        assert_eq!(rx.recv(), Some(v * 7));
    }
    drop(tx);
    assert_eq!(rx.recv(), None);
}

#[test]
fn sends_between_receives_keep_their_order() {
    let (mut tx, mut rx) = channel::<&str>();
    tx.send("a");
    tx.send("b");
    tx.send("c");
    assert_eq!(rx.recv(), Some("a"));
    tx.send("d");
    assert_eq!(rx.recv(), Some("b"));
    tx.send("e");
    assert_eq!(rx.recv(), Some("c"));
    assert_eq!(rx.recv(), Some("d"));
    assert_eq!(rx.recv(), Some("e"));
    drop(tx);
    assert_eq!(rx.recv(), None);
}

#[test]
fn queued_values_outlive_the_last_sender() {
    let (mut tx, mut rx) = channel::<i32>();
    tx.send(1);
    tx.send(2);
    drop(tx);
    assert_eq!(rx.recv(), Some(1));
    assert_eq!(rx.recv(), Some(2));
    assert_eq!(rx.recv(), None);
}

#[test]
fn end_of_stream_is_repeated() {
    let (mut tx, mut rx) = channel::<i32>();
    tx.send(5);
    drop(tx);
    assert_eq!(rx.recv(), Some(5));
    for _ in 0..10 {
        assert_eq!(rx.recv(), None);
    }
}

#[test]
fn multi_send_test() {
    let (mut tx, mut rx) = channel::<i32>();
    let mut tx2 = tx.clone();
    tx.send(1);
    drop(tx);

    tx2.send(2);
    drop(tx2);

    let f1 = rx.recv();
    let f2 = rx.recv();
    let end = rx.recv();
    assert_eq!(f1, Some(1));
    assert_eq!(f2, Some(2));
    assert_eq!(end, None);
}

#[test]
fn two_senders_in_the_other_order() {
    let (mut tx, mut rx) = channel::<i32>();
    let mut tx2 = tx.clone();
    tx2.send(2);
    tx.send(1);
    drop(tx2);
    drop(tx);
    assert_eq!(rx.recv(), Some(2));
    assert_eq!(rx.recv(), Some(1));
    assert_eq!(rx.recv(), None);
}

#[test]
fn a_clone_keeps_the_channel_open() {
    let (tx, mut rx) = channel::<i32>();
    let mut tx2 = tx.clone();
    drop(tx);
    tx2.send(9);
    assert_eq!(rx.recv(), Some(9));
    let mut tx3 = tx2.clone();
    drop(tx2);
    tx3.send(10);
    drop(tx3);
    assert_eq!(rx.recv(), Some(10));
    assert_eq!(rx.recv(), None);
}

#[test]
fn open_until_the_last_of_many_clones_is_dropped() {
    let (tx, mut rx) = channel::<usize>();
    let mut clones = Vec::new();
    for _ in 0..5 {
        clones.push(tx.clone());
    }
    drop(tx);
    let mut left = clones.len();
    while let Some(mut handle) = clones.pop() {
        handle.send(left);
        assert_eq!(rx.recv(), Some(left));
        left -= 1;
        drop(handle);
    }
    assert_eq!(left, 0);
    assert_eq!(rx.recv(), None);
}

#[test]
fn values_need_not_be_copyable() {
    let (mut tx, mut rx) = channel::<String>();
    tx.send(String::from("first"));
    tx.send(String::from("second"));
    drop(tx);
    assert_eq!(rx.recv(), Some(String::from("first")));
    assert_eq!(rx.recv(), Some(String::from("second")));
    assert_eq!(rx.recv(), None);
}

#[test]
fn sending_without_a_receiver_is_harmless() {
    let (mut tx, rx) = channel::<i32>();
    drop(rx);
    tx.send(1);
    let mut tx2 = tx.clone();
    tx2.send(2);
}

#[test]
fn next_reads_like_recv() {
    let (mut tx, mut rx) = channel::<i32>();
    tx.send(3);
    tx.send(4);
    assert_eq!(rx.next(), Some(3));
    assert_eq!(rx.recv(), Some(4));
    drop(tx);
    assert_eq!(rx.next(), None);
    assert_eq!(rx.next(), None);
}

#[test]
fn a_batch_is_handed_out_before_later_sends() {
    let (mut tx, mut rx) = channel::<i32>();
    for v in 0..4 {
        tx.send(v);
    }
    assert_eq!(rx.recv(), Some(0));
    for v in 4..8 {
        tx.send(v);
    }
    drop(tx);
    let mut got = Vec::new();
    while let Some(v) = rx.recv() {
        got.push(v);
    }
    assert_eq!(got, vec![1, 2, 3, 4, 5, 6, 7]);
}

#[test]
fn handles_move_between_owners() {
    let (tx, rx) = channel::<u8>();
    let mut senders = vec![tx.clone(), tx];
    let mut receivers = vec![rx];
    senders[1].send(1);
    senders[0].send(2);
    senders.clear();
    let mut rx = receivers.pop().unwrap();
    assert_eq!(rx.recv(), Some(1));
    assert_eq!(rx.recv(), Some(2));
    assert_eq!(rx.recv(), None);
}
