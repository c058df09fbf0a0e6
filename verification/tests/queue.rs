use pitch_trigger::queue::TransferQueue;

#[test]
fn fresh_queue_is_empty() {
    let mut q = TransferQueue::new();
    assert_eq!(q.len(), 0);
    assert!(q.try_receive_all().is_empty());
}

#[test]
fn send_then_drain_preserves_order_and_loses_nothing() {
    let mut q = TransferQueue::new();
    let chunks = vec![vec![1, 2, 3], vec![4, 5], vec![], vec![6]];
    for c in &chunks {
        q.send(c.clone());
    }
    assert_eq!(q.len(), 4);
    let drained = q.try_receive_all();
    assert_eq!(drained, chunks);
    assert_eq!(q.len(), 0);
}

#[test]
fn interleaved_sends_and_drains_deliver_everything_in_order() {
    let mut q = TransferQueue::new();
    let mut delivered: Vec<Vec<i32>> = Vec::new();

    q.send(vec![1]);
    q.send(vec![2, 2]);
    delivered.extend(q.try_receive_all());
    delivered.extend(q.try_receive_all());
    q.send(vec![3]);
    delivered.extend(q.try_receive_all());
    q.send(vec![4]);
    q.send(vec![5]);

    assert_eq!(delivered, vec![vec![1], vec![2, 2], vec![3]]);
    let pending = q.try_receive_all();
    assert_eq!(pending, vec![vec![4], vec![5]]);
}
