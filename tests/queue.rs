use bonsai_core::queue::BlockQueue;

#[test]
fn drain_hands_out_blocks_in_order() {
    let mut q: BlockQueue<&str> = BlockQueue::new();
    q.enqueue("a", 10);
    q.enqueue("b", 11);
    assert_eq!(q.len(), 2);
    let out = q.drain();
    assert_eq!(out, vec![("a", 10), ("b", 11)]);
    assert_eq!(q.len(), 0);
}

#[test]
fn drained_counts_sum_to_enqueued() {
    let mut q: BlockQueue<u32> = BlockQueue::new();
    let mut total = 0usize;
    let mut drained = 0usize;
    for round in 0..5u32 {
        for i in 0..round {
            q.enqueue(i, i);
            total += 1;
        }
        drained += q.drain().len();
    }
    q.enqueue(9, 9);
    total += 1;
    drained += q.drain().len();
    assert_eq!(drained, total);
    assert_eq!(q.drain().len(), 0);
}
