use chain_rig::delete_after::{delete_at, DeleteAt, RemovalQueue, DEBRIS_TTL_MS};

#[test]
fn after_adds_the_duration() {
    assert_eq!(DeleteAt::after(1_000, 5_000), DeleteAt(6_000));
    assert!(DeleteAt(6_000).is_due(6_000));
    assert!(!DeleteAt(6_000).is_due(5_999));
}

#[test]
fn debris_lives_five_seconds_under_frequent_sweeps() {
    let t: u64 = 12_345;
    let mut queue = RemovalQueue::new();
    queue.register(42, DeleteAt::after(t, DEBRIS_TTL_MS));
    let mut now = t;
    while now <= t + 4_999 {
        assert!(delete_at(&mut queue, now).is_empty());
        assert!(queue.contains(42));
        now += 100;
    }
    assert!(delete_at(&mut queue, t + 4_999).is_empty());
    assert!(queue.contains(42));
    assert_eq!(delete_at(&mut queue, t + 5_001), vec![42]);
    assert!(!queue.contains(42));
}

#[test]
fn entry_is_due_exactly_at_expiry() {
    let mut queue = RemovalQueue::new();
    queue.register(1, DeleteAt(5_000));
    assert_eq!(delete_at(&mut queue, 5_000), vec![1]);
    assert_eq!(queue.len(), 0);
}

#[test]
fn sweep_removes_all_due_in_order() {
    let mut queue = RemovalQueue::new();
    queue.register(3, DeleteAt(100));
    queue.register(1, DeleteAt(300));
    queue.register(2, DeleteAt(50));
    assert_eq!(delete_at(&mut queue, 200), vec![3, 2]);
    assert_eq!(queue.len(), 1);
    assert!(queue.contains(1));
}

#[test]
fn removing_twice_is_a_no_op() {
    let mut queue = RemovalQueue::new();
    queue.register(7, DeleteAt(100));
    queue.register(8, DeleteAt(200));
    queue.remove(7);
    assert!(!queue.contains(7));
    assert_eq!(queue.len(), 1);
    queue.remove(7);
    assert_eq!(queue.len(), 1);
    assert!(queue.contains(8));
    assert_eq!(delete_at(&mut queue, 1_000), vec![8]);
}

#[test]
fn removing_an_unknown_entity_is_a_no_op() {
    let mut queue = RemovalQueue::new();
    queue.remove(99);
    assert_eq!(queue.len(), 0);
    queue.register(1, DeleteAt(10));
    queue.remove(99);
    assert_eq!(queue.len(), 1);
}

#[test]
fn registering_again_replaces_the_expiry() {
    let mut queue = RemovalQueue::new();
    queue.register(4, DeleteAt(100));
    queue.register(4, DeleteAt(900));
    assert_eq!(queue.len(), 1);
    assert!(delete_at(&mut queue, 500).is_empty());
    assert_eq!(delete_at(&mut queue, 900), vec![4]);
}
