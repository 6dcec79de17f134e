use worldping::dispatch::{dispatch, next_queue, worker_threads, QUEUE_CAPACITY};

#[test]
fn round_robin_over_three_queues() {
    let addrs: Vec<u32> = vec![0, 1, 2, 3, 4, 5, 6];
    let queues = dispatch(3, &addrs);
    assert_eq!(queues.len(), 3);
    assert_eq!(queues[0], vec![0, 3, 6]);
    assert_eq!(queues[1], vec![1, 4]);
    assert_eq!(queues[2], vec![2, 5]);
}

#[test]
fn one_queue_takes_everything_in_order() {
    let addrs: Vec<u32> = vec![9, 8, 7];
    let queues = dispatch(1, &addrs);
    assert_eq!(queues.len(), 1);
    assert_eq!(queues[0], vec![9, 8, 7]);
}

#[test]
fn more_queues_than_addresses_leaves_some_empty() {
    let addrs: Vec<u32> = vec![10, 20];
    let queues = dispatch(4, &addrs);
    assert_eq!(queues[0], vec![10]);
    assert_eq!(queues[1], vec![20]);
    assert!(queues[2].is_empty());
    assert!(queues[3].is_empty());
}

#[test]
fn queue_cursor_wraps_around() {
    assert_eq!(next_queue(0, 3), 1);
    assert_eq!(next_queue(1, 3), 2);
    assert_eq!(next_queue(2, 3), 0);
    assert_eq!(next_queue(0, 1), 0);
}

#[test]
fn default_worker_count_is_a_third_but_at_least_one() {
    assert_eq!(worker_threads(12), 4);
    assert_eq!(worker_threads(8), 2);
    assert_eq!(worker_threads(3), 1);
    assert_eq!(worker_threads(2), 1);
    assert_eq!(worker_threads(1), 1);
}

#[test]
fn queue_capacity_bounds_memory() {
    assert_eq!(QUEUE_CAPACITY, 64);
}
