use service::queue::{Dequeued, TaskQueue, QUEUE_CAPACITY};

fn take(q: &mut TaskQueue<u32>) -> Option<u32> {
    match q.dequeue() {
        Dequeued::Item(t) => Some(t),
        _ => None,
    }
}

#[test]
fn tasks_leave_in_arrival_order() {
    let mut q = TaskQueue::new(4);
    assert!(q.try_enqueue(1).is_ok());
    assert!(q.try_enqueue(2).is_ok());
    assert_eq!(take(&mut q), Some(1));
    assert!(q.try_enqueue(3).is_ok());
    assert_eq!(take(&mut q), Some(2));
    assert_eq!(take(&mut q), Some(3));
    assert!(matches!(q.dequeue(), Dequeued::Empty));
}

#[test]
fn full_queue_hands_task_back_until_a_take() {
    let mut q = TaskQueue::new(2);
    assert!(q.try_enqueue(10).is_ok());
    assert!(q.try_enqueue(11).is_ok());
    assert!(q.is_full());
    assert_eq!(q.try_enqueue(12), Err(12));
    assert_eq!(q.len(), 2);
    assert_eq!(take(&mut q), Some(10));
    assert!(q.try_enqueue(12).is_ok());
    assert_eq!(take(&mut q), Some(11));
    assert_eq!(take(&mut q), Some(12));
}

#[test]
fn bridge_queue_holds_its_bound() {
    let mut q: TaskQueue<u32> = TaskQueue::bridge();
    assert_eq!(q.capacity(), 1024);
    assert_eq!(QUEUE_CAPACITY, 1024);
    let mut i: u32 = 0;
    while i < 1024 {
        assert!(q.try_enqueue(i).is_ok());
        i += 1;
    }
    assert_eq!(q.try_enqueue(1024), Err(1024));
    assert_eq!(take(&mut q), Some(0));
    assert!(q.try_enqueue(1024).is_ok());
    assert_eq!(q.len(), 1024);
}

#[test]
fn closed_queue_drains() {
    let mut q = TaskQueue::new(3);
    assert!(q.try_enqueue(7).is_ok());
    assert!(!q.is_closed());
    q.close();
    assert!(q.is_closed());
    assert_eq!(take(&mut q), Some(7));
    assert!(matches!(q.dequeue(), Dequeued::Drained));
}

#[test]
fn empty_open_queue_asks_to_wait() {
    let mut q: TaskQueue<u32> = TaskQueue::new(1);
    assert_eq!(q.len(), 0);
    assert!(!q.is_full());
    assert!(matches!(q.dequeue(), Dequeued::Empty));
}
