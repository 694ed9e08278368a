use workpool::queue::{JobQueue, Message};

#[test]
fn queue_starts_empty() {
    let mut q = JobQueue::<u32>::new();
    assert_eq!(q.len(), 0);
    assert!(matches!(q.try_dequeue(), None));
}

#[test]
fn queue_is_fifo() {
    let mut q = JobQueue::<u32>::new();
    q.enqueue(Message::Job(10));
    q.enqueue(Message::Job(20));
    q.enqueue(Message::Job(30));
    assert_eq!(q.len(), 3);
    match q.try_dequeue() {
        Some(Message::Job(v)) => assert_eq!(v, 10),
        _ => panic!("expected the oldest job"),
    }
    match q.try_dequeue() {
        Some(Message::Job(v)) => assert_eq!(v, 20),
        _ => panic!("expected the next job"),
    }
    q.enqueue(Message::Job(40));
    match q.try_dequeue() {
        Some(Message::Job(v)) => assert_eq!(v, 30),
        _ => panic!("expected the job enqueued before the last"),
    }
    match q.try_dequeue() {
        Some(Message::Job(v)) => assert_eq!(v, 40),
        _ => panic!("expected the last job"),
    }
    assert_eq!(q.len(), 0);
}

#[test]
fn dequeue_delivers_each_message_once() {
    let mut q = JobQueue::<u32>::new();
    q.enqueue(Message::Job(7));
    assert!(matches!(q.try_dequeue(), Some(Message::Job(7))));
    // The message is gone: a second consumer finds the queue empty.
    assert!(matches!(q.try_dequeue(), None));
}

#[test]
fn stop_sentinels_travel_like_messages() {
    let mut q = JobQueue::<u32>::new();
    q.enqueue(Message::Job(1));
    q.enqueue(Message::Stop);
    q.enqueue(Message::Job(2));
    assert!(matches!(q.try_dequeue(), Some(Message::Job(1))));
    assert!(matches!(q.try_dequeue(), Some(Message::Stop)));
    assert!(matches!(q.try_dequeue(), Some(Message::Job(2))));
    assert!(matches!(q.try_dequeue(), None));
}
