use doca_bot::queue::{CommandQueue, COMMAND_QUEUE_CAPACITY};

#[test]
fn queue_hands_items_out_in_order() {
    let mut queue: CommandQueue<u32> = CommandQueue::new(3);
    assert!(queue.is_empty());
    assert_eq!(queue.try_send(1), Ok(()));
    assert_eq!(queue.try_send(2), Ok(()));
    assert_eq!(queue.try_send(3), Ok(()));
    assert_eq!(queue.len(), 3);
    assert_eq!(queue.recv(), Some(1));
    assert_eq!(queue.recv(), Some(2));
    assert_eq!(queue.recv(), Some(3));
    assert_eq!(queue.recv(), None);
}

#[test]
fn full_queue_hands_the_item_back_and_keeps_its_content() {
    let mut queue: CommandQueue<&str> = CommandQueue::new(2);
    assert_eq!(queue.try_send("a"), Ok(()));
    assert_eq!(queue.try_send("b"), Ok(()));
    assert!(queue.is_full());
    assert_eq!(queue.try_send("c"), Err("c"));
    assert_eq!(queue.len(), 2);
    assert_eq!(queue.recv(), Some("a"));
    assert!(!queue.is_full());
    assert_eq!(queue.try_send("c"), Ok(()));
    assert_eq!(queue.recv(), Some("b"));
    assert_eq!(queue.recv(), Some("c"));
    assert_eq!(queue.recv(), None);
}

#[test]
fn queue_of_capacity_zero_accepts_nothing() {
    let mut queue: CommandQueue<u8> = CommandQueue::new(0);
    assert!(queue.is_full());
    assert_eq!(queue.try_send(1), Err(1));
    assert_eq!(queue.recv(), None);
}

#[test]
fn nothing_is_dropped_under_back_pressure() {
    let mut queue: CommandQueue<u32> = CommandQueue::new(4);
    let mut next: u32 = 0;
    let mut waiting: Option<u32> = None;
    let mut accepted: Vec<u32> = Vec::new();
    let mut received: Vec<u32> = Vec::new();
    for round in 0..200u32 {
        for _ in 0..3 {
            let item = match waiting.take() {
                Some(kept) => kept,
                None => {
                    next += 1;
                    next
                }
            };
            match queue.try_send(item) {
                Ok(()) => accepted.push(item),
                Err(back) => {
                    assert_eq!(back, item);
                    waiting = Some(back);
                    break;
                }
            }
        }
        if round % 2 == 0 {
            if let Some(item) = queue.recv() {
                received.push(item);
            }
        }
        assert!(queue.len() <= 4);
        assert_eq!(accepted.len(), received.len() + queue.len());
    }
    while let Some(item) = queue.recv() {
        received.push(item);
    }
    assert_eq!(accepted, received);
    let expected: Vec<u32> = (1..=accepted.len() as u32).collect();
    assert_eq!(received, expected);
}

#[test]
fn gateway_queue_holds_4096_commands() {
    assert_eq!(COMMAND_QUEUE_CAPACITY, 4096);
    let mut queue: CommandQueue<usize> = CommandQueue::new(COMMAND_QUEUE_CAPACITY);
    for i in 0..4096 {
        assert_eq!(queue.try_send(i), Ok(()));
    }
    assert_eq!(queue.try_send(4096), Err(4096));
}
