use status_flood::connector::{after_connect, after_push, start, ConnectorAction};
use status_flood::queue::{ConnectionQueue, QUEUE_CAPACITY};

#[test]
fn default_capacity_is_one_thousand() {
    let q: ConnectionQueue<u32> = ConnectionQueue::with_default_capacity();
    assert_eq!(QUEUE_CAPACITY, 1000);
    assert_eq!(q.capacity(), 1000);
    assert!(q.is_empty());
}

#[test]
fn full_queue_hands_item_back() {
    let mut q: ConnectionQueue<u32> = ConnectionQueue::with_default_capacity();
    for i in 0..1000 {
        assert_eq!(q.try_push(i), Ok(()));
    }
    assert!(q.is_full());
    assert_eq!(q.try_push(1000), Err(1000));
    assert_eq!(q.len(), 1000);
    assert_eq!(q.pop(), Some(0));
    assert_eq!(q.try_push(1000), Ok(()));
    assert_eq!(q.len(), 1000);
}

#[test]
fn queue_is_first_in_first_out() {
    let mut q: ConnectionQueue<&str> = ConnectionQueue::new(3);
    assert_eq!(q.try_push("a"), Ok(()));
    assert_eq!(q.try_push("b"), Ok(()));
    assert_eq!(q.pop(), Some("a"));
    assert_eq!(q.try_push("c"), Ok(()));
    assert_eq!(q.try_push("d"), Ok(()));
    assert_eq!(q.try_push("e"), Err("e"));
    assert_eq!(q.pop(), Some("b"));
    assert_eq!(q.pop(), Some("c"));
    assert_eq!(q.pop(), Some("d"));
    assert_eq!(q.pop(), None);
}

#[test]
fn pop_on_empty_queue() {
    let mut q: ConnectionQueue<u8> = ConnectionQueue::new(1);
    assert_eq!(q.pop(), None);
    assert!(q.is_empty());
}

#[test]
fn connect_failures_keep_connecting() {
    let mut action: ConnectorAction<u32> = start();
    for _ in 0..10_000 {
        assert_eq!(action, ConnectorAction::Connect);
        action = after_connect::<u32, String>(Err("refused".to_string()));
    }
    assert_eq!(action, ConnectorAction::Connect);
}

#[test]
fn connected_goes_to_queue_then_back_to_connect() {
    assert_eq!(after_connect::<u32, ()>(Ok(7)), ConnectorAction::Push(7));
    assert_eq!(after_push::<u32>(Ok(())), ConnectorAction::Connect);
    assert_eq!(after_push::<u32>(Err(7)), ConnectorAction::Push(7));
}

#[test]
fn connector_feeds_queue_under_backpressure() {
    let mut q: ConnectionQueue<u32> = ConnectionQueue::new(2);
    let mut next = 0u32;
    let mut action: ConnectorAction<u32> = start();
    let mut refused = 0;
    for _ in 0..8 {
        action = match action {
            ConnectorAction::Connect => {
                next += 1;
                after_connect::<u32, ()>(Ok(next))
            }
            ConnectorAction::Push(c) => {
                let r = q.try_push(c);
                if r.is_err() {
                    refused += 1;
                }
                after_push(r)
            }
        };
    }
    assert!(refused > 0);
    assert_eq!(action, ConnectorAction::Push(3));
    assert_eq!(q.pop(), Some(1));
    assert_eq!(q.pop(), Some(2));
}
