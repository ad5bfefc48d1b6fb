use web_input_bridge::event::WebEvent;
use web_input_bridge::queue::{offer, take_batch, EventQueue};

fn input(text: &str) -> WebEvent {
    WebEvent::Input(text.to_string())
}

#[test]
fn new_queue_is_empty() {
    let queue = EventQueue::new();
    assert!(queue.is_empty());
    assert_eq!(queue.len(), 0);
}

#[test]
fn enqueue_appends_behind_what_waits() {
    let mut queue = EventQueue::new();
    queue.enqueue(input("a"));
    queue.enqueue(WebEvent::Submit("a".to_string()));
    queue.enqueue(input("b"));
    assert_eq!(queue.len(), 3);
    assert!(!queue.is_empty());
    assert_eq!(
        queue.drain(),
        vec![input("a"), WebEvent::Submit("a".to_string()), input("b")]
    );
}

#[test]
fn drain_returns_everything_oldest_first_and_empties() {
    let mut queue = EventQueue::new();
    for i in 0..100 {
        queue.enqueue(input(&i.to_string()));
    }
    let batch = queue.drain();
    assert_eq!(batch.len(), 100);
    for (i, event) in batch.iter().enumerate() {
        assert_eq!(*event, input(&i.to_string()));
    }
    assert!(queue.is_empty());
}

#[test]
fn drain_of_empty_queue_is_empty() {
    let mut queue = EventQueue::new();
    assert_eq!(queue.drain(), Vec::<WebEvent>::new());
    assert!(queue.is_empty());
}

#[test]
fn second_drain_returns_nothing() {
    let mut queue = EventQueue::new();
    queue.enqueue(input("x"));
    assert_eq!(queue.drain().len(), 1);
    assert_eq!(queue.drain().len(), 0);
}

#[test]
fn consecutive_drains_share_no_event() {
    let mut queue = EventQueue::new();
    queue.enqueue(input("first"));
    queue.enqueue(input("second"));
    let one = queue.drain();
    queue.enqueue(input("third"));
    let two = queue.drain();
    assert_eq!(one, vec![input("first"), input("second")]);
    assert_eq!(two, vec![input("third")]);
}

#[test]
fn offer_with_the_lock_enqueues() {
    let mut queue = EventQueue::new();
    assert!(offer(Some(&mut queue), input("a")));
    assert!(offer(Some(&mut queue), input("b")));
    assert_eq!(queue.drain(), vec![input("a"), input("b")]);
}

#[test]
fn offer_without_the_lock_drops_the_event() {
    let mut queue = EventQueue::new();
    assert!(offer(Some(&mut queue), input("kept")));
    assert!(!offer(None, input("dropped")));
    assert_eq!(queue.len(), 1);
    assert_eq!(queue.drain(), vec![input("kept")]);
}

#[test]
fn take_batch_with_the_lock_drains() {
    let mut queue = EventQueue::new();
    queue.enqueue(input("a"));
    assert_eq!(take_batch(Some(&mut queue)), Some(vec![input("a")]));
    assert!(queue.is_empty());
    assert_eq!(take_batch(Some(&mut queue)), Some(vec![]));
}

#[test]
fn take_batch_without_the_lock_skips_and_keeps_the_queue() {
    let mut queue = EventQueue::new();
    queue.enqueue(input("a"));
    assert_eq!(take_batch(None), None);
    assert_eq!(queue.len(), 1);
    assert_eq!(take_batch(Some(&mut queue)), Some(vec![input("a")]));
}

#[test]
fn interleaved_steps_lose_and_repeat_nothing() {
    let mut queue = EventQueue::new();
    let mut delivered: Vec<WebEvent> = Vec::new();
    let mut accepted: Vec<WebEvent> = Vec::new();
    for round in 0..20u32 {
        for k in 0..(round % 4) {
            let event = input(&format!("{round}-{k}"));
            let locked = (round + k) % 5 != 0;
            let guard = if locked { Some(&mut queue) } else { None };
            if offer(guard, event.clone()) {
                accepted.push(event);
            }
        }
        let guard = if round % 3 != 0 { Some(&mut queue) } else { None };
        if let Some(batch) = take_batch(guard) {
            delivered.extend(batch);
        }
    }
    delivered.extend(queue.drain());
    assert_eq!(delivered, accepted);
}
