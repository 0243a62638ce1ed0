use minivmm::keyboard::{KeyboardQueue, KEYBOARD_CAPACITY};
use std::sync::mpsc::sync_channel;

#[test]
fn capacity_is_sixty_four() {
    assert_eq!(KEYBOARD_CAPACITY, 64);
}

#[test]
fn empty_queue_reads_as_zero() {
    let queue = KeyboardQueue::new();
    assert_eq!(queue.len(), 0);
    assert_eq!(queue.data(), 0);
    assert_eq!(queue.status(), 0);
}

#[test]
fn read_does_not_take_the_byte() {
    let mut queue = KeyboardQueue::new();
    assert!(queue.offer(b'a'));
    assert!(queue.offer(b'b'));
    assert_eq!(queue.status(), 1);
    assert_eq!(queue.data(), b'a');
    assert_eq!(queue.data(), b'a');
    assert_eq!(queue.len(), 2);
}

#[test]
fn acknowledge_takes_the_oldest_byte() {
    let mut queue = KeyboardQueue::new();
    queue.offer(b'a');
    queue.offer(b'b');
    queue.acknowledge();
    assert_eq!(queue.data(), b'b');
    assert_eq!(queue.len(), 1);
    queue.acknowledge();
    assert_eq!(queue.status(), 0);
    assert_eq!(queue.data(), 0);
    queue.acknowledge();
    assert_eq!(queue.len(), 0);
}

#[test]
fn full_queue_drops_new_bytes() {
    let mut queue = KeyboardQueue::new();
    for i in 0..64u8 {
        assert!(queue.offer(i));
    }
    assert_eq!(queue.len(), 64);
    assert!(!queue.offer(200));
    assert!(!queue.offer(201));
    assert_eq!(queue.len(), 64);
    for i in 0..64u8 {
        assert_eq!(queue.data(), i);
        queue.acknowledge();
    }
    assert_eq!(queue.len(), 0);
}

#[test]
fn acknowledge_makes_room_again() {
    let mut queue = KeyboardQueue::new();
    for i in 0..64u8 {
        queue.offer(i);
    }
    assert!(!queue.offer(99));
    queue.acknowledge();
    assert_eq!(queue.len(), 63);
    assert!(queue.offer(100));
    assert_eq!(queue.len(), 64);
    assert_eq!(queue.data(), 1);
    for _ in 0..63 {
        queue.acknowledge();
    }
    assert_eq!(queue.data(), 100);
}

#[test]
fn channel_is_drained_in_order() {
    let (tx, rx) = sync_channel::<u8>(512);
    for byte in b"hey" {
        tx.send(*byte).unwrap();
    }
    let mut queue = KeyboardQueue::new();
    queue.offer(b'!');
    queue.process_keyboard_input(&rx);
    assert_eq!(queue.len(), 4);
    let mut seen = Vec::new();
    while queue.status() == 1 {
        seen.push(queue.data());
        queue.acknowledge();
    }
    assert_eq!(seen, b"!hey".to_vec());
    assert!(rx.try_recv().is_err());
}

#[test]
fn empty_channel_leaves_queue_alone() {
    let (_tx, rx) = sync_channel::<u8>(512);
    let mut queue = KeyboardQueue::new();
    queue.offer(7);
    queue.process_keyboard_input(&rx);
    assert_eq!(queue.len(), 1);
    assert_eq!(queue.data(), 7);
}

#[test]
fn closed_channel_leaves_queue_alone() {
    let (tx, rx) = sync_channel::<u8>(512);
    drop(tx);
    let mut queue = KeyboardQueue::new();
    queue.process_keyboard_input(&rx);
    assert_eq!(queue.len(), 0);
}

#[test]
fn drain_stops_at_a_full_queue() {
    let (tx, rx) = sync_channel::<u8>(512);
    for i in 0..70u8 {
        tx.send(i).unwrap();
    }
    let mut queue = KeyboardQueue::new();
    queue.process_keyboard_input(&rx);
    assert_eq!(queue.len(), 64);
    assert_eq!(queue.data(), 0);
    // the byte that found the queue full is gone, the rest still wait
    assert_eq!(rx.try_recv(), Ok(65));
    queue.acknowledge();
    queue.process_keyboard_input(&rx);
    assert_eq!(queue.len(), 64);
    for _ in 0..63 {
        queue.acknowledge();
    }
    assert_eq!(queue.data(), 66);
}
