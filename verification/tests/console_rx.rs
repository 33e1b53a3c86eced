use pipemux::console::{RxRingBuffer, BUFFER_SIZE};

#[test]
fn pop_on_empty_buffer_is_none() {
    let mut rx = RxRingBuffer::new();
    assert_eq!(rx.pop(), None);
}

#[test]
fn bytes_come_out_in_arrival_order() {
    let mut rx = RxRingBuffer::new();
    rx.push(10);
    rx.push(20);
    rx.push(30);
    assert_eq!(rx.pop(), Some(10));
    assert_eq!(rx.pop(), Some(20));
    assert_eq!(rx.pop(), Some(30));
    assert_eq!(rx.pop(), None);
}

#[test]
fn a_byte_arriving_at_a_full_buffer_is_dropped() {
    let mut rx = RxRingBuffer::new();
    for i in 0..BUFFER_SIZE {
        rx.push((i % 256) as u8);
    }
    rx.push(99);  // no room: dropped
    for i in 0..BUFFER_SIZE {
        assert_eq!(rx.pop(), Some((i % 256) as u8));
    }
    assert_eq!(rx.pop(), None);
}

#[test]
fn wraparound_keeps_arrival_order() {
    let mut rx = RxRingBuffer::new();
    for i in 0..BUFFER_SIZE {
        rx.push(i as u8);
    }
    for i in 0..BUFFER_SIZE - 8 {
        assert_eq!(rx.pop(), Some(i as u8));
    }
    for i in 0..32u8 {
        rx.push(200u8.wrapping_add(i));
    }
    for i in 0..8 {
        assert_eq!(rx.pop(), Some((BUFFER_SIZE - 8 + i) as u8));
    }
    for i in 0..32u8 {
        assert_eq!(rx.pop(), Some(200u8.wrapping_add(i)));
    }
    assert_eq!(rx.pop(), None);
}
