use pipemux::ring::{PipeRingBuffer, RING_BUFFER_SIZE};

#[test]
fn new_buffer_is_empty() {
    let rb = PipeRingBuffer::new();
    assert_eq!(rb.available_read(), 0);
    assert_eq!(rb.available_write(), RING_BUFFER_SIZE);
}

#[test]
fn counts_match_bytes_written() {
    let mut rb = PipeRingBuffer::new();
    for i in 0..10u8 {
        rb.write_byte(i);
    }
    assert_eq!(rb.available_read(), 10);
    assert_eq!(rb.available_write(), RING_BUFFER_SIZE - 10);
}

#[test]
fn counts_always_split_capacity() {
    let mut rb = PipeRingBuffer::new();
    for i in 0..600u32 {
        rb.write_byte((i % 251) as u8);
        assert_eq!(rb.available_read() + rb.available_write(), RING_BUFFER_SIZE);
    }
    for _ in 0..600u32 {
        rb.read_byte();
        assert_eq!(rb.available_read() + rb.available_write(), RING_BUFFER_SIZE);
    }
}

#[test]
fn round_trip_returns_written_bytes_in_order() {
    let mut rb = PipeRingBuffer::new();
    let written: Vec<u8> = (0..300u32).map(|i| (i % 256) as u8).collect();
    for &b in &written {
        rb.write_byte(b);
    }
    let mut read_back: Vec<u8> = Vec::new();
    for _ in 0..written.len() {
        read_back.push(rb.read_byte());
    }
    assert_eq!(read_back, written);
    assert_eq!(rb.available_read(), 0);
}

#[test]
fn full_buffer_has_no_write_room() {
    let mut rb = PipeRingBuffer::new();
    for i in 0..RING_BUFFER_SIZE {
        rb.write_byte((i % 256) as u8);
    }
    assert_eq!(rb.available_read(), RING_BUFFER_SIZE);
    assert_eq!(rb.available_write(), 0);
}

#[test]
fn wraparound_keeps_fifo_order() {
    let mut rb = PipeRingBuffer::new();
    // Fill completely, drain most of it, then write across the wrap point.
    for i in 0..RING_BUFFER_SIZE {
        rb.write_byte((i % 256) as u8);
    }
    for i in 0..RING_BUFFER_SIZE - 24 {
        assert_eq!(rb.read_byte(), (i % 256) as u8);
    }
    for i in 0..100u32 {
        rb.write_byte(200u8.wrapping_add(i as u8));
    }
    assert_eq!(rb.available_read(), 124);
    for i in 0..24 {
        assert_eq!(rb.read_byte(), ((RING_BUFFER_SIZE - 24 + i) % 256) as u8);
    }
    for i in 0..100u32 {
        assert_eq!(rb.read_byte(), 200u8.wrapping_add(i as u8));
    }
    assert_eq!(rb.available_read(), 0);
}
