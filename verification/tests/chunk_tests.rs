use serial_tcp_bridge::chunk::{Chunk, CAPACITY};

#[test]
fn from_read_rejects_length_over_capacity() {
    let buffer = vec![7u8; 2048];
    assert!(Chunk::from_read(&buffer, CAPACITY + 1).is_none());
    assert!(Chunk::from_read(&buffer, 2048).is_none());
}

#[test]
fn from_read_rejects_length_over_available_bytes() {
    let buffer = [1u8, 2u8];
    assert!(Chunk::from_read(&buffer, 3).is_none());
}

#[test]
fn from_read_accepts_length_zero() {
    let buffer: [u8; 0] = [];
    let chunk = Chunk::from_read(&buffer, 0).expect("length 0 is valid");
    assert_eq!(chunk.size, 0);
    assert_eq!(chunk.payload(), Vec::<u8>::new());
}

#[test]
fn from_read_accepts_full_capacity() {
    let buffer = vec![9u8; CAPACITY];
    let chunk = Chunk::from_read(&buffer, CAPACITY).expect("capacity is valid");
    assert_eq!(chunk.size, CAPACITY);
    assert_eq!(chunk.payload(), buffer);
}

#[test]
fn from_read_copies_exactly_the_valid_bytes() {
    let buffer = [10u8, 20u8, 30u8, 40u8];
    let chunk = Chunk::from_read(&buffer, 2).expect("length within bounds");
    assert_eq!(chunk.size, 2);
    assert_eq!(chunk.payload(), vec![10u8, 20u8]);
    assert_eq!(chunk.data.len(), CAPACITY);
}

#[test]
fn default_chunk_is_empty_and_zeroed() {
    let chunk = Chunk::default();
    assert_eq!(chunk.size, 0);
    assert_eq!(chunk.data.len(), CAPACITY);
    assert!(chunk.data.iter().all(|b| *b == 0));
    assert_eq!(chunk.payload(), Vec::<u8>::new());
}
