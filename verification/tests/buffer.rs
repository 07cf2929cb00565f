//! Tests of the fixed-size universe buffer.

use ola::{DmxBuffer, TryFromBufferError};

#[test]
fn new_buffer_is_zeroed() {
    let universe = DmxBuffer::new();
    assert_eq!(universe.len(), 512);
    assert_eq!(universe.as_slice(), &[0u8; 512][..]);
}

#[test]
fn set_get_and_zero() {
    let mut universe = DmxBuffer::new();
    universe.set(0, 255);
    universe.set(511, 128);
    assert_eq!(universe.get(0), 255);
    assert_eq!(universe.get(511), 128);
    assert_ne!(universe.as_slice(), &[0u8; 512][..]);

    universe.zero();
    assert_eq!(universe.as_slice(), &[0u8; 512][..]);
}

#[test]
fn clone_and_equality() {
    let mut universe = DmxBuffer::new();
    universe.set(0, 255);
    let other = universe.clone();
    assert_eq!(other.get(0), 255);
    assert_eq!(universe, other);
    let mut third = other.clone();
    third.zero();
    assert_ne!(universe, third);
}

#[test]
fn buffer_construction_needs_exactly_512_bytes() {
    // Too short, too long, and the empty source all fail with the
    // shape error; exactly 512 bytes succeed and round-trip.
    assert!(matches!(DmxBuffer::try_from_slice(&[0u8; 511]), Err(TryFromBufferError)));
    assert!(matches!(DmxBuffer::try_from_slice(&[0u8; 513]), Err(TryFromBufferError)));
    assert!(matches!(DmxBuffer::try_from_slice(&[]), Err(TryFromBufferError)));
    assert!(matches!(DmxBuffer::try_from_vec(vec![0u8; 1024]), Err(TryFromBufferError)));

    let mut source = vec![0u8; 512];
    source[17] = 99;
    let buffer = DmxBuffer::try_from_slice(&source).expect("512 bytes fit");
    assert_eq!(buffer.as_slice(), &source[..]);
    let buffer = DmxBuffer::try_from_vec(source.clone()).expect("512 bytes fit");
    assert_eq!(buffer.into_vec(), source);
}

#[test]
fn buffer_round_trips_byte_for_byte() {
    let source: Vec<u8> = (0..512u32).map(|i| (i % 256) as u8).collect();
    let buffer = DmxBuffer::try_from_slice(&source).expect("512 bytes fit");
    assert_eq!(buffer.to_vec(), source);
    assert_eq!(Vec::from(buffer.into_vec()), source);
}
