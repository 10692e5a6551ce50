use double_hash::{DoubleHash256, MAX_MESSAGE_LEN};
use sha2::{Digest, Sha256};

const HELLO_WORLD: [u8; 32] = [
    0xbc, 0x62, 0xd4, 0xb8, 0x0d, 0x9e, 0x36, 0xda, 0x29, 0xc1, 0x6c, 0x5d, 0x4d, 0x9f, 0x11, 0x73,
    0x1f, 0x36, 0x05, 0x2c, 0x72, 0x40, 0x1a, 0x76, 0xc2, 0x3c, 0x0f, 0xb5, 0xa9, 0xb7, 0x44, 0x23,
];

const EMPTY: [u8; 32] = [
    0x5d, 0xf6, 0xe0, 0xe2, 0x76, 0x13, 0x59, 0xd3, 0x0a, 0x82, 0x75, 0x05, 0x8e, 0x29, 0x9f, 0xcc,
    0x03, 0x81, 0x53, 0x45, 0x45, 0xf5, 0x5c, 0xf4, 0x3e, 0x41, 0x98, 0x3f, 0x5d, 0x4c, 0x94, 0x56,
];

const TWO_HUNDRED: [u8; 32] = [
    0x4b, 0x52, 0xdf, 0x5b, 0xa9, 0x99, 0x15, 0x42, 0x17, 0xbe, 0x85, 0x04, 0xfe, 0x1b, 0xee, 0x15,
    0x3e, 0x48, 0xb8, 0x8c, 0x26, 0xea, 0x15, 0xf9, 0xe5, 0x59, 0xbc, 0x89, 0xf8, 0x29, 0xd5, 0x70,
];

fn counting(len: usize) -> Vec<u8> {
    (0..len).map(|i| (i % 256) as u8).collect()
}

fn sha256_twice(message: &[u8]) -> [u8; 32] {
    let first = Sha256::digest(message);
    Sha256::digest(first).into()
}

fn in_chunks(message: &[u8], chunk: usize) -> [u8; 32] {
    let mut hasher = DoubleHash256::new();
    for piece in message.chunks(chunk) {
        hasher.update(piece);
    }
    hasher.finalize()
}

#[test]
fn hello_world_has_its_known_digest() {
    let digest = DoubleHash256::new_with_prefix(b"hello world").finalize();
    assert_eq!(digest, HELLO_WORLD);
}

#[test]
fn empty_message_has_its_known_digest() {
    assert_eq!(DoubleHash256::new().finalize(), EMPTY);
    assert_eq!(DoubleHash256::new_with_prefix(b"").finalize(), EMPTY);
}

#[test]
fn two_hundred_bytes_have_their_known_digest() {
    let message = counting(200);
    assert_eq!(DoubleHash256::new_with_prefix(&message).finalize(), TWO_HUNDRED);
}

#[test]
fn digest_is_not_the_single_hash() {
    let single: [u8; 32] = Sha256::digest(b"hello world").into();
    let double = DoubleHash256::new_with_prefix(b"hello world").finalize();
    assert_ne!(double, single);
    let again: [u8; 32] = Sha256::digest(single).into();
    assert_eq!(double, again);
}

#[test]
fn every_length_around_the_block_size_agrees_with_sha256_twice() {
    for len in 0..=200 {
        let message = counting(len);
        let digest = DoubleHash256::new_with_prefix(&message).finalize();
        assert_eq!(digest, sha256_twice(&message), "length {}", len);
    }
}

#[test]
fn update_in_two_calls_equals_one_call() {
    let message = counting(150);
    let whole = DoubleHash256::new_with_prefix(&message).finalize();
    for cut in 0..=message.len() {
        let mut hasher = DoubleHash256::new();
        hasher.update(&message[..cut]);
        hasher.update(&message[cut..]);
        assert_eq!(hasher.finalize(), whole, "cut at {}", cut);
    }
}

#[test]
fn any_chunk_size_gives_the_same_digest() {
    let message = counting(200);
    for chunk in [1, 2, 3, 7, 31, 32, 33, 63, 64, 65, 127, 128, 129, 199, 200, 201] {
        assert_eq!(in_chunks(&message, chunk), TWO_HUNDRED, "chunks of {}", chunk);
    }
}

#[test]
fn empty_updates_change_nothing() {
    let mut hasher = DoubleHash256::new();
    hasher.update(b"");
    hasher.update(b"hello");
    hasher.update(b"");
    hasher.update(b"");
    hasher.update(b" world");
    hasher.update(b"");
    assert_eq!(hasher.finalize(), HELLO_WORLD);
}

#[test]
fn prefix_then_update_is_one_message() {
    let mut hasher = DoubleHash256::new_with_prefix(b"hello");
    hasher.update(b" world");
    assert_eq!(hasher.finalize(), HELLO_WORLD);
}

#[test]
fn order_of_bytes_matters() {
    let mut forward = DoubleHash256::new();
    forward.update(b"hello");
    forward.update(b" world");
    let mut backward = DoubleHash256::new();
    backward.update(b" world");
    backward.update(b"hello");
    assert_ne!(forward.finalize(), backward.finalize());
}

#[test]
fn same_input_gives_the_same_digest() {
    let message = counting(77);
    let first = DoubleHash256::new_with_prefix(&message).finalize();
    let second = DoubleHash256::new_with_prefix(&message).finalize();
    assert_eq!(first, second);
}

#[test]
fn digest_has_32_bytes_for_any_length() {
    for len in [0, 1, 63, 64, 65, 1000] {
        let digest = DoubleHash256::new_with_prefix(&counting(len)).finalize();
        assert_eq!(digest.len(), 32);
    }
}

#[test]
fn clones_go_their_own_ways() {
    let mut hasher = DoubleHash256::new_with_prefix(b"hello");
    let mut copy = hasher.clone();
    hasher.update(b" world");
    copy.update(b" there, this is the other branch of the stream of bytes to be hashed");
    assert_eq!(hasher.finalize(), HELLO_WORLD);
    assert_eq!(
        copy.finalize(),
        sha256_twice(b"hello there, this is the other branch of the stream of bytes to be hashed")
    );
}

#[test]
fn clone_taken_in_the_middle_of_a_block_keeps_what_is_held() {
    let message = counting(100);
    let hasher = DoubleHash256::new_with_prefix(&message);
    let copy = hasher.clone();
    assert_eq!(copy.message_len(), 100);
    assert_eq!(copy.finalize(), hasher.finalize());
}

#[test]
fn message_len_counts_every_byte() {
    let mut hasher = DoubleHash256::new();
    assert_eq!(hasher.message_len(), 0);
    hasher.update(&counting(63));
    assert_eq!(hasher.message_len(), 63);
    hasher.update(&counting(1));
    assert_eq!(hasher.message_len(), 64);
    hasher.update(&counting(130));
    assert_eq!(hasher.message_len(), 194);
}

#[test]
fn longest_message_is_two_to_the_61_less_one() {
    assert_eq!(MAX_MESSAGE_LEN, (1u64 << 61) - 1);
}

#[test]
fn debug_text_hides_the_state() {
    let mut text = String::new();
    DoubleHash256::new_with_prefix(b"secret").fmt(&mut text);
    assert_eq!(text, "Sha256_32 { .. }");
    let mut other = String::from("hasher: ");
    DoubleHash256::new().fmt(&mut other);
    assert_eq!(other, "hasher: Sha256_32 { .. }");
}
