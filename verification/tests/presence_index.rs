use bitvec::order::Lsb0;
use bitvec::view::BitView;
use solmap::error::SolmapError;
use solmap::presence_index::{PresenceIndex, GROWTH_BLOCK_BITS, GROWTH_BLOCK_BYTES};

#[test]
fn new_index_has_no_capacity() {
    let index = PresenceIndex::new();
    assert_eq!(index.capacity(), 0);
    assert_eq!(index.count_set(), 0);
    assert_eq!(index.is_set(0), Err(SolmapError::OutOfRange));
    assert_eq!(index.into_bytes(), Vec::<u8>::new());
}

#[test]
fn claim_sets_the_bit_least_significant_first() {
    let mut index = PresenceIndex::from_bytes(vec![0u8; 2]).unwrap();
    assert_eq!(index.try_claim(0), Ok(()));
    assert_eq!(index.try_claim(3), Ok(()));
    assert_eq!(index.try_claim(9), Ok(()));
    assert_eq!(index.is_set(0), Ok(true));
    assert_eq!(index.is_set(1), Ok(false));
    assert_eq!(index.is_set(3), Ok(true));
    assert_eq!(index.is_set(9), Ok(true));
    assert_eq!(index.into_bytes(), vec![0b0000_1001u8, 0b0000_0010u8]);
}

#[test]
fn reads_agree_with_the_byte_layout() {
    let index = PresenceIndex::from_bytes(vec![0x80, 0x01, 0xff, 0x00]).unwrap();
    assert_eq!(index.capacity(), 32);
    assert_eq!(index.is_set(7), Ok(true));
    assert_eq!(index.is_set(6), Ok(false));
    assert_eq!(index.is_set(8), Ok(true));
    assert_eq!(index.is_set(9), Ok(false));
    for i in 16..24 {
        assert_eq!(index.is_set(i), Ok(true));
    }
    for i in 24..32 {
        assert_eq!(index.is_set(i), Ok(false));
    }
    assert_eq!(index.is_set(32), Err(SolmapError::OutOfRange));
    assert_eq!(index.count_set(), 10);
}

#[test]
fn claimed_slot_is_set_and_cannot_be_claimed_again() {
    let mut index = PresenceIndex::from_bytes(vec![0u8; 4]).unwrap();
    for i in [0u64, 5, 8, 31] {
        assert_eq!(index.is_set(i), Ok(false));
        assert_eq!(index.try_claim(i), Ok(()));
        assert_eq!(index.is_set(i), Ok(true));
        assert_eq!(index.try_claim(i), Err(SolmapError::AlreadyClaimed));
        assert_eq!(index.is_set(i), Ok(true));
    }
    assert_eq!(index.count_set(), 4);
}

#[test]
fn failed_claim_changes_nothing() {
    let mut index = PresenceIndex::from_bytes(vec![0b0000_0100u8]).unwrap();
    assert_eq!(index.try_claim(2), Err(SolmapError::AlreadyClaimed));
    assert_eq!(index.try_claim(8), Err(SolmapError::OutOfRange));
    assert_eq!(index.try_claim(u64::MAX), Err(SolmapError::OutOfRange));
    assert_eq!(index.into_bytes(), vec![0b0000_0100u8]);
}

#[test]
fn at_and_beyond_capacity_is_out_of_range() {
    let mut index = PresenceIndex::from_bytes(vec![0u8; 3]).unwrap();
    let capacity = index.capacity();
    assert_eq!(capacity, 24);
    for i in [capacity, capacity + 1, 1 << 40, u64::MAX] {
        assert_eq!(index.is_set(i), Err(SolmapError::OutOfRange));
        assert_eq!(index.try_claim(i), Err(SolmapError::OutOfRange));
    }
    assert_eq!(index.try_claim(capacity - 1), Ok(()));
    assert_eq!(index.into_bytes(), vec![0, 0, 0x80]);
}

#[test]
fn ensure_capacity_grows_by_whole_blocks() {
    let mut index = PresenceIndex::new();
    assert!(index.can_hold(1));
    index.ensure_capacity(1);
    assert_eq!(index.capacity(), GROWTH_BLOCK_BITS);
    index.ensure_capacity(GROWTH_BLOCK_BITS);
    assert_eq!(index.capacity(), GROWTH_BLOCK_BITS);
    index.ensure_capacity(GROWTH_BLOCK_BITS + 1);
    assert_eq!(index.capacity(), 2 * GROWTH_BLOCK_BITS);
    index.ensure_capacity(240_042);
    assert_eq!(index.capacity(), 3 * GROWTH_BLOCK_BITS);
    let bytes = index.into_bytes();
    assert_eq!(bytes.len(), 3 * GROWTH_BLOCK_BYTES);
    assert!(bytes.iter().all(|b| *b == 0));
}

#[test]
fn ensure_capacity_zero_is_a_no_op() {
    let mut index = PresenceIndex::new();
    index.ensure_capacity(0);
    assert_eq!(index.capacity(), 0);
}

#[test]
fn ensure_capacity_is_idempotent_and_keeps_bits() {
    let mut index = PresenceIndex::from_bytes(vec![0b1010_0000u8, 0x01, 0x00]).unwrap();
    index.ensure_capacity(8000);
    let capacity = index.capacity();
    assert_eq!(capacity, 24 + GROWTH_BLOCK_BITS);
    assert_eq!(index.try_claim(7999), Ok(()));
    index.ensure_capacity(8000);
    index.ensure_capacity(100);
    index.ensure_capacity(0);
    assert_eq!(index.capacity(), capacity);
    assert_eq!(index.is_set(5), Ok(true));
    assert_eq!(index.is_set(7), Ok(true));
    assert_eq!(index.is_set(8), Ok(true));
    assert_eq!(index.is_set(7999), Ok(true));
    assert_eq!(index.count_set(), 4);
    let bytes = index.into_bytes();
    assert_eq!(&bytes[..3], &[0b1010_0000u8, 0x01, 0x00]);
    assert_eq!(bytes.len(), 3 + GROWTH_BLOCK_BYTES);
}

#[test]
fn growth_from_an_unaligned_buffer_stops_at_the_first_sufficient_block() {
    let mut index = PresenceIndex::from_bytes(vec![0u8; 240]).unwrap();
    index.ensure_capacity(8 * 240 + GROWTH_BLOCK_BITS);
    assert_eq!(index.capacity(), 8 * 240 + GROWTH_BLOCK_BITS);
    index.ensure_capacity(8 * 240 + GROWTH_BLOCK_BITS + 1);
    assert_eq!(index.capacity(), 8 * 240 + 2 * GROWTH_BLOCK_BITS);
}

#[test]
fn can_hold_refuses_what_cannot_be_addressed() {
    let index = PresenceIndex::new();
    assert!(index.can_hold(0));
    assert!(index.can_hold(240_042));
    assert!(!index.can_hold(u64::MAX));
    let most_bytes = (usize::MAX / 64) as u64;
    let most_blocks = most_bytes / GROWTH_BLOCK_BYTES as u64;
    assert!(index.can_hold(most_blocks * GROWTH_BLOCK_BITS));
    assert!(!index.can_hold(most_blocks * GROWTH_BLOCK_BITS + 1));
}

#[test]
fn count_set_counts_the_set_bits() {
    let mut index = PresenceIndex::from_bytes(vec![0u8; 16]).unwrap();
    let mut expected = 0u64;
    for i in (0..128u64).step_by(3) {
        assert_eq!(index.try_claim(i), Ok(()));
        expected += 1;
        assert_eq!(index.count_set(), expected);
    }
    let by_reading = (0..index.capacity()).filter(|i| index.is_set(*i) == Ok(true)).count();
    assert_eq!(index.count_set(), by_reading as u64);
    assert_eq!(index.count_set(), 43);
}

#[test]
fn agrees_with_bitvec_on_the_same_bytes() {
    let bytes: Vec<u8> = (0..64u32).map(|i| (i * 37 + 11) as u8).collect();
    let index = PresenceIndex::from_bytes(bytes.clone()).unwrap();
    let bits = bytes.view_bits::<Lsb0>();
    assert_eq!(index.capacity(), bits.len() as u64);
    assert_eq!(index.count_set(), bits.count_ones() as u64);
    for i in 0..bits.len() {
        assert_eq!(index.is_set(i as u64), Ok(bits[i]));
    }
}

#[test]
fn from_bytes_keeps_the_buffer() {
    let bytes = vec![1u8, 2, 3, 4, 5];
    let index = PresenceIndex::from_bytes(bytes.clone()).unwrap();
    assert_eq!(index.capacity(), 40);
    assert_eq!(index.into_bytes(), bytes);
}
