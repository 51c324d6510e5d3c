//! The presence index: one bit per slot, packed eight to a byte, least
//! significant bit first. A set bit records that the slot has been claimed.
//! Bits are only ever set, and the buffer only ever grows.

use crate::bits::{
    addressable, bits_of, count_ones, get_bit, lemma_append_zeros, lemma_ones_bounded,
    lemma_with_bit, ones, set_bit, with_bit,
};
use crate::error::SolmapError;
use vstd::prelude::*;

verus! {

/// Bytes added by one step of growth.
pub const GROWTH_BLOCK_BYTES: usize = 10240;

/// Slots added by one step of growth.
pub const GROWTH_BLOCK_BITS: u64 = 81920;

/// What reading bit `i` of `bits` answers.
pub open spec fn is_set_outcome(bits: Seq<bool>, i: int) -> Result<bool, SolmapError> {
    if 0 <= i < bits.len() {
        Ok(bits[i])
    } else {
        Err(SolmapError::OutOfRange)
    }
}

/// What an attempt to claim bit `i` of `bits` answers.
pub open spec fn try_claim_outcome(bits: Seq<bool>, i: int) -> Result<(), SolmapError> {
    if !(0 <= i < bits.len()) {
        Err(SolmapError::OutOfRange)
    } else if bits[i] {
        Err(SolmapError::AlreadyClaimed)
    } else {
        Ok(())
    }
}

/// The bits left behind by an attempt to claim bit `i`: the bit is set where
/// the attempt succeeds, and nothing changes where it fails.
pub open spec fn after_try_claim(bits: Seq<bool>, i: int) -> Seq<bool> {
    if try_claim_outcome(bits, i).is_ok() {
        bits.update(i, true)
    } else {
        bits
    }
}

/// The indices that read as set.
pub open spec fn claimed(bits: Seq<bool>) -> Set<int> {
    Set::new(|i: int| is_set_outcome(bits, i) == Ok::<bool, SolmapError>(true))
}

/// How many blocks must be appended to a capacity of `capacity` bits so that
/// it reaches `required_bits`: none where it already does, else the shortfall
/// in blocks, rounded up.
pub open spec fn blocks_needed(capacity: nat, required_bits: nat) -> nat {
    if required_bits <= capacity {
        0
    } else {
        ((required_bits - capacity + GROWTH_BLOCK_BITS - 1) / (GROWTH_BLOCK_BITS as int)) as nat
    }
}

/// The length in bytes of a buffer of `len` bytes once it has grown to hold
/// `required_bits` bits.
pub open spec fn grown_len(len: nat, required_bits: nat) -> nat {
    len + (GROWTH_BLOCK_BYTES as nat) * blocks_needed(8 * len, required_bits)
}

/// `n` bytes of zero.
pub open spec fn zeros(n: nat) -> Seq<u8> {
    Seq::new(n, |k: int| 0u8)
}

/// The bits of an index after it has grown to hold `required_bits` bits: the
/// old bits, followed by unset ones up to the new capacity.
pub open spec fn after_ensure_capacity(bits: Seq<bool>, required_bits: nat) -> Seq<bool> {
    bits + Seq::new(
        (GROWTH_BLOCK_BITS as nat) * blocks_needed(bits.len(), required_bits),
        |i: int| false,
    )
}

/// The bits read as set are the 1 bits of the buffer.
pub proof fn lemma_claimed_ones(bytes: Seq<u8>)
    ensures
        claimed(bits_of(bytes)) == ones(bytes),
{
    assert(claimed(bits_of(bytes)) =~= ones(bytes));
}

/// A growable bit array over an owned byte buffer.
pub struct PresenceIndex {
    bytes: Vec<u8>,
}

impl View for PresenceIndex {
    type V = Seq<bool>;

    /// The index as a sequence of bits; bit `i` stands for slot `i`.
    open spec fn view(&self) -> Seq<bool> {
        bits_of(self.bytes())
    }
}

impl PresenceIndex {
    /// The backing buffer, as it is persisted.
    pub closed spec fn bytes(&self) -> Seq<u8> {
        self.bytes@
    }

    /// The buffer is short enough for every bit of it to have a `usize` index.
    #[verifier::type_invariant]
    pub closed spec fn well_formed(&self) -> bool {
        addressable(self.bytes@.len())
    }

    /// An index with no storage and no capacity.
    pub fn new() -> (index: Self)
        ensures
            index.bytes() == Seq::<u8>::empty(),
            index@ == Seq::<bool>::empty(),
    {
        let index = PresenceIndex { bytes: Vec::new() };
        assert(index@ =~= Seq::<bool>::empty());
        index
    }

    /// Takes over a persisted buffer. Fails only where the buffer is too long
    /// for its bits to be indexed.
    pub fn from_bytes(bytes: Vec<u8>) -> (index: Option<Self>)
        ensures
            index.is_some() == addressable(bytes@.len()),
            index matches Some(idx) ==> idx.bytes() == bytes@,
    {
        if bytes.len() <= usize::MAX / 64 {
            Some(PresenceIndex { bytes })
        } else {
            None
        }
    }

    /// Gives the buffer back, for persisting.
    pub fn into_bytes(self) -> (bytes: Vec<u8>)
        ensures
            bytes@ == self.bytes(),
            addressable(bytes@.len()),
    {
        proof {
            use_type_invariant(&self);
        }
        self.bytes
    }

    /// The number of addressable slots: eight per byte of storage.
    pub fn capacity(&self) -> (bits: u64)
        ensures
            bits == self@.len(),
            bits == 8 * self.bytes().len(),
    {
        proof {
            use_type_invariant(self);
        }
        (self.bytes.len() * 8) as u64
    }

    /// Whether slot `i` has been claimed.
    pub fn is_set(&self, i: u64) -> (r: Result<bool, SolmapError>)
        ensures
            r == is_set_outcome(self@, i as int),
    {
        proof {
            use_type_invariant(self);
        }
        if i >= self.capacity() {
            return Err(SolmapError::OutOfRange);
        }
        match get_bit(self.bytes.as_slice(), i as usize) {
            Some(bit) => Ok(bit),
            None => Err(SolmapError::OutOfRange),
        }
    }

    /// Moves the buffer out, leaving an empty one behind, so that the index is
    /// whole at every point while the buffer is worked on.
    fn take_bytes(&mut self) -> (bytes: Vec<u8>)
        ensures
            bytes@ == old(self).bytes(),
            addressable(bytes@.len()),
            final(self).bytes() == Seq::<u8>::empty(),
    {
        proof {
            use_type_invariant(&*self);
        }
        let mut bytes: Vec<u8> = Vec::new();
        core::mem::swap(&mut self.bytes, &mut bytes);
        bytes
    }

    /// Claims slot `i`: sets its bit if, and only if, it is in range and not
    /// yet set. The test and the write are one step; a failed attempt leaves
    /// the index as it was.
    pub fn try_claim(&mut self, i: u64) -> (r: Result<(), SolmapError>)
        ensures
            r == try_claim_outcome(old(self)@, i as int),
            final(self)@ == after_try_claim(old(self)@, i as int),
            final(self).bytes() == (if r.is_ok() {
                with_bit(old(self).bytes(), i as int, true)
            } else {
                old(self).bytes()
            }),
    {
        proof {
            use_type_invariant(&*self);
        }
        if i >= self.capacity() {
            return Err(SolmapError::OutOfRange);
        }
        let index = i as usize;
        match get_bit(self.bytes.as_slice(), index) {
            None => Err(SolmapError::OutOfRange),
            Some(true) => Err(SolmapError::AlreadyClaimed),
            Some(false) => {
                let mut bytes = self.take_bytes();
                set_bit(&mut bytes, index, true);
                proof {
                    lemma_with_bit(old(self).bytes(), i as int, true);
                }
                self.bytes = bytes;
                Ok(())
            },
        }
    }

    /// The number of claimed slots.
    pub fn count_set(&self) -> (count: u64)
        ensures
            count == claimed(self@).len(),
            count <= self@.len(),
    {
        proof {
            use_type_invariant(self);
            lemma_ones_bounded(self.bytes@);
            lemma_claimed_ones(self.bytes@);
        }
        count_ones(self.bytes.as_slice()) as u64
    }

    /// Whether the index can grow to hold `required_bits` bits and still have
    /// every bit within reach of a `usize` index.
    pub fn can_hold(&self, required_bits: u64) -> (yes: bool)
        ensures
            yes == addressable(grown_len(self.bytes().len(), required_bits as nat)),
    {
        proof {
            use_type_invariant(self);
        }
        let capacity = self.capacity();
        if required_bits <= capacity {
            return true;
        }
        let blocks = (required_bits - capacity - 1) / GROWTH_BLOCK_BITS + 1;
        let room = (usize::MAX / 64 - self.bytes.len()) as u64;
        let most = room / (GROWTH_BLOCK_BYTES as u64);
        assert(most == room / 10240);
        blocks <= most
    }

    /// Makes room for at least `required_bits` slots. Does nothing where the
    /// capacity already suffices; otherwise appends just as many whole blocks
    /// of zero bytes as it takes. Existing bits are never touched.
    pub fn ensure_capacity(&mut self, required_bits: u64)
        requires
            addressable(grown_len(old(self).bytes().len(), required_bits as nat)),
        ensures
            final(self).bytes() == old(self).bytes() + zeros(
                (grown_len(old(self).bytes().len(), required_bits as nat) - old(
                    self,
                ).bytes().len()) as nat,
            ),
            final(self)@ == after_ensure_capacity(old(self)@, required_bits as nat),
    {
        proof {
            use_type_invariant(&*self);
        }
        let capacity = self.capacity();
        if required_bits <= capacity {
            assert(self.bytes() =~= old(self).bytes() + zeros(0));
            assert(self@ =~= after_ensure_capacity(old(self)@, required_bits as nat));
            return;
        }
        let blocks = (required_bits - capacity - 1) / GROWTH_BLOCK_BITS + 1;
        let mut bytes = self.take_bytes();
        let old_len = bytes.len();
        let new_len = old_len + (blocks as usize) * GROWTH_BLOCK_BYTES;
        bytes.resize(new_len, 0u8);
        self.bytes = bytes;
        proof {
            let extra = zeros((new_len - old_len) as nat);
            assert(self.bytes@ =~= old(self).bytes() + extra);
            lemma_append_zeros(old(self).bytes(), extra);
            assert(self@ =~= after_ensure_capacity(old(self)@, required_bits as nat));
        }
    }
}

} // verus!
