//! The slot allocator: the rules that decide whether a slot may be claimed
//! now, in front of a presence index that records the claims.
//!
//! The clock and the progress counter are handed in by the caller; nothing
//! here reads them from the outside world.

use crate::bits::{addressable, with_bit};
use crate::error::SolmapError;
use crate::presence_index::{
    after_ensure_capacity, claimed, grown_len, try_claim_outcome, PresenceIndex,
};
use vstd::prelude::*;

verus! {

/// The size of the slot universe: valid slot numbers are `0 .. TOTAL_SLOTS`.
pub const TOTAL_SLOTS: u64 = 240_042;

/// How far the progress counter must advance to reveal each further slot.
pub const ELIGIBILITY_STRIDE: u64 = 1000;

/// The clock value before which nothing may be claimed
/// (20 December 2023, 21:40:00 UTC, in seconds since the epoch).
pub const GO_LIVE: i64 = 1_703_108_400;

/// Claims are open at clock value `now`.
pub open spec fn is_live(now: int) -> bool {
    now >= GO_LIVE
}

/// `slot` is a slot number of the universe.
pub open spec fn in_universe(slot: int) -> bool {
    0 <= slot < TOTAL_SLOTS
}

/// `slot` has been revealed once the progress counter stands at
/// `current_counter`: slot `n` opens when the counter reaches
/// `(n + 1) * ELIGIBILITY_STRIDE`.
pub open spec fn is_eligible(slot: int, current_counter: int) -> bool {
    current_counter >= (slot + 1) * ELIGIBILITY_STRIDE
}

/// What a claim of `slot` answers, against an index holding `bits`. The
/// gates are tried in this order: the clock, the universe, the reveal, and
/// only then the index itself.
pub open spec fn claim_outcome(bits: Seq<bool>, slot: int, now: int, current_counter: int) -> Result<
    (),
    SolmapError,
> {
    if !is_live(now) {
        Err(SolmapError::NotLive)
    } else if !in_universe(slot) {
        Err(SolmapError::InvalidSlot)
    } else if !is_eligible(slot, current_counter) {
        Err(SolmapError::InvalidSlot)
    } else {
        try_claim_outcome(bits, slot)
    }
}

/// The bits left behind by a claim: the slot's bit is set where the claim
/// succeeds, and nothing changes where it fails.
pub open spec fn after_claim(bits: Seq<bool>, slot: int, now: int, current_counter: int) -> Seq<
    bool,
> {
    if claim_outcome(bits, slot, now, current_counter).is_ok() {
        bits.update(slot, true)
    } else {
        bits
    }
}

/// What a query for `slot` answers, against an index holding `bits`.
pub open spec fn is_claimed_outcome(bits: Seq<bool>, slot: int) -> Result<bool, SolmapError> {
    if 0 <= slot < bits.len() {
        Ok(bits[slot])
    } else {
        Err(SolmapError::InvalidSlot)
    }
}

/// A presence index together with the rules for claiming from it.
pub struct SlotAllocator {
    index: PresenceIndex,
}

impl View for SlotAllocator {
    type V = Seq<bool>;

    /// The claim state: bit `n` is set once slot `n` has been claimed.
    open spec fn view(&self) -> Seq<bool> {
        self.index()@
    }
}

impl SlotAllocator {
    /// The presence index behind the allocator.
    pub closed spec fn index(&self) -> PresenceIndex {
        self.index
    }

    /// An allocator over an existing index.
    pub fn new(index: PresenceIndex) -> (allocator: Self)
        ensures
            allocator.index() == index,
    {
        SlotAllocator { index }
    }

    /// Gives the index back, for persisting.
    pub fn into_index(self) -> (index: PresenceIndex)
        ensures
            index == self.index(),
    {
        self.index
    }

    /// Whether [`SlotAllocator::init`] may be called with this capacity.
    pub fn can_init(&self, initial_capacity_bits: u64) -> (yes: bool)
        ensures
            yes == addressable(
                grown_len(self.index().bytes().len(), initial_capacity_bits as nat),
            ),
    {
        self.index.can_hold(initial_capacity_bits)
    }

    /// Provisions the index for at least `initial_capacity_bits` slots. It
    /// only ever grows the index, and may be called again at any time.
    pub fn init(&mut self, initial_capacity_bits: u64)
        requires
            addressable(
                grown_len(old(self).index().bytes().len(), initial_capacity_bits as nat),
            ),
        ensures
            final(self)@ == after_ensure_capacity(old(self)@, initial_capacity_bits as nat),
            final(self).index().bytes().len() == grown_len(
                old(self).index().bytes().len(),
                initial_capacity_bits as nat,
            ),
    {
        self.index.ensure_capacity(initial_capacity_bits);
    }

    /// Claims `slot_number` at clock value `now`, with the progress counter at
    /// `current_counter`. On success the slot's bit is set for good; on any
    /// failure the index is left as it was.
    pub fn claim(&mut self, slot_number: u64, now: i64, current_counter: u64) -> (r: Result<
        (),
        SolmapError,
    >)
        ensures
            r == claim_outcome(old(self)@, slot_number as int, now as int, current_counter as int),
            final(self)@ == after_claim(
                old(self)@,
                slot_number as int,
                now as int,
                current_counter as int,
            ),
            final(self).index().bytes() == (if r.is_ok() {
                with_bit(old(self).index().bytes(), slot_number as int, true)
            } else {
                old(self).index().bytes()
            }),
    {
        if now < GO_LIVE {
            return Err(SolmapError::NotLive);
        }
        if slot_number >= TOTAL_SLOTS {
            return Err(SolmapError::InvalidSlot);
        }
        if (slot_number + 1) * ELIGIBILITY_STRIDE > current_counter {
            return Err(SolmapError::InvalidSlot);
        }
        self.index.try_claim(slot_number)
    }

    /// Whether `slot_number` has been claimed. A slot beyond the capacity of
    /// the index is reported as invalid.
    pub fn is_claimed(&self, slot_number: u64) -> (r: Result<bool, SolmapError>)
        ensures
            r == is_claimed_outcome(self@, slot_number as int),
    {
        match self.index.is_set(slot_number) {
            Ok(bit) => Ok(bit),
            Err(_) => Err(SolmapError::InvalidSlot),
        }
    }

    /// The number of slots claimed so far.
    pub fn total_claimed(&self) -> (count: u64)
        ensures
            count == claimed(self@).len(),
    {
        self.index.count_set()
    }
}

} // verus!
