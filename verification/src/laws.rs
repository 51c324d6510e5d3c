//! Laws of the index and of the allocator, stated over the same bit
//! sequences and outcome functions that the operations' contracts use.

use crate::allocator::{
    after_claim, claim_outcome, in_universe, is_eligible, is_live, ELIGIBILITY_STRIDE, TOTAL_SLOTS,
};
use crate::error::SolmapError;
use crate::presence_index::{
    after_ensure_capacity, after_try_claim, blocks_needed, claimed, grown_len, is_set_outcome,
    try_claim_outcome, GROWTH_BLOCK_BITS, GROWTH_BLOCK_BYTES,
};
use vstd::prelude::*;
use vstd::set_lib::*;

verus! {

/// `after` keeps everything that `before` recorded: it is at least as long,
/// and every bit set in `before` is still set in `after`.
pub open spec fn keeps_claims(before: Seq<bool>, after: Seq<bool>) -> bool {
    &&& before.len() <= after.len()
    &&& forall|i: int| 0 <= i < before.len() && before[i] ==> after[i]
}

/// A slot that has just been claimed reads as set, and a second attempt to
/// claim it is turned down as already claimed.
pub proof fn lemma_claim_is_once(bits: Seq<bool>, i: int)
    requires
        try_claim_outcome(bits, i).is_ok(),
    ensures
        is_set_outcome(after_try_claim(bits, i), i) == Ok::<bool, SolmapError>(true),
        try_claim_outcome(after_try_claim(bits, i), i) == Err::<(), SolmapError>(
            SolmapError::AlreadyClaimed,
        ),
{
}

/// At or beyond the capacity, reading and claiming both fail as out of range,
/// and the failed claim changes nothing.
pub proof fn lemma_beyond_capacity(bits: Seq<bool>, i: int)
    requires
        i >= bits.len(),
    ensures
        is_set_outcome(bits, i) == Err::<bool, SolmapError>(SolmapError::OutOfRange),
        try_claim_outcome(bits, i) == Err::<(), SolmapError>(SolmapError::OutOfRange),
        after_try_claim(bits, i) == bits,
{
}

/// A claim touches no slot but its own, and never shortens the index.
pub proof fn lemma_claim_is_local(bits: Seq<bool>, i: int, j: int)
    requires
        j != i,
    ensures
        after_try_claim(bits, i).len() == bits.len(),
        is_set_outcome(after_try_claim(bits, i), j) == is_set_outcome(bits, j),
{
}

/// Neither an attempted claim nor growth ever clears a bit or gives up
/// capacity.
pub proof fn lemma_claims_are_permanent(bits: Seq<bool>, i: int, required_bits: nat)
    ensures
        keeps_claims(bits, after_try_claim(bits, i)),
        keeps_claims(bits, after_ensure_capacity(bits, required_bits)),
{
}

/// The block count of growth is the least that reaches the target.
pub proof fn lemma_blocks_needed_is_least(capacity: nat, required_bits: nat, k: nat)
    ensures
        capacity + GROWTH_BLOCK_BITS * blocks_needed(capacity, required_bits) >= required_bits,
        capacity + GROWTH_BLOCK_BITS * k >= required_bits ==> blocks_needed(capacity, required_bits)
            <= k,
{
}

/// Growth reaches its target, keeps every existing bit where it was, and
/// adds only unset bits.
pub proof fn lemma_growth_extends(bits: Seq<bool>, required_bits: nat)
    ensures
        after_ensure_capacity(bits, required_bits).len() >= required_bits,
        after_ensure_capacity(bits, required_bits).len() >= bits.len(),
        forall|i: int|
            0 <= i < bits.len() ==> after_ensure_capacity(bits, required_bits)[i] == bits[i],
        forall|i: int|
            bits.len() <= i < after_ensure_capacity(bits, required_bits).len()
                ==> !after_ensure_capacity(bits, required_bits)[i],
        claimed(after_ensure_capacity(bits, required_bits)) == claimed(bits),
{
    lemma_blocks_needed_is_least(bits.len(), required_bits, 0);
    assert(claimed(after_ensure_capacity(bits, required_bits)) =~= claimed(bits));
}

/// Growth is idempotent: once the index has grown to hold `required_bits`,
/// asking again for as much or for less changes neither the capacity nor any
/// bit.
pub proof fn lemma_ensure_capacity_idempotent(bits: Seq<bool>, required_bits: nat, again: nat)
    requires
        again <= required_bits,
    ensures
        after_ensure_capacity(after_ensure_capacity(bits, required_bits), again)
            == after_ensure_capacity(bits, required_bits),
{
    lemma_growth_extends(bits, required_bits);
    let grown = after_ensure_capacity(bits, required_bits);
    assert(blocks_needed(grown.len(), again) == 0);
    assert(after_ensure_capacity(grown, again) =~= grown);
}

/// The same, counted in bytes of storage: a second request for as much or
/// for less asks for no further byte.
pub proof fn lemma_grown_len_idempotent(len: nat, required_bits: nat, again: nat)
    requires
        again <= required_bits,
    ensures
        grown_len(grown_len(len, required_bits), again) == grown_len(len, required_bits),
        (grown_len(len, required_bits) - len) % (GROWTH_BLOCK_BYTES as int) == 0,
{
    lemma_blocks_needed_is_least(8 * len, required_bits, 0);
    let blocks = blocks_needed(8 * len, required_bits);
    assert(8 * grown_len(len, required_bits) == 8 * len + GROWTH_BLOCK_BITS * blocks);
    assert(((GROWTH_BLOCK_BYTES as int) * blocks) % (GROWTH_BLOCK_BYTES as int) == 0) by {
        vstd::arithmetic::div_mod::lemma_mod_multiples_basic(
            blocks as int,
            GROWTH_BLOCK_BYTES as int,
        );
    }
}

/// Growth adds whole blocks only, so an index whose storage is a whole
/// number of blocks, as an empty one is, stays so however it grows.
pub proof fn lemma_growth_keeps_blocks(len: nat, required_bits: nat)
    requires
        len % (GROWTH_BLOCK_BYTES as nat) == 0,
    ensures
        grown_len(len, required_bits) % (GROWTH_BLOCK_BYTES as nat) == 0,
        grown_len(0, required_bits) % (GROWTH_BLOCK_BYTES as nat) == 0,
{
    let block = GROWTH_BLOCK_BYTES as int;
    let k = blocks_needed(8 * len, required_bits) as int;
    let q = len as int / block;
    assert(len == block * q);
    assert(grown_len(len, required_bits) == block * (q + k));
    vstd::arithmetic::div_mod::lemma_mod_multiples_basic(q + k, block);
    let k0 = blocks_needed(0, required_bits) as int;
    assert(grown_len(0, required_bits) == block * k0);
    vstd::arithmetic::div_mod::lemma_mod_multiples_basic(k0, block);
}

/// The claimed slots form a finite set, no larger than the capacity.
pub proof fn lemma_claimed_bounded(bits: Seq<bool>)
    ensures
        claimed(bits).finite(),
        claimed(bits).len() <= bits.len(),
{
    let all = set_int_range(0, bits.len() as int);
    lemma_int_range(0, bits.len() as int);
    assert(claimed(bits).subset_of(all));
    lemma_len_subset(claimed(bits), all);
}

/// A successful claim adds exactly its own slot to the claimed ones, so the
/// count goes up by one; a failed claim leaves the count alone.
pub proof fn lemma_claim_counts_once(bits: Seq<bool>, i: int)
    ensures
        try_claim_outcome(bits, i).is_ok() ==> {
            &&& claimed(after_try_claim(bits, i)) == claimed(bits).insert(i)
            &&& claimed(after_try_claim(bits, i)).len() == claimed(bits).len() + 1
        },
        try_claim_outcome(bits, i).is_err() ==> claimed(after_try_claim(bits, i)) == claimed(bits),
{
    lemma_claimed_bounded(bits);
    if try_claim_outcome(bits, i).is_ok() {
        assert(claimed(after_try_claim(bits, i)) =~= claimed(bits).insert(i));
        assert(!claimed(bits).contains(i));
    }
}

/// A slot opens exactly when the counter reaches its threshold: one tick
/// short the claim is invalid, and from the threshold on the answer is the
/// index's own.
pub proof fn lemma_eligibility_threshold(bits: Seq<bool>, slot: int, now: int, counter: int)
    requires
        is_live(now),
        in_universe(slot),
    ensures
        counter < (slot + 1) * ELIGIBILITY_STRIDE ==> claim_outcome(bits, slot, now, counter)
            == Err::<(), SolmapError>(SolmapError::InvalidSlot),
        counter >= (slot + 1) * ELIGIBILITY_STRIDE ==> claim_outcome(bits, slot, now, counter)
            == try_claim_outcome(bits, slot),
        is_eligible(slot, (slot + 1) * ELIGIBILITY_STRIDE),
        !is_eligible(slot, (slot + 1) * ELIGIBILITY_STRIDE - 1),
{
}

/// Once claims are open, the slot numbered `TOTAL_SLOTS` is invalid whatever
/// the counter says and however large the index is, and the attempt changes
/// nothing.
pub proof fn lemma_universe_bound(bits: Seq<bool>, now: int, counter: int)
    requires
        is_live(now),
    ensures
        claim_outcome(bits, TOTAL_SLOTS as int, now, counter) == Err::<(), SolmapError>(
            SolmapError::InvalidSlot,
        ),
        after_claim(bits, TOTAL_SLOTS as int, now, counter) == bits,
{
}

/// Before claims open, every claim is turned down as not live, whatever else
/// holds of it.
pub proof fn lemma_closed_before_go_live(bits: Seq<bool>, slot: int, now: int, counter: int)
    requires
        !is_live(now),
    ensures
        claim_outcome(bits, slot, now, counter) == Err::<(), SolmapError>(SolmapError::NotLive),
        after_claim(bits, slot, now, counter) == bits,
{
}

/// A successful claim through the allocator is a successful claim on the
/// index, of a slot of the universe that is live and revealed; it cannot be
/// repeated.
pub proof fn lemma_claim_succeeds_once(bits: Seq<bool>, slot: int, now: int, counter: int)
    requires
        claim_outcome(bits, slot, now, counter).is_ok(),
    ensures
        is_live(now),
        in_universe(slot),
        is_eligible(slot, counter),
        after_claim(bits, slot, now, counter) == after_try_claim(bits, slot),
        claim_outcome(after_claim(bits, slot, now, counter), slot, now, counter) == Err::<
            (),
            SolmapError,
        >(SolmapError::AlreadyClaimed),
{
}

} // verus!
