//! What the on-chain program decides for each of its instructions. The
//! program itself carries the decisions out: it creates and resizes accounts,
//! reads the clock, and calls the programs that decorate a claimed slot.

use crate::allocator::{after_claim, claim_outcome, SlotAllocator};
use crate::bits::with_bit;
use crate::error::SolmapError;
use crate::presence_index::{grown_len, GROWTH_BLOCK_BYTES};
use crate::text::{decimal, lemma_decimal_len, push_decimal};
use vstd::prelude::*;
use vstd::slice::slice_to_vec;

verus! {

/// What a claim costs the minter on top of the network's own fees, in
/// lamports; it goes to the community treasury.
pub const COMMUNITY_GRANT_FEE: u64 = 30_000_000;

/// The size at which an inscription's data account starts out.
pub const INSCRIPTION_START_SIZE: u32 = 8;

/// The text that follows the slot number in a slot's name: `.solmap`.
pub const NAME_SUFFIX: [u8; 7] = [46, 115, 111, 108, 109, 97, 112];

/// How the account that holds the index is to be provisioned.
#[derive(Clone, Copy, Debug, PartialEq, Eq, Structural)]
pub enum IndexGrowth {
    /// The account does not exist yet: create it with `space` bytes.
    Create { space: usize },
    /// The account exists: resize it to `new_len` bytes.
    Resize { new_len: usize },
}

/// The growth that follows from an index account of `current_len` bytes.
pub open spec fn index_growth(current_len: nat) -> IndexGrowth {
    if current_len == 0 {
        IndexGrowth::Create { space: GROWTH_BLOCK_BYTES }
    } else {
        IndexGrowth::Resize { new_len: (current_len + GROWTH_BLOCK_BYTES) as usize }
    }
}

/// The length of the account once `growth` has been carried out.
pub open spec fn len_after(growth: IndexGrowth) -> nat {
    match growth {
        IndexGrowth::Create { space } => space as nat,
        IndexGrowth::Resize { new_len } => new_len as nat,
    }
}

/// Decides how to grow the index account by one block: an empty account is
/// created at one block, any other is resized to one block more. Either way
/// the account ends up as long as an index that was asked for one slot more
/// than it holds.
pub fn init_index(current_len: usize) -> (growth: IndexGrowth)
    requires
        current_len + GROWTH_BLOCK_BYTES <= usize::MAX,
    ensures
        growth == index_growth(current_len as nat),
        len_after(growth) == current_len + GROWTH_BLOCK_BYTES,
        len_after(growth) == grown_len(current_len as nat, (8 * current_len + 1) as nat),
{
    if current_len == 0 {
        IndexGrowth::Create { space: GROWTH_BLOCK_BYTES }
    } else {
        IndexGrowth::Resize { new_len: current_len + GROWTH_BLOCK_BYTES }
    }
}

/// The name of slot `solmap_number`: the number in decimal, then `.solmap`.
pub open spec fn slot_name(solmap_number: u64) -> Seq<u8> {
    decimal(solmap_number as nat) + NAME_SUFFIX@
}

/// What is to be done for a slot once it has been claimed.
#[derive(Clone, Debug, PartialEq, Eq)]
pub struct MintPlan {
    /// The name of the token, which is also the text inscribed.
    pub name: Vec<u8>,
    /// The size that the inscription's data account is expected to have.
    pub expected_start_size: u32,
    /// By how much that account is to be resized.
    pub change: i32,
    /// The size that it is to have afterwards.
    pub target_size: u32,
    /// The fee to transfer to the treasury, in lamports.
    pub fee: u64,
}

/// The plan for slot `solmap_number`.
pub open spec fn is_plan_for(plan: MintPlan, solmap_number: u64) -> bool {
    &&& plan.name@ == slot_name(solmap_number)
    &&& plan.expected_start_size == INSCRIPTION_START_SIZE
    &&& plan.target_size == slot_name(solmap_number).len()
    &&& plan.change == slot_name(solmap_number).len() - INSCRIPTION_START_SIZE
    &&& plan.fee == COMMUNITY_GRANT_FEE
}

/// Writes out the name of slot `solmap_number`.
pub fn name_of_slot(solmap_number: u64) -> (name: Vec<u8>)
    ensures
        name@ == slot_name(solmap_number),
        8 <= name@.len() <= 27,
{
    let mut name: Vec<u8> = Vec::new();
    push_decimal(&mut name, solmap_number);
    let suffix = slice_to_vec(NAME_SUFFIX.as_slice());
    name.extend_from_slice(suffix.as_slice());
    proof {
        lemma_decimal_len(solmap_number as nat);
        assert(name@ =~= slot_name(solmap_number));
    }
    name
}

/// Draws up the plan for slot `solmap_number`.
pub fn plan_mint(solmap_number: u64) -> (plan: MintPlan)
    ensures
        is_plan_for(plan, solmap_number),
{
    let name = name_of_slot(solmap_number);
    let len = name.len();
    MintPlan {
        name,
        expected_start_size: INSCRIPTION_START_SIZE,
        change: len as i32 - 8,
        target_size: len as u32,
        fee: COMMUNITY_GRANT_FEE,
    }
}

/// Handles a mint: claims `solmap_number` at clock time `unix_timestamp`
/// and ledger slot `slot`, and on success says what is to be done for the
/// claimed slot. On failure nothing has changed and nothing is to be done.
pub fn mint_handler(
    allocator: &mut SlotAllocator,
    solmap_number: u64,
    unix_timestamp: i64,
    slot: u64,
) -> (r: Result<MintPlan, SolmapError>)
    ensures
        r.is_ok() == claim_outcome(
            old(allocator)@,
            solmap_number as int,
            unix_timestamp as int,
            slot as int,
        ).is_ok(),
        r matches Ok(plan) ==> is_plan_for(plan, solmap_number),
        r matches Err(e) ==> claim_outcome(
            old(allocator)@,
            solmap_number as int,
            unix_timestamp as int,
            slot as int,
        ) == Err::<(), SolmapError>(e),
        final(allocator)@ == after_claim(
            old(allocator)@,
            solmap_number as int,
            unix_timestamp as int,
            slot as int,
        ),
        final(allocator).index().bytes() == (if r.is_ok() {
            with_bit(old(allocator).index().bytes(), solmap_number as int, true)
        } else {
            old(allocator).index().bytes()
        }),
{
    match allocator.claim(solmap_number, unix_timestamp, slot) {
        Ok(()) => Ok(plan_mint(solmap_number)),
        Err(e) => Err(e),
    }
}

} // verus!
