//! What the command-line front end computes: the instructions of the
//! transactions it sends, and the answers it reads out of the index account.
//! Reading keys, talking to the node and printing are left to the caller.

use crate::address::Address;
use crate::allocator::{is_claimed_outcome, SlotAllocator};
use crate::bits::{addressable, bits_of};
use crate::error::SolmapError;
use crate::instructions::{
    create_mint_solmap_ix, is_mint_solmap_ix, mint_keys_derivable, Instruction,
    PRIORITY_FEE_RATE,
};
use crate::presence_index::{claimed, PresenceIndex};
use vstd::prelude::*;

verus! {

/// A file-system path of the standard library, carried through unread.
#[verifier::external_type_specification]
#[verifier::external_body]
pub struct ExPathBuf(std::path::PathBuf);

/// The compute units that a mint transaction asks for.
pub const MINT_COMPUTE_UNIT_LIMIT: u32 = 400_000;

/// Where to find the signer and the node, which slot to claim, and whether
/// to pay for priority.
pub struct MintArgs {
    pub keypair_path: Option<std::path::PathBuf>,
    pub rpc_url: Option<String>,
    pub solmap_number: u64,
    pub boost: bool,
}

/// Where to find the signer and the node, and which slot to ask about.
pub struct CheckArgs {
    pub keypair_path: Option<std::path::PathBuf>,
    pub rpc_url: Option<String>,
    pub solmap_number: u64,
}

/// One instruction of a transaction.
#[derive(Clone, Debug, PartialEq, Eq)]
pub enum Step {
    /// Ask for this many compute units.
    SetComputeUnitLimit(u32),
    /// Offer this price per compute unit.
    SetComputeUnitPrice(u64),
    /// Call the program.
    Program(Instruction),
}

/// What the index account's `data` says about slot `solmap_number`.
pub open spec fn check_outcome(data: Seq<u8>, solmap_number: u64) -> Result<bool, SolmapError> {
    if !addressable(data.len()) {
        Err(SolmapError::OutOfRange)
    } else {
        is_claimed_outcome(bits_of(data), solmap_number as int)
    }
}

/// Whether the slot that `args` names is claimed, going by the index
/// account's `data`. A slot beyond the data is reported as invalid; data too
/// long to be an index at all is reported as out of range.
pub fn check_if_minted(args: &CheckArgs, data: Vec<u8>) -> (r: Result<bool, SolmapError>)
    ensures
        r == check_outcome(data@, args.solmap_number),
{
    match PresenceIndex::from_bytes(data) {
        Some(index) => SlotAllocator::new(index).is_claimed(args.solmap_number),
        None => Err(SolmapError::OutOfRange),
    }
}

/// How many slots are claimed, going by the index account's `data`; `None`
/// where the data is too long to be an index at all.
pub fn total_minted(data: Vec<u8>) -> (total: Option<u64>)
    ensures
        total.is_some() == addressable(data@.len()),
        total matches Some(n) ==> n == claimed(bits_of(data@)).len(),
{
    match PresenceIndex::from_bytes(data) {
        Some(index) => Some(SlotAllocator::new(index).total_claimed()),
        None => None,
    }
}

/// `steps` are the instructions of a mint transaction for `solmap_number`:
/// the compute unit limit, then the price where `boost` is set, then the
/// program's own instruction.
pub open spec fn is_mint_transaction(
    steps: Seq<Step>,
    payer: Address,
    mint: Address,
    solmap_number: u64,
    boost: bool,
) -> bool {
    &&& steps.len() == (if boost {
        3nat
    } else {
        2nat
    })
    &&& steps[0] == Step::SetComputeUnitLimit(MINT_COMPUTE_UNIT_LIMIT)
    &&& boost ==> steps[1] == Step::SetComputeUnitPrice(PRIORITY_FEE_RATE)
    &&& steps.last() matches Step::Program(ix) && is_mint_solmap_ix(
        ix,
        payer,
        mint,
        solmap_number,
    )
}

/// The instructions of the transaction by which `payer` claims the slot that
/// `args` names for the new token `token`; `None` exactly where an address
/// that the program's instruction names cannot be derived.
pub fn mint(args: &MintArgs, payer: Address, token: Address) -> (steps: Option<Vec<Step>>)
    ensures
        steps.is_some() == mint_keys_derivable(payer, token),
        steps matches Some(s) ==> is_mint_transaction(
            s@,
            payer,
            token,
            args.solmap_number,
            args.boost,
        ),
{
    match create_mint_solmap_ix(payer, token, args.solmap_number) {
        None => None,
        Some(ix) => {
            let mut steps: Vec<Step> = Vec::new();
            steps.push(Step::SetComputeUnitLimit(MINT_COMPUTE_UNIT_LIMIT));
            if args.boost {
                steps.push(Step::SetComputeUnitPrice(PRIORITY_FEE_RATE));
            }
            steps.push(Step::Program(ix));
            Some(steps)
        },
    }
}

} // verus!
