//! The instructions that drive the on-chain program, as plain values: which
//! program, which accounts in which order, and which data bytes.

use crate::address::{derive_1, derive_2, derive_3, derive_4, derives, program_address, Address};
use vstd::bytes::{spec_u64_to_le_bytes, u64_to_le_bytes};
use vstd::prelude::*;
use vstd::slice::slice_to_vec;

verus! {

pub const TREASURY: [u8; 32] = [
    89, 120, 238, 187, 242, 44, 162, 155, 196, 144, 154, 165, 110, 18, 20, 202,
    22, 249, 130, 188, 228, 93, 201, 182, 207, 68, 181, 141, 155, 177, 64, 100,
];

pub const SOLMAP_PROGRAM_ID: [u8; 32] = [
    6, 155, 232, 230, 216, 105, 30, 63, 242, 201, 54, 254, 202, 195, 166, 194,
    190, 152, 196, 133, 207, 94, 177, 175, 192, 103, 103, 42, 1, 132, 56, 126,
];

pub const TOKEN_METADATA_PROGRAM_ID: [u8; 32] = [
    11, 112, 101, 177, 227, 209, 124, 69, 56, 157, 82, 127, 107, 4, 195, 205,
    88, 184, 108, 115, 26, 160, 253, 181, 73, 182, 209, 188, 3, 248, 41, 70,
];

pub const TOKEN_PROGRAM_ID: [u8; 32] = [
    6, 221, 246, 225, 215, 101, 161, 147, 217, 203, 225, 70, 206, 235, 121, 172,
    28, 180, 133, 237, 95, 91, 55, 145, 58, 140, 245, 133, 126, 255, 0, 169,
];

pub const ASSOCIATED_TOKEN_ACCOUNT_PROGRAM_ID: [u8; 32] = [
    140, 151, 37, 143, 78, 36, 137, 241, 187, 61, 16, 41, 20, 142, 13, 131,
    11, 90, 19, 153, 218, 255, 16, 132, 4, 142, 123, 216, 219, 233, 248, 89,
];

pub const SOLMAP_COLLECTION: [u8; 32] = [
    93, 57, 52, 170, 7, 75, 24, 32, 62, 68, 100, 142, 23, 164, 139, 222,
    41, 190, 153, 197, 0, 12, 149, 17, 4, 51, 23, 51, 93, 140, 160, 207,
];

pub const INSCRIPTION_PROGRAM_ID: [u8; 32] = [
    10, 180, 174, 126, 63, 63, 157, 25, 219, 207, 134, 162, 20, 30, 248, 226,
    156, 36, 200, 252, 225, 223, 15, 172, 144, 187, 222, 57, 38, 185, 20, 237,
];

pub const SYSTEM_PROGRAM_ID: [u8; 32] = [
    0, 0, 0, 0, 0, 0, 0, 0, 0, 0, 0, 0, 0, 0, 0, 0,
    0, 0, 0, 0, 0, 0, 0, 0, 0, 0, 0, 0, 0, 0, 0, 0,
];

pub const SYSVAR_INSTRUCTIONS_ID: [u8; 32] = [
    6, 167, 213, 23, 24, 123, 209, 102, 53, 218, 212, 4, 85, 253, 194, 192,
    193, 36, 198, 143, 33, 86, 117, 165, 219, 186, 203, 95, 8, 0, 0, 0,
];

/// The first eight data bytes of the instruction that claims a slot.
pub const MINT_SOLMAP_DISC: [u8; 8] = [51, 57, 225, 47, 182, 146, 137, 166];

/// The first eight data bytes of the instruction that grows the index.
pub const INIT_INDEX_DISC: [u8; 8] = [206, 236, 58, 58, 171, 221, 237, 57];

/// The price per compute unit that a boosted transaction offers.
pub const PRIORITY_FEE_RATE: u64 = 25000;

/// Seed `slot_index`.
pub const SLOT_INDEX_SEED: [u8; 10] = [115, 108, 111, 116, 95, 105, 110, 100, 101, 120];

/// Seed `fvca`.
pub const FVCA_SEED: [u8; 4] = [102, 118, 99, 97];

/// Seed `metadata`.
pub const METADATA_SEED: [u8; 8] = [109, 101, 116, 97, 100, 97, 116, 97];

/// Seed `edition`.
pub const EDITION_SEED: [u8; 7] = [101, 100, 105, 116, 105, 111, 110];

/// Seed `inscription_summary`.
pub const INSCRIPTION_SUMMARY_SEED: [u8; 19] = [
    105, 110, 115, 99, 114, 105, 112, 116, 105, 111, 110, 95, 115, 117, 109, 109, 97, 114, 121,
];

/// Seed `inscription_rank`.
pub const INSCRIPTION_RANK_SEED: [u8; 16] = [
    105, 110, 115, 99, 114, 105, 112, 116, 105, 111, 110, 95, 114, 97, 110, 107,
];

/// Seed `inscription`.
pub const INSCRIPTION_SEED: [u8; 11] = [105, 110, 115, 99, 114, 105, 112, 116, 105, 111, 110];

/// Seed `inscription_v3`.
pub const INSCRIPTION_V3_SEED: [u8; 14] = [
    105, 110, 115, 99, 114, 105, 112, 116, 105, 111, 110, 95, 118, 51,
];

/// Seed `inscription_data`.
pub const INSCRIPTION_DATA_SEED: [u8; 16] = [
    105, 110, 115, 99, 114, 105, 112, 116, 105, 111, 110, 95, 100, 97, 116, 97,
];

/// The page number of the current rank page, as a seed.
pub const RANK_PAGE_CURRENT: [u8; 4] = [0, 0, 0, 0];

/// The page number of the next rank page, as a seed.
pub const RANK_PAGE_NEXT: [u8; 4] = [1, 0, 0, 0];

/// One account of an instruction, and how the instruction uses it.
#[derive(Clone, Copy, Debug, PartialEq, Eq)]
pub struct AccountMeta {
    pub pubkey: Address,
    pub is_signer: bool,
    pub is_writable: bool,
}

/// An instruction for a program.
#[derive(Clone, Debug, PartialEq, Eq)]
pub struct Instruction {
    pub program_id: Address,
    pub accounts: Vec<AccountMeta>,
    pub data: Vec<u8>,
}

/// The address made of `bytes`.
pub open spec fn address_of(bytes: [u8; 32]) -> Address {
    Address { bytes }
}

/// An account that the instruction may write to.
pub open spec fn writable(pubkey: Address, is_signer: bool) -> AccountMeta {
    AccountMeta { pubkey, is_signer, is_writable: true }
}

/// An account that the instruction only reads.
pub open spec fn readonly(pubkey: Address, is_signer: bool) -> AccountMeta {
    AccountMeta { pubkey, is_signer, is_writable: false }
}

/// The seeds of the account that holds the slot index.
pub open spec fn slot_index_seeds() -> Seq<Seq<u8>> {
    seq![SLOT_INDEX_SEED@]
}

/// The accounts of the instruction that grows the index, in order: the
/// payer, who signs; the index account; the system program.
pub open spec fn init_index_accounts(payer: Address, index: Address) -> Seq<AccountMeta> {
    seq![
        writable(payer, true),
        writable(index, false),
        readonly(address_of(SYSTEM_PROGRAM_ID), false),
    ]
}

/// The instruction that grows the index held at `index`, paid for by `payer`.
pub fn init_index_ix(payer: Address, index: Address) -> (ix: Instruction)
    ensures
        ix.program_id == address_of(SOLMAP_PROGRAM_ID),
        ix.accounts@ == init_index_accounts(payer, index),
        ix.data@ == INIT_INDEX_DISC@,
{
    let mut accounts: Vec<AccountMeta> = Vec::new();
    accounts.push(AccountMeta { pubkey: payer, is_signer: true, is_writable: true });
    accounts.push(AccountMeta { pubkey: index, is_signer: false, is_writable: true });
    accounts.push(
        AccountMeta {
            pubkey: Address { bytes: SYSTEM_PROGRAM_ID },
            is_signer: false,
            is_writable: false,
        },
    );
    assert(accounts@ =~= init_index_accounts(payer, index));
    Instruction {
        program_id: Address { bytes: SOLMAP_PROGRAM_ID },
        accounts,
        data: slice_to_vec(INIT_INDEX_DISC.as_slice()),
    }
}

/// The address of the account that holds the slot index, or `None` where
/// its seeds derive no address.
pub fn find_slot_index_key() -> (key: Option<Address>)
    ensures
        key.is_some() == program_address(slot_index_seeds(), SOLMAP_PROGRAM_ID@).is_some(),
        key matches Some(k) ==> derives(slot_index_seeds(), SOLMAP_PROGRAM_ID@, k),
{
    derive_1(SLOT_INDEX_SEED.as_slice(), &Address { bytes: SOLMAP_PROGRAM_ID })
}

/// `ix` is the instruction that grows the index, paid for by `payer`, with
/// the index account at its derived address.
pub open spec fn is_init_index_ix(ix: Instruction, payer: Address) -> bool {
    exists|index: Address|
        {
            &&& #[trigger] derives(slot_index_seeds(), SOLMAP_PROGRAM_ID@, index)
            &&& ix.program_id == address_of(SOLMAP_PROGRAM_ID)
            &&& ix.accounts@ == init_index_accounts(payer, index)
            &&& ix.data@ == INIT_INDEX_DISC@
        }
}

/// The instruction that grows the index, paid for by `payer`. It is built
/// exactly where the index account's address can be derived, and is then
/// [`init_index_ix`] on that address.
pub fn create_init_index_ix(payer: Address) -> (ix: Option<Instruction>)
    ensures
        ix.is_some() == program_address(slot_index_seeds(), SOLMAP_PROGRAM_ID@).is_some(),
        ix matches Some(i) ==> is_init_index_ix(i, payer),
{
    match find_slot_index_key() {
        Some(index) => Some(init_index_ix(payer, index)),
        None => None,
    }
}

/// The derived addresses that a mint instruction names besides the two it
/// is given.
#[derive(Clone, Copy, Debug, PartialEq, Eq)]
pub struct MintKeys {
    pub slot_index: Address,
    pub token: Address,
    pub metadata: Address,
    pub master_edition: Address,
    pub fvca: Address,
    pub inscription: Address,
    pub inscription_v3: Address,
    pub inscription_data: Address,
    pub inscription_ranks_current_page: Address,
    pub inscription_ranks_next_page: Address,
    pub inscription_summary: Address,
}

/// The seeds of the minter's token account for `mint`.
pub open spec fn token_seeds(authority: Address, mint: Address) -> Seq<Seq<u8>> {
    seq![authority@, TOKEN_PROGRAM_ID@, mint@]
}

/// The seeds of the metadata account of `mint`.
pub open spec fn metadata_seeds(mint: Address) -> Seq<Seq<u8>> {
    seq![METADATA_SEED@, TOKEN_METADATA_PROGRAM_ID@, mint@]
}

/// The seeds of the master edition account of `mint`.
pub open spec fn edition_seeds(mint: Address) -> Seq<Seq<u8>> {
    seq![METADATA_SEED@, TOKEN_METADATA_PROGRAM_ID@, mint@, EDITION_SEED@]
}

/// Every address of `keys` is the one that its seeds derive for the minter
/// `authority` and the token `mint`.
pub open spec fn mint_keys_derived(keys: MintKeys, authority: Address, mint: Address) -> bool {
    &&& derives(slot_index_seeds(), SOLMAP_PROGRAM_ID@, keys.slot_index)
    &&& derives(
        token_seeds(authority, mint),
        ASSOCIATED_TOKEN_ACCOUNT_PROGRAM_ID@,
        keys.token,
    )
    &&& derives(metadata_seeds(mint), TOKEN_METADATA_PROGRAM_ID@, keys.metadata)
    &&& derives(edition_seeds(mint), TOKEN_METADATA_PROGRAM_ID@, keys.master_edition)
    &&& derives(seq![FVCA_SEED@], SOLMAP_PROGRAM_ID@, keys.fvca)
    &&& derives(seq![INSCRIPTION_SEED@, mint@], INSCRIPTION_PROGRAM_ID@, keys.inscription)
    &&& derives(seq![INSCRIPTION_V3_SEED@, mint@], INSCRIPTION_PROGRAM_ID@, keys.inscription_v3)
    &&& derives(
        seq![INSCRIPTION_DATA_SEED@, mint@],
        INSCRIPTION_PROGRAM_ID@,
        keys.inscription_data,
    )
    &&& derives(
        seq![INSCRIPTION_RANK_SEED@, RANK_PAGE_CURRENT@],
        INSCRIPTION_PROGRAM_ID@,
        keys.inscription_ranks_current_page,
    )
    &&& derives(
        seq![INSCRIPTION_RANK_SEED@, RANK_PAGE_NEXT@],
        INSCRIPTION_PROGRAM_ID@,
        keys.inscription_ranks_next_page,
    )
    &&& derives(
        seq![INSCRIPTION_SUMMARY_SEED@],
        INSCRIPTION_PROGRAM_ID@,
        keys.inscription_summary,
    )
}

/// All the seeds that a mint instruction relies on derive an address.
pub open spec fn mint_keys_derivable(authority: Address, mint: Address) -> bool {
    &&& program_address(slot_index_seeds(), SOLMAP_PROGRAM_ID@).is_some()
    &&& program_address(
        token_seeds(authority, mint),
        ASSOCIATED_TOKEN_ACCOUNT_PROGRAM_ID@,
    ).is_some()
    &&& program_address(metadata_seeds(mint), TOKEN_METADATA_PROGRAM_ID@).is_some()
    &&& program_address(edition_seeds(mint), TOKEN_METADATA_PROGRAM_ID@).is_some()
    &&& program_address(seq![FVCA_SEED@], SOLMAP_PROGRAM_ID@).is_some()
    &&& program_address(seq![INSCRIPTION_SEED@, mint@], INSCRIPTION_PROGRAM_ID@).is_some()
    &&& program_address(seq![INSCRIPTION_V3_SEED@, mint@], INSCRIPTION_PROGRAM_ID@).is_some()
    &&& program_address(seq![INSCRIPTION_DATA_SEED@, mint@], INSCRIPTION_PROGRAM_ID@).is_some()
    &&& program_address(
        seq![INSCRIPTION_RANK_SEED@, RANK_PAGE_CURRENT@],
        INSCRIPTION_PROGRAM_ID@,
    ).is_some()
    &&& program_address(
        seq![INSCRIPTION_RANK_SEED@, RANK_PAGE_NEXT@],
        INSCRIPTION_PROGRAM_ID@,
    ).is_some()
    &&& program_address(seq![INSCRIPTION_SUMMARY_SEED@], INSCRIPTION_PROGRAM_ID@).is_some()
}

/// The address of the account that sums up all inscriptions.
pub fn find_inscription_summary_key() -> (key: Option<Address>)
    ensures
        key.is_some() == program_address(
            seq![INSCRIPTION_SUMMARY_SEED@],
            INSCRIPTION_PROGRAM_ID@,
        ).is_some(),
        key matches Some(k) ==> derives(seq![INSCRIPTION_SUMMARY_SEED@], INSCRIPTION_PROGRAM_ID@, k),
{
    derive_1(INSCRIPTION_SUMMARY_SEED.as_slice(), &Address { bytes: INSCRIPTION_PROGRAM_ID })
}

/// The addresses of the current and of the next page of inscription ranks.
/// Both are found, or neither is given.
pub fn find_inscription_rank_pages() -> (pages: Option<(Address, Address)>)
    ensures
        pages.is_some() == (program_address(
            seq![INSCRIPTION_RANK_SEED@, RANK_PAGE_CURRENT@],
            INSCRIPTION_PROGRAM_ID@,
        ).is_some() && program_address(
            seq![INSCRIPTION_RANK_SEED@, RANK_PAGE_NEXT@],
            INSCRIPTION_PROGRAM_ID@,
        ).is_some()),
        pages matches Some((current, next)) ==> derives(
            seq![INSCRIPTION_RANK_SEED@, RANK_PAGE_CURRENT@],
            INSCRIPTION_PROGRAM_ID@,
            current,
        ) && derives(seq![INSCRIPTION_RANK_SEED@, RANK_PAGE_NEXT@], INSCRIPTION_PROGRAM_ID@, next),
{
    let program = Address { bytes: INSCRIPTION_PROGRAM_ID };
    let current = derive_2(
        INSCRIPTION_RANK_SEED.as_slice(),
        RANK_PAGE_CURRENT.as_slice(),
        &program,
    );
    let next = derive_2(INSCRIPTION_RANK_SEED.as_slice(), RANK_PAGE_NEXT.as_slice(), &program);
    match (current, next) {
        (Some(current), Some(next)) => Some((current, next)),
        _ => None,
    }
}

/// The address of the inscription of `mint`.
pub fn find_inscription_key(mint: Address) -> (key: Option<Address>)
    ensures
        key.is_some() == program_address(
            seq![INSCRIPTION_SEED@, mint@],
            INSCRIPTION_PROGRAM_ID@,
        ).is_some(),
        key matches Some(k) ==> derives(seq![INSCRIPTION_SEED@, mint@], INSCRIPTION_PROGRAM_ID@, k),
{
    derive_2(
        INSCRIPTION_SEED.as_slice(),
        mint.bytes.as_slice(),
        &Address { bytes: INSCRIPTION_PROGRAM_ID },
    )
}

/// The address of the version-three inscription of `mint`.
pub fn find_inscription_v3_key(mint: Address) -> (key: Option<Address>)
    ensures
        key.is_some() == program_address(
            seq![INSCRIPTION_V3_SEED@, mint@],
            INSCRIPTION_PROGRAM_ID@,
        ).is_some(),
        key matches Some(k) ==> derives(
            seq![INSCRIPTION_V3_SEED@, mint@],
            INSCRIPTION_PROGRAM_ID@,
            k,
        ),
{
    derive_2(
        INSCRIPTION_V3_SEED.as_slice(),
        mint.bytes.as_slice(),
        &Address { bytes: INSCRIPTION_PROGRAM_ID },
    )
}

/// The address of the inscription data of `mint`.
pub fn find_inscription_data_key(mint: Address) -> (key: Option<Address>)
    ensures
        key.is_some() == program_address(
            seq![INSCRIPTION_DATA_SEED@, mint@],
            INSCRIPTION_PROGRAM_ID@,
        ).is_some(),
        key matches Some(k) ==> derives(
            seq![INSCRIPTION_DATA_SEED@, mint@],
            INSCRIPTION_PROGRAM_ID@,
            k,
        ),
{
    derive_2(
        INSCRIPTION_DATA_SEED.as_slice(),
        mint.bytes.as_slice(),
        &Address { bytes: INSCRIPTION_PROGRAM_ID },
    )
}

/// The address of the metadata account of `mint`.
pub fn derive_metadata_pda(mint: Address) -> (key: Option<Address>)
    ensures
        key.is_some() == program_address(metadata_seeds(mint), TOKEN_METADATA_PROGRAM_ID@).is_some(),
        key matches Some(k) ==> derives(metadata_seeds(mint), TOKEN_METADATA_PROGRAM_ID@, k),
{
    derive_3(
        METADATA_SEED.as_slice(),
        TOKEN_METADATA_PROGRAM_ID.as_slice(),
        mint.bytes.as_slice(),
        &Address { bytes: TOKEN_METADATA_PROGRAM_ID },
    )
}

/// The address of the master edition account of `mint`.
pub fn derive_edition_pda(mint: Address) -> (key: Option<Address>)
    ensures
        key.is_some() == program_address(edition_seeds(mint), TOKEN_METADATA_PROGRAM_ID@).is_some(),
        key matches Some(k) ==> derives(edition_seeds(mint), TOKEN_METADATA_PROGRAM_ID@, k),
{
    derive_4(
        METADATA_SEED.as_slice(),
        TOKEN_METADATA_PROGRAM_ID.as_slice(),
        mint.bytes.as_slice(),
        EDITION_SEED.as_slice(),
        &Address { bytes: TOKEN_METADATA_PROGRAM_ID },
    )
}

/// Derives every address that a mint instruction names for the minter
/// `authority` and the token `mint`. All are found, or none is given.
pub fn derive_mint_keys(authority: Address, mint: Address) -> (keys: Option<MintKeys>)
    ensures
        keys.is_some() == mint_keys_derivable(authority, mint),
        keys matches Some(k) ==> mint_keys_derived(k, authority, mint),
{
    let slot_index = find_slot_index_key();
    let token = derive_3(
        authority.bytes.as_slice(),
        TOKEN_PROGRAM_ID.as_slice(),
        mint.bytes.as_slice(),
        &Address { bytes: ASSOCIATED_TOKEN_ACCOUNT_PROGRAM_ID },
    );
    let metadata = derive_metadata_pda(mint);
    let master_edition = derive_edition_pda(mint);
    let fvca = derive_1(FVCA_SEED.as_slice(), &Address { bytes: SOLMAP_PROGRAM_ID });
    let inscription_summary = find_inscription_summary_key();
    let pages = find_inscription_rank_pages();
    let inscription = find_inscription_key(mint);
    let inscription_v3 = find_inscription_v3_key(mint);
    let inscription_data = find_inscription_data_key(mint);
    match (slot_index, token, metadata, master_edition, fvca) {
        (Some(slot_index), Some(token), Some(metadata), Some(master_edition), Some(fvca)) => {
            match (inscription_summary, pages, inscription, inscription_v3, inscription_data) {
                (
                    Some(inscription_summary),
                    Some((current, next)),
                    Some(inscription),
                    Some(inscription_v3),
                    Some(inscription_data),
                ) => Some(
                    MintKeys {
                        slot_index,
                        token,
                        metadata,
                        master_edition,
                        fvca,
                        inscription,
                        inscription_v3,
                        inscription_data,
                        inscription_ranks_current_page: current,
                        inscription_ranks_next_page: next,
                        inscription_summary,
                    },
                ),
                _ => None,
            }
        },
        _ => None,
    }
}

/// The accounts of a mint instruction, in the order the program expects.
pub open spec fn mint_solmap_accounts(authority: Address, mint: Address, keys: MintKeys) -> Seq<
    AccountMeta,
> {
    seq![
        writable(authority, true),
        writable(keys.slot_index, false),
        writable(address_of(TREASURY), false),
        writable(mint, true),
        writable(keys.token, false),
        writable(keys.metadata, false),
        writable(keys.master_edition, false),
        readonly(keys.fvca, false),
        writable(keys.inscription, false),
        writable(keys.inscription_v3, false),
        writable(keys.inscription_data, false),
        writable(keys.inscription_ranks_current_page, false),
        writable(keys.inscription_ranks_next_page, false),
        writable(keys.inscription_summary, false),
        readonly(address_of(INSCRIPTION_PROGRAM_ID), false),
        readonly(address_of(SYSTEM_PROGRAM_ID), false),
        readonly(address_of(SYSVAR_INSTRUCTIONS_ID), false),
        readonly(address_of(TOKEN_METADATA_PROGRAM_ID), false),
        readonly(address_of(TOKEN_PROGRAM_ID), false),
        readonly(address_of(ASSOCIATED_TOKEN_ACCOUNT_PROGRAM_ID), false),
    ]
}

/// The data of a mint instruction: the instruction's tag, then the slot
/// number as eight bytes, least significant first.
pub open spec fn mint_solmap_data(solmap_number: u64) -> Seq<u8> {
    MINT_SOLMAP_DISC@ + spec_u64_to_le_bytes(solmap_number)
}

/// One account entry.
fn account(pubkey: Address, is_signer: bool, is_writable: bool) -> (meta: AccountMeta)
    ensures
        meta == (AccountMeta { pubkey, is_signer, is_writable }),
{
    AccountMeta { pubkey, is_signer, is_writable }
}

/// The instruction by which `authority` claims slot `solmap_number` for the
/// new token `mint`, over derived addresses that are already at hand.
pub fn mint_solmap_ix(authority: Address, mint: Address, solmap_number: u64, keys: &MintKeys) -> (ix:
    Instruction)
    ensures
        ix.program_id == address_of(SOLMAP_PROGRAM_ID),
        ix.accounts@ == mint_solmap_accounts(authority, mint, *keys),
        ix.data@ == mint_solmap_data(solmap_number),
{
    let mut data = slice_to_vec(MINT_SOLMAP_DISC.as_slice());
    let number = u64_to_le_bytes(solmap_number);
    data.extend_from_slice(number.as_slice());
    assert(data@ =~= mint_solmap_data(solmap_number));
    let mut accounts: Vec<AccountMeta> = Vec::new();
    accounts.push(account(authority, true, true));
    accounts.push(account(keys.slot_index, false, true));
    accounts.push(account(Address { bytes: TREASURY }, false, true));
    accounts.push(account(mint, true, true));
    accounts.push(account(keys.token, false, true));
    accounts.push(account(keys.metadata, false, true));
    accounts.push(account(keys.master_edition, false, true));
    accounts.push(account(keys.fvca, false, false));
    accounts.push(account(keys.inscription, false, true));
    accounts.push(account(keys.inscription_v3, false, true));
    accounts.push(account(keys.inscription_data, false, true));
    accounts.push(account(keys.inscription_ranks_current_page, false, true));
    accounts.push(account(keys.inscription_ranks_next_page, false, true));
    accounts.push(account(keys.inscription_summary, false, true));
    accounts.push(account(Address { bytes: INSCRIPTION_PROGRAM_ID }, false, false));
    accounts.push(account(Address { bytes: SYSTEM_PROGRAM_ID }, false, false));
    accounts.push(account(Address { bytes: SYSVAR_INSTRUCTIONS_ID }, false, false));
    accounts.push(account(Address { bytes: TOKEN_METADATA_PROGRAM_ID }, false, false));
    accounts.push(account(Address { bytes: TOKEN_PROGRAM_ID }, false, false));
    accounts.push(account(Address { bytes: ASSOCIATED_TOKEN_ACCOUNT_PROGRAM_ID }, false, false));
    assert(accounts@ =~= mint_solmap_accounts(authority, mint, *keys));
    Instruction { program_id: Address { bytes: SOLMAP_PROGRAM_ID }, accounts, data }
}

/// `ix` is the instruction by which `authority` claims slot `solmap_number`
/// for the new token `mint`, with every other account at its derived address.
pub open spec fn is_mint_solmap_ix(
    ix: Instruction,
    authority: Address,
    mint: Address,
    solmap_number: u64,
) -> bool {
    exists|keys: MintKeys|
        {
            &&& #[trigger] mint_keys_derived(keys, authority, mint)
            &&& ix.program_id == address_of(SOLMAP_PROGRAM_ID)
            &&& ix.accounts@ == mint_solmap_accounts(authority, mint, keys)
            &&& ix.data@ == mint_solmap_data(solmap_number)
        }
}

/// The instruction by which `authority` claims slot `solmap_number` for the
/// new token `mint`. It is built exactly where every address it names can
/// be derived, and is then [`mint_solmap_ix`] over those addresses.
pub fn create_mint_solmap_ix(authority: Address, mint: Address, solmap_number: u64) -> (ix: Option<
    Instruction,
>)
    ensures
        ix.is_some() == mint_keys_derivable(authority, mint),
        ix matches Some(i) ==> is_mint_solmap_ix(i, authority, mint, solmap_number),
{
    match derive_mint_keys(authority, mint) {
        Some(keys) => Some(mint_solmap_ix(authority, mint, solmap_number, &keys)),
        None => None,
    }
}

} // verus!
