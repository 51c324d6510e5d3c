use solana_program::pubkey::Pubkey;
use solmap::address::{derive_1, derive_2, derive_address, Address};
use solmap::instructions::{
    create_init_index_ix, create_mint_solmap_ix, derive_edition_pda, derive_metadata_pda,
    derive_mint_keys, find_inscription_data_key, find_inscription_key,
    find_inscription_rank_pages, find_inscription_summary_key, find_inscription_v3_key,
    find_slot_index_key, init_index_ix, mint_solmap_ix, AccountMeta,
    ASSOCIATED_TOKEN_ACCOUNT_PROGRAM_ID, EDITION_SEED, FVCA_SEED, INIT_INDEX_DISC,
    INSCRIPTION_DATA_SEED, INSCRIPTION_PROGRAM_ID, INSCRIPTION_RANK_SEED, INSCRIPTION_SEED,
    INSCRIPTION_SUMMARY_SEED, INSCRIPTION_V3_SEED, METADATA_SEED, MINT_SOLMAP_DISC,
    PRIORITY_FEE_RATE, SLOT_INDEX_SEED, SOLMAP_COLLECTION, SOLMAP_PROGRAM_ID, SYSTEM_PROGRAM_ID,
    SYSVAR_INSTRUCTIONS_ID, TOKEN_METADATA_PROGRAM_ID, TOKEN_PROGRAM_ID, TREASURY,
};
use std::str::FromStr;

fn key(text: &str) -> [u8; 32] {
    Pubkey::from_str(text).unwrap().to_bytes()
}

fn pda(seeds: &[&[u8]], program: [u8; 32]) -> Address {
    let (found, _) = Pubkey::find_program_address(seeds, &Pubkey::new_from_array(program));
    Address { bytes: found.to_bytes() }
}

fn writable(pubkey: Address, is_signer: bool) -> AccountMeta {
    AccountMeta { pubkey, is_signer, is_writable: true }
}

fn readonly(pubkey: Address) -> AccountMeta {
    AccountMeta { pubkey, is_signer: false, is_writable: false }
}

fn some_key(tag: u8) -> Address {
    let mut bytes = [tag; 32];
    bytes[0] = 1;
    bytes[31] = tag.wrapping_mul(7);
    Address { bytes }
}

#[test]
fn program_ids_are_the_published_ones() {
    assert_eq!(TREASURY, key("72GEqCXZ5GLWnCWon5LBXjsZaoUh8jmarhXoBXnFr6CB"));
    assert_eq!(SOLMAP_PROGRAM_ID, key("SoLMAPutKhdpSSGpCCWioKfqqNQhsdaM8EEi41ummJM"));
    assert_eq!(TOKEN_METADATA_PROGRAM_ID, key("metaqbxxUerdq28cj1RbAWkYQm3ybzjb6a8bt518x1s"));
    assert_eq!(TOKEN_PROGRAM_ID, key("TokenkegQfeZyiNwAJbNbGKPFXCWuBvf9Ss623VQ5DA"));
    assert_eq!(
        ASSOCIATED_TOKEN_ACCOUNT_PROGRAM_ID,
        key("ATokenGPvbdGVxr1b2hvZbsiqW5xWH25efTNsLJA8knL")
    );
    assert_eq!(SOLMAP_COLLECTION, key("7GuWX1QnSzhT2Km6UZg1prndyQfkjfBqs8vK3h4tY6n2"));
    assert_eq!(INSCRIPTION_PROGRAM_ID, key("inscokhJarcjaEs59QbQ7hYjrKz25LEPRfCbP8EmdUp"));
    assert_eq!(SYSTEM_PROGRAM_ID, solana_program::system_program::ID.to_bytes());
    assert_eq!(SYSVAR_INSTRUCTIONS_ID, solana_program::sysvar::instructions::ID.to_bytes());
}

#[test]
fn seeds_and_tags_spell_what_they_should() {
    assert_eq!(&SLOT_INDEX_SEED[..], "slot_index".as_bytes());
    assert_eq!(&FVCA_SEED[..], "fvca".as_bytes());
    assert_eq!(&METADATA_SEED[..], "metadata".as_bytes());
    assert_eq!(&EDITION_SEED[..], "edition".as_bytes());
    assert_eq!(&INSCRIPTION_SUMMARY_SEED[..], "inscription_summary".as_bytes());
    assert_eq!(&INSCRIPTION_RANK_SEED[..], "inscription_rank".as_bytes());
    assert_eq!(&INSCRIPTION_SEED[..], "inscription".as_bytes());
    assert_eq!(&INSCRIPTION_V3_SEED[..], "inscription_v3".as_bytes());
    assert_eq!(&INSCRIPTION_DATA_SEED[..], "inscription_data".as_bytes());
    assert_eq!(MINT_SOLMAP_DISC, [51, 57, 225, 47, 182, 146, 137, 166]);
    assert_eq!(INIT_INDEX_DISC, [206, 236, 58, 58, 171, 221, 237, 57]);
    assert_eq!(PRIORITY_FEE_RATE, 25000);
}

#[test]
fn derived_addresses_are_those_of_the_ledger_library() {
    let mint = some_key(9);
    assert_eq!(find_slot_index_key(), Some(pda(&[b"slot_index"], SOLMAP_PROGRAM_ID)));
    assert_eq!(
        find_inscription_summary_key(),
        Some(pda(&[b"inscription_summary"], INSCRIPTION_PROGRAM_ID))
    );
    assert_eq!(
        find_inscription_rank_pages(),
        Some((
            pda(&[b"inscription_rank", &[0, 0, 0, 0]], INSCRIPTION_PROGRAM_ID),
            pda(&[b"inscription_rank", &[1, 0, 0, 0]], INSCRIPTION_PROGRAM_ID),
        ))
    );
    assert_eq!(
        find_inscription_key(mint),
        Some(pda(&[b"inscription", &mint.bytes], INSCRIPTION_PROGRAM_ID))
    );
    assert_eq!(
        find_inscription_v3_key(mint),
        Some(pda(&[b"inscription_v3", &mint.bytes], INSCRIPTION_PROGRAM_ID))
    );
    assert_eq!(
        find_inscription_data_key(mint),
        Some(pda(&[b"inscription_data", &mint.bytes], INSCRIPTION_PROGRAM_ID))
    );
    assert_eq!(
        derive_metadata_pda(mint),
        Some(pda(
            &[b"metadata", &TOKEN_METADATA_PROGRAM_ID, &mint.bytes],
            TOKEN_METADATA_PROGRAM_ID
        ))
    );
    assert_eq!(
        derive_edition_pda(mint),
        Some(pda(
            &[b"metadata", &TOKEN_METADATA_PROGRAM_ID, &mint.bytes, b"edition"],
            TOKEN_METADATA_PROGRAM_ID
        ))
    );
}

#[test]
fn derivation_depends_on_seeds_and_program() {
    let program = Address { bytes: SOLMAP_PROGRAM_ID };
    let other = Address { bytes: INSCRIPTION_PROGRAM_ID };
    let a = derive_1(b"slot_index", &program).unwrap();
    assert_ne!(a, program);
    assert_ne!(a.bytes, [0u8; 32]);
    assert_ne!(Some(a), derive_1(b"slot_index", &other));
    assert_ne!(Some(a), derive_1(b"fvca", &program));
    assert_ne!(derive_2(b"ab", b"c", &program), derive_2(b"a", b"b", &program));
    assert_eq!(Some(a), derive_1(b"slot_index", &program));
    assert_eq!(Some(a), derive_address(&vec![b"slot_index".to_vec()], &program));
}

#[test]
fn derivation_fails_on_a_seed_that_is_too_long() {
    let program = Address { bytes: SOLMAP_PROGRAM_ID };
    assert_eq!(derive_1(&[7u8; 33], &program), None);
    assert!(derive_1(&[7u8; 32], &program).is_some());
    let too_many: Vec<Vec<u8>> = (0..16u8).map(|i| vec![i]).collect();
    assert_eq!(derive_address(&too_many, &program), None);
    let most: Vec<Vec<u8>> = (0..15u8).map(|i| vec![i]).collect();
    assert!(derive_address(&most, &program).is_some());
    assert!(derive_address(&Vec::new(), &program).is_some());
}

#[test]
fn init_index_instruction() {
    let payer = some_key(3);
    let index = pda(&[b"slot_index"], SOLMAP_PROGRAM_ID);
    let ix = create_init_index_ix(payer).unwrap();
    assert_eq!(ix.program_id.bytes, SOLMAP_PROGRAM_ID);
    assert_eq!(ix.data, vec![206, 236, 58, 58, 171, 221, 237, 57]);
    assert_eq!(
        ix.accounts,
        vec![
            writable(payer, true),
            writable(index, false),
            readonly(Address { bytes: SYSTEM_PROGRAM_ID }),
        ]
    );
    assert_eq!(ix, init_index_ix(payer, index));
}

#[test]
fn mint_instruction() {
    let authority = some_key(4);
    let mint = some_key(5);
    let ix = create_mint_solmap_ix(authority, mint, 0x0102_0304_0506_0708).unwrap();
    assert_eq!(ix.program_id.bytes, SOLMAP_PROGRAM_ID);
    assert_eq!(ix.data, vec![51, 57, 225, 47, 182, 146, 137, 166, 8, 7, 6, 5, 4, 3, 2, 1]);
    let ins = INSCRIPTION_PROGRAM_ID;
    let tm = TOKEN_METADATA_PROGRAM_ID;
    let expected = vec![
        writable(authority, true),
        writable(pda(&[b"slot_index"], SOLMAP_PROGRAM_ID), false),
        writable(Address { bytes: TREASURY }, false),
        writable(mint, true),
        writable(
            pda(
                &[&authority.bytes, &TOKEN_PROGRAM_ID, &mint.bytes],
                ASSOCIATED_TOKEN_ACCOUNT_PROGRAM_ID,
            ),
            false,
        ),
        writable(pda(&[b"metadata", &tm, &mint.bytes], tm), false),
        writable(pda(&[b"metadata", &tm, &mint.bytes, b"edition"], tm), false),
        readonly(pda(&[b"fvca"], SOLMAP_PROGRAM_ID)),
        writable(pda(&[b"inscription", &mint.bytes], ins), false),
        writable(pda(&[b"inscription_v3", &mint.bytes], ins), false),
        writable(pda(&[b"inscription_data", &mint.bytes], ins), false),
        writable(pda(&[b"inscription_rank", &[0, 0, 0, 0]], ins), false),
        writable(pda(&[b"inscription_rank", &[1, 0, 0, 0]], ins), false),
        writable(pda(&[b"inscription_summary"], ins), false),
        readonly(Address { bytes: INSCRIPTION_PROGRAM_ID }),
        readonly(Address { bytes: SYSTEM_PROGRAM_ID }),
        readonly(Address { bytes: SYSVAR_INSTRUCTIONS_ID }),
        readonly(Address { bytes: TOKEN_METADATA_PROGRAM_ID }),
        readonly(Address { bytes: TOKEN_PROGRAM_ID }),
        readonly(Address { bytes: ASSOCIATED_TOKEN_ACCOUNT_PROGRAM_ID }),
    ];
    assert_eq!(ix.accounts.len(), 20);
    assert_eq!(ix.accounts, expected);
    let keys = derive_mint_keys(authority, mint).unwrap();
    assert_eq!(ix, mint_solmap_ix(authority, mint, 0x0102_0304_0506_0708, &keys));
}

#[test]
fn mint_instruction_data_is_little_endian() {
    let keys = derive_mint_keys(some_key(1), some_key(2)).unwrap();
    let data = |n: u64| mint_solmap_ix(some_key(1), some_key(2), n, &keys).data;
    assert_eq!(data(0)[8..], [0u8; 8]);
    assert_eq!(data(5)[8..], [5, 0, 0, 0, 0, 0, 0, 0]);
    assert_eq!(data(240_041)[8..], 240_041u64.to_le_bytes());
    assert_eq!(data(u64::MAX)[8..], [255u8; 8]);
    assert_eq!(data(77)[..8], MINT_SOLMAP_DISC);
}
