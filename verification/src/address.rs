//! Account addresses, and the derivation of program addresses from seeds.
//!
//! An address is thirty-two bytes. Deriving a program address is left to the
//! `solana_program` crate: what comes back is taken on trust, under a name of
//! its own, and everything built on it is stated in terms of that name.

use solana_program::pubkey::Pubkey;
use vstd::prelude::*;

verus! {

/// The address of an account or of a program.
#[derive(Clone, Copy, Debug, PartialEq, Eq)]
pub struct Address {
    pub bytes: [u8; 32],
}

impl View for Address {
    type V = Seq<u8>;

    open spec fn view(&self) -> Seq<u8> {
        self.bytes@
    }
}

/// The program address that `seeds` derive under `program_id`, with the bump
/// seed that was found for it, or `None` where the seeds derive none.
pub uninterp spec fn program_address(seeds: Seq<Seq<u8>>, program_id: Seq<u8>) -> Option<
    (Seq<u8>, u8),
>;

/// A derived address and its bump seed, as plain values.
pub open spec fn derived_view(derived: Option<(Address, u8)>) -> Option<(Seq<u8>, u8)> {
    match derived {
        Some((address, bump)) => Some((address@, bump)),
        None => None,
    }
}

/// The seeds of a derivation, as plain byte sequences.
pub open spec fn seeds_of(seeds: Seq<Vec<u8>>) -> Seq<Seq<u8>> {
    Seq::new(seeds.len(), |i: int| seeds[i]@)
}

/// `seeds` derive the program address `address` under `program_id`.
pub open spec fn derives(seeds: Seq<Seq<u8>>, program_id: Seq<u8>, address: Address) -> bool {
    program_address(seeds, program_id) matches Some((bytes, _)) && bytes == address@
}

/// Derives a program address: `Pubkey::try_find_program_address`.
///
/// Trusted: that the outcome depends on the seeds and the program id alone,
/// so that it can go by the name [`program_address`]. Nothing is claimed about
/// which address that is.
#[verifier::external_body]
pub(crate) fn find_program_address(seeds: &Vec<Vec<u8>>, program_id: &Address) -> (derived: Option<
    (Address, u8),
>)
    ensures
        derived_view(derived) == program_address(seeds_of(seeds@), program_id@),
{
    let slices: Vec<&[u8]> = seeds.iter().map(|seed| seed.as_slice()).collect();
    let program = Pubkey::new_from_array(program_id.bytes);
    Pubkey::try_find_program_address(&slices, &program).map(
        |(key, bump)| (Address { bytes: key.to_bytes() }, bump),
    )
}

/// Appends one seed to a list of seeds.
pub fn push_seed(seeds: &mut Vec<Vec<u8>>, seed: &[u8])
    ensures
        seeds_of(final(seeds)@) == seeds_of(old(seeds)@).push(seed@),
{
    seeds.push(vstd::slice::slice_to_vec(seed));
    assert(seeds_of(seeds@) =~= seeds_of(old(seeds)@).push(seed@));
}

/// The program address that `seeds` derive under `program_id`, without its
/// bump seed; `None` exactly where the seeds derive none.
pub fn derive_address(seeds: &Vec<Vec<u8>>, program_id: &Address) -> (address: Option<Address>)
    ensures
        address.is_some() == program_address(seeds_of(seeds@), program_id@).is_some(),
        address matches Some(a) ==> derives(seeds_of(seeds@), program_id@, a),
{
    match find_program_address(seeds, program_id) {
        Some((address, _)) => Some(address),
        None => None,
    }
}

/// The program address derived from one seed, in the order given.
pub fn derive_1(a: &[u8], program_id: &Address) -> (address: Option<Address>)
    ensures
        address.is_some() == program_address(seq![a@], program_id@).is_some(),
        address matches Some(x) ==> derives(seq![a@], program_id@, x),
{
    let mut seeds: Vec<Vec<u8>> = Vec::new();
    push_seed(&mut seeds, a);
    assert(seeds_of(seeds@) =~= seq![a@]);
    derive_address(&seeds, program_id)
}

/// The program address derived from two seeds, in the order given.
pub fn derive_2(a: &[u8], b: &[u8], program_id: &Address) -> (address: Option<Address>)
    ensures
        address.is_some() == program_address(seq![a@, b@], program_id@).is_some(),
        address matches Some(x) ==> derives(seq![a@, b@], program_id@, x),
{
    let mut seeds: Vec<Vec<u8>> = Vec::new();
    push_seed(&mut seeds, a);
    push_seed(&mut seeds, b);
    assert(seeds_of(seeds@) =~= seq![a@, b@]);
    derive_address(&seeds, program_id)
}

/// The program address derived from three seeds, in the order given.
pub fn derive_3(a: &[u8], b: &[u8], c: &[u8], program_id: &Address) -> (address: Option<Address>)
    ensures
        address.is_some() == program_address(seq![a@, b@, c@], program_id@).is_some(),
        address matches Some(x) ==> derives(seq![a@, b@, c@], program_id@, x),
{
    let mut seeds: Vec<Vec<u8>> = Vec::new();
    push_seed(&mut seeds, a);
    push_seed(&mut seeds, b);
    push_seed(&mut seeds, c);
    assert(seeds_of(seeds@) =~= seq![a@, b@, c@]);
    derive_address(&seeds, program_id)
}

/// The program address derived from four seeds, in the order given.
pub fn derive_4(a: &[u8], b: &[u8], c: &[u8], d: &[u8], program_id: &Address) -> (address: Option<Address>)
    ensures
        address.is_some() == program_address(seq![a@, b@, c@, d@], program_id@).is_some(),
        address matches Some(x) ==> derives(seq![a@, b@, c@, d@], program_id@, x),
{
    let mut seeds: Vec<Vec<u8>> = Vec::new();
    push_seed(&mut seeds, a);
    push_seed(&mut seeds, b);
    push_seed(&mut seeds, c);
    push_seed(&mut seeds, d);
    assert(seeds_of(seeds@) =~= seq![a@, b@, c@, d@]);
    derive_address(&seeds, program_id)
}

} // verus!
