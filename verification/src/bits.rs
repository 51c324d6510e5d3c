//! Bytes read as a sequence of bits, least significant bit of each byte first.
//!
//! The spec functions here fix what "bit `i` of a byte buffer" means. The three
//! executable functions at the end hand the work to the `bitvec` crate; what they
//! promise is taken on trust from that crate and is not proved here.

use bitvec::order::Lsb0;
use bitvec::view::BitView;
use vstd::prelude::*;
use vstd::set_lib::*;

verus! {

/// Whether bit `k` of `byte` is 1, counting from the least significant bit.
pub open spec fn byte_bit(byte: u8, k: int) -> bool
    recommends
        0 <= k < 8,
{
    (byte >> (k as u8)) & 1u8 == 1u8
}

/// `byte` with bit `k` forced to `value`, the other seven bits untouched.
pub open spec fn byte_with_bit(byte: u8, k: int, value: bool) -> u8
    recommends
        0 <= k < 8,
{
    if value {
        byte | (1u8 << (k as u8))
    } else {
        byte & !(1u8 << (k as u8))
    }
}

/// Bit `i` of a byte buffer: byte `i / 8` holds it at position `i % 8`.
pub open spec fn bit_at(bytes: Seq<u8>, i: int) -> bool
    recommends
        0 <= i < 8 * bytes.len(),
{
    byte_bit(bytes[i / 8], i % 8)
}

/// The buffer read as bits: eight per byte, in index order.
pub open spec fn bits_of(bytes: Seq<u8>) -> Seq<bool> {
    Seq::new(8 * bytes.len(), |i: int| bit_at(bytes, i))
}

/// The buffer after bit `i` has been written with `value`.
pub open spec fn with_bit(bytes: Seq<u8>, i: int, value: bool) -> Seq<u8>
    recommends
        0 <= i < 8 * bytes.len(),
{
    bytes.update(i / 8, byte_with_bit(bytes[i / 8], i % 8, value))
}

/// The positions of the bits that are 1.
pub open spec fn ones(bytes: Seq<u8>) -> Set<int> {
    Set::new(|i: int| 0 <= i < 8 * bytes.len() && bit_at(bytes, i))
}

/// Whether a buffer of `len` bytes is short enough to be addressed by bit:
/// every bit index, times eight again, still fits in a `usize`.
pub open spec fn addressable(len: nat) -> bool {
    64 * len <= usize::MAX
}

/// Writing bit `k` of a byte gives that bit the new value and leaves bit `j`
/// alone.
proof fn lemma_byte_write(byte: u8, k: u8, j: u8)
    by (bit_vector)
    requires
        k < 8,
        j < 8,
    ensures
        ((byte | (1u8 << k)) >> k) & 1u8 == 1u8,
        ((byte & !(1u8 << k)) >> k) & 1u8 != 1u8,
        j != k ==> ((byte | (1u8 << k)) >> j) & 1u8 == (byte >> j) & 1u8,
        j != k ==> ((byte & !(1u8 << k)) >> j) & 1u8 == (byte >> j) & 1u8,
{
}

/// No bit of the zero byte is 1.
proof fn lemma_zero_byte(k: u8)
    by (bit_vector)
    requires
        k < 8,
    ensures
        (0u8 >> k) & 1u8 != 1u8,
{
}

/// [`byte_with_bit`] changes bit `k` to `value` and no other bit.
pub proof fn lemma_byte_with_bit(byte: u8, k: int, value: bool, j: int)
    requires
        0 <= k < 8,
        0 <= j < 8,
    ensures
        byte_bit(byte_with_bit(byte, k, value), j) == (if j == k {
            value
        } else {
            byte_bit(byte, j)
        }),
{
    lemma_byte_write(byte, k as u8, j as u8);
}

/// Read as bits, [`with_bit`] is an update of one position.
pub proof fn lemma_with_bit(bytes: Seq<u8>, i: int, value: bool)
    requires
        0 <= i < 8 * bytes.len(),
    ensures
        with_bit(bytes, i, value).len() == bytes.len(),
        bits_of(with_bit(bytes, i, value)) == bits_of(bytes).update(i, value),
{
    let after = with_bit(bytes, i, value);
    assert forall|j: int| 0 <= j < 8 * bytes.len() implies bit_at(after, j) == (if j == i {
        value
    } else {
        bit_at(bytes, j)
    }) by {
        if j / 8 == i / 8 {
            lemma_byte_with_bit(bytes[i / 8], i % 8, value, j % 8);
        }
    }
    assert(bits_of(after) =~= bits_of(bytes).update(i, value));
}

/// Appending zero bytes appends unset bits and disturbs none of the old ones.
pub proof fn lemma_append_zeros(bytes: Seq<u8>, extra: Seq<u8>)
    requires
        forall|k: int| 0 <= k < extra.len() ==> extra[k] == 0u8,
    ensures
        bits_of(bytes + extra) == bits_of(bytes) + Seq::new(8 * extra.len(), |i: int| false),
        ones(bytes + extra) == ones(bytes),
{
    let grown = bytes + extra;
    assert forall|i: int| 0 <= i < 8 * grown.len() implies bit_at(grown, i) == (i < 8
        * bytes.len() && bit_at(bytes, i)) by {
        if i >= 8 * bytes.len() {
            assert(grown[i / 8] == extra[i / 8 - bytes.len()]);
            lemma_zero_byte((i % 8) as u8);
        }
    }
    assert(bits_of(grown) =~= bits_of(bytes) + Seq::new(8 * extra.len(), |i: int| false));
    assert(ones(grown) =~= ones(bytes));
}

/// The set of 1 bits is finite and no larger than the number of bits.
pub proof fn lemma_ones_bounded(bytes: Seq<u8>)
    ensures
        ones(bytes).finite(),
        ones(bytes).len() <= 8 * bytes.len(),
{
    let all = set_int_range(0, 8 * bytes.len() as int);
    lemma_int_range(0, 8 * bytes.len() as int);
    assert(ones(bytes).subset_of(all));
    lemma_len_subset(ones(bytes), all);
}

/// Reads one bit through `bitvec`: `BitSlice::get` on the `Lsb0` view of `bytes`.
///
/// Trusted: that an index below the bit length yields the bit that [`bit_at`]
/// names, and that any other index yields `None`.
#[verifier::external_body]
pub(crate) fn get_bit(bytes: &[u8], index: usize) -> (bit: Option<bool>)
    requires
        addressable(bytes@.len()),
    ensures
        index < 8 * bytes@.len() ==> bit == Some(bit_at(bytes@, index as int)),
        index >= 8 * bytes@.len() ==> bit.is_none(),
{
    bytes.view_bits::<Lsb0>().get(index).as_deref().copied()
}

/// Writes one bit through `bitvec`: `BitSlice::set` on the `Lsb0` view of `bytes`.
///
/// Trusted: that exactly bit `index` takes the value `value`, as [`with_bit`]
/// says, and that the buffer keeps its length.
#[verifier::external_body]
pub(crate) fn set_bit(bytes: &mut Vec<u8>, index: usize, value: bool)
    requires
        addressable(old(bytes)@.len()),
        index < 8 * old(bytes)@.len(),
    ensures
        final(bytes)@ == with_bit(old(bytes)@, index as int, value),
{
    bytes.view_bits_mut::<Lsb0>().set(index, value);
}

/// Counts the bits that are 1 through `bitvec`: `BitSlice::count_ones` on the
/// `Lsb0` view of `bytes`.
///
/// Trusted: that the count is the size of [`ones`].
#[verifier::external_body]
pub(crate) fn count_ones(bytes: &[u8]) -> (count: usize)
    requires
        addressable(bytes@.len()),
    ensures
        count == ones(bytes@).len(),
{
    bytes.view_bits::<Lsb0>().count_ones()
}

} // verus!
