//! Parameter values as integers.
//!
//! A parameter's value is a single-precision number, and the only questions
//! this crate asks of one are whether it lies in a range and which bound is
//! nearest. It therefore carries every value as its *rank*: the signed integer
//! that sorts bit patterns of IEEE-754 singles in their total order (negative
//! numbers below positive ones, larger magnitudes further from zero, `-0.0`
//! just below `+0.0`). Ranks and bit patterns correspond one to one, so a
//! value that goes in comes out with the same bits.

use vstd::prelude::*;

verus! {

/// The rank of the value with bit pattern `1.0`.
pub const RANK_ONE: i32 = 0x3f80_0000;

/// The rank of the value with bit pattern `+0.0`.
pub const RANK_ZERO: i32 = 0;

/// Whether the sign bit of `bits` is set.
pub open spec fn sign_of_bits(bits: u32) -> bool {
    bits >= 0x8000_0000
}

/// `bits` without its sign bit.
pub open spec fn magnitude_of_bits(bits: u32) -> int {
    if sign_of_bits(bits) {
        bits - 0x8000_0000
    } else {
        bits as int
    }
}

/// The rank of a bit pattern: its magnitude when the sign bit is clear, and
/// one less than the negated magnitude when it is set.
pub open spec fn rank_of_bits(bits: u32) -> int {
    if sign_of_bits(bits) {
        -1 - magnitude_of_bits(bits)
    } else {
        magnitude_of_bits(bits)
    }
}

/// The bit pattern of a rank.
pub open spec fn bits_of_rank(rank: i32) -> int {
    if rank >= 0 {
        rank as int
    } else {
        0x7fff_ffff - rank
    }
}

/// Whether `a` comes strictly before `b` when bit patterns are ordered by
/// sign first and magnitude second.
pub open spec fn precedes(a: u32, b: u32) -> bool {
    if sign_of_bits(a) != sign_of_bits(b) {
        sign_of_bits(a)
    } else if sign_of_bits(a) {
        magnitude_of_bits(a) > magnitude_of_bits(b)
    } else {
        magnitude_of_bits(a) < magnitude_of_bits(b)
    }
}

/// The rank of the value whose bit pattern is `bits`.
pub fn rank_from_bits(bits: u32) -> (rank: i32)
    ensures
        rank == rank_of_bits(bits),
        bits_of_rank(rank) == bits,
{
    if bits < 0x8000_0000 {
        bits as i32
    } else {
        let flipped: u32 = bits - 0x8000_0000;
        -1 - (flipped as i32)
    }
}

/// The bit pattern of the value whose rank is `rank`.
pub fn bits_from_rank(rank: i32) -> (bits: u32)
    ensures
        bits == bits_of_rank(rank),
        rank_of_bits(bits) == rank,
{
    if rank >= 0 {
        rank as u32
    } else {
        let magnitude: i32 = -1 - rank;
        0x8000_0000 + (magnitude as u32)
    }
}

/// Every bit pattern has a rank that fits an `i32`, and that rank leads back
/// to the same bit pattern.
pub proof fn lemma_rank_round_trip(bits: u32)
    ensures
        i32::MIN <= rank_of_bits(bits) <= i32::MAX,
        bits_of_rank(rank_of_bits(bits) as i32) == bits,
{
}

/// Every rank has a bit pattern that fits a `u32`, and that bit pattern has
/// the rank it came from.
pub proof fn lemma_bits_round_trip(rank: i32)
    ensures
        0 <= bits_of_rank(rank) <= u32::MAX,
        rank_of_bits(bits_of_rank(rank) as u32) == rank,
{
}

/// Ranks order bit patterns by sign and magnitude: `a` has the smaller rank
/// exactly when it precedes `b`, and equal ranks mean equal bits.
pub proof fn lemma_rank_orders_bits(a: u32, b: u32)
    ensures
        rank_of_bits(a) < rank_of_bits(b) <==> precedes(a, b),
        rank_of_bits(a) == rank_of_bits(b) <==> a == b,
{
}

} // verus!
