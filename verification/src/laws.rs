//! What holds of the operations on value types, whatever the type.
//!
//! Each statement is over the shapes that the operations' contracts speak
//! of, so it applies to what the operations return.
use vstd::prelude::*;
use vstd::arithmetic::power2::{pow2, lemma2_to64, lemma_pow2_strictly_increases};
use crate::shape::{Family, is_lane_count, exact_log2};
use crate::types::Type;

verus! {

/// The lane type of a lane type is that lane type.
pub proof fn lemma_lane_type_idempotent(t: Type)
    requires
        t.wf(),
    ensures
        t@.lane().lane() == t@.lane(),
        t@.lane().wf(),
{
}

/// A type is scalar exactly when it has one lane, and exactly when it is its
/// own lane type.
pub proof fn lemma_scalar_has_one_lane(t: Type)
    requires
        t.wf(),
    ensures
        t@.is_scalar() <==> t@.lanes == 1,
        t@.is_scalar() <==> t@.log2_lanes() == 0,
        t@.is_scalar() <==> t@.lane() == t@,
{
}

/// The total width of a type is the width of a lane times the number of
/// lanes, and at most 16384 bits.
pub proof fn lemma_bits(t: Type)
    requires
        t.wf(),
    ensures
        t@.bits() == t@.lane_bits * t@.lanes,
        t@.bits() <= 16384,
        t@.family == Family::Void <==> t@.bits() == 0,
{
    assert(t@.lane_bits * t@.lanes <= 64 * 256) by (nonlinear_arith)
        requires
            t@.lane_bits <= 64,
            t@.lanes <= 256,
    ;
    assert(t@.lane_bits > 0 ==> t@.lane_bits * t@.lanes > 0) by (nonlinear_arith)
        requires
            t@.lanes >= 1,
    ;
}

/// The width of a lane is two to the power of its logarithm, and the number
/// of lanes is two to the power of its logarithm.
pub proof fn lemma_logarithms(t: Type)
    requires
        t.wf(),
    ensures
        t@.family != Family::Void ==> t@.lane_bits == pow2(t@.log2_lane_bits()),
        t@.lanes == pow2(t@.log2_lanes()),
        t@.log2_lane_bits() <= 6,
        t@.log2_lanes() <= 8,
{
    lemma2_to64();
}

/// Where a type has a half-width type, doubling the width of that type
/// gives the first type back.
pub proof fn lemma_half_then_double_width(t: Type)
    requires
        t.wf(),
        t@.half_width() is Some,
    ensures
        t@.half_width().unwrap().wf(),
        t@.half_width().unwrap().double_width() == Some(t@),
{
}

/// Where a type has a double-width type, halving the width of that type
/// gives the first type back.
pub proof fn lemma_double_then_half_width(t: Type)
    requires
        t.wf(),
        t@.double_width() is Some,
    ensures
        t@.double_width().unwrap().wf(),
        t@.double_width().unwrap().half_width() == Some(t@),
{
}

/// In the packed code, the next wider lane type of a family is one more, and
/// the next narrower one is one less.
pub proof fn lemma_width_steps_code(t: Type)
    requires
        t.wf(),
    ensures
        t@.double_width() is Some ==> t@.double_width().unwrap().code() == t@.code() + 1,
        t@.half_width() is Some ==> t@.half_width().unwrap().code() == t@.code() - 1,
{
}

/// The lane counts are the powers of two up to 256.
pub proof fn lemma_lane_counts_are_powers_of_two(n: nat)
    ensures
        is_lane_count(n) <==> n <= 256 && exists|k: nat| n == pow2(k),
        is_lane_count(n) ==> n == pow2(exact_log2(n)),
{
    lemma2_to64();
    if is_lane_count(n) {
        assert(n == pow2(exact_log2(n)));
    }
    if n <= 256 && exists|k: nat| n == pow2(k) {
        let k = choose|k: nat| n == pow2(k);
        if k > 8 {
            lemma_pow2_strictly_increases(8, k);
        }
    }
}

/// Multiplying the lanes of a type that is not void by a power of two gives
/// a type, as long as it has at most 256 lanes.
pub proof fn lemma_times_succeeds(t: Type, n: nat)
    requires
        t.wf(),
        t@.family != Family::Void,
        exists|k: nat| n == pow2(k),
        t@.lanes * n <= 256,
    ensures
        t@.times(n) is Some,
        t@.times(n).unwrap().wf(),
        t@.times(n).unwrap().lane() == t@.lane(),
        t@.times(n).unwrap().lanes == t@.lanes * n,
{
    assert(n <= t@.lanes * n) by (nonlinear_arith)
        requires
            t@.lanes >= 1,
    ;
    lemma_lane_counts_are_powers_of_two(n);
}

/// Multiplying the lanes by one changes nothing.
pub proof fn lemma_times_one(t: Type)
    requires
        t.wf(),
        t@.family != Family::Void,
    ensures
        t@.times(1) == Some(t@),
{
}

/// Halving a vector that was made by multiplying the lanes by `n` gives what
/// multiplying them by half of `n` gives.
pub proof fn lemma_times_then_half_vector(t: Type, n: nat)
    requires
        t.wf(),
        n >= 2,
        t@.times(n) is Some,
    ensures
        t@.times(n).unwrap().half_vector() == t@.times(n / 2),
        t@.times(n / 2) is Some,
{
}

/// In the packed code, multiplying the lanes by `n` adds sixteen times the
/// logarithm of `n`; so doubling the lanes adds sixteen, and halving them
/// takes sixteen away.
pub proof fn lemma_lane_steps_code(t: Type, n: nat)
    requires
        t.wf(),
    ensures
        t@.times(n) is Some ==> t@.times(n).unwrap().code() == t@.code() + 16 * exact_log2(n),
        t@.half_vector() is Some ==> t@.half_vector().unwrap().code() == t@.code() - 16,
{
}

/// The boolean type of a type has the same lanes, and is its own boolean
/// type.
pub proof fn lemma_as_bool(t: Type)
    requires
        t.wf(),
    ensures
        t@.as_bool_pedantic().wf(),
        t@.as_bool_pedantic().family == Family::Bool,
        t@.as_bool_pedantic().lanes == t@.lanes,
        t@.family != Family::Void ==> t@.as_bool_pedantic().lane_bits == t@.lane_bits,
        t@.family == Family::Bool ==> t@.as_bool_pedantic() == t@,
        t@.as_bool_pedantic().as_bool_pedantic() == t@.as_bool_pedantic(),
        t@.as_bool().wf(),
        t@.as_bool().lanes == t@.lanes,
        t@.as_bool().as_bool() == t@.as_bool(),
{
}

} // verus!
