//! Intensity normalization arithmetic.
//!
//! After evaluation every cell holds a raw iteration count. Normalization
//! rescales the counts of escaped pixels against the largest escaped count
//! `m`: a count `c < iter_limit` becomes `floor(c * 256 / m)`, and saturated
//! pixels (those at the cap) become exactly `256`. Division truncates toward
//! zero, deliberately.

use vstd::prelude::*;
use vstd::arithmetic::div_mod::{
    lemma_div_is_ordered, lemma_div_multiples_vanish, lemma_div_pos_is_pos,
    lemma_multiply_divide_lt,
};

verus! {

/// No pixel escaped: every count reached the iteration cap.
pub open spec fn all_saturated(counts: Seq<u32>, iter_limit: u32) -> bool {
    forall|i: int| 0 <= i < counts.len() ==> counts[i] >= iter_limit
}

/// `m` is the largest count among the escaped (non-saturated) pixels.
pub open spec fn is_max_escaped(counts: Seq<u32>, iter_limit: u32, m: u32) -> bool {
    &&& m < iter_limit
    &&& exists|i: int| 0 <= i < counts.len() && counts[i] == m
    &&& forall|i: int| 0 <= i < counts.len() && counts[i] < iter_limit ==> counts[i] <= m
}

/// The intensity a raw count is rewritten to, given the largest escaped
/// count `m`: truncating rescale for escaped pixels, exactly `256` for
/// saturated ones.
pub open spec fn normalized_value(count: u32, m: u32, iter_limit: u32) -> int {
    if count >= iter_limit {
        256
    } else {
        (count as int * 256) / (m as int)
    }
}

/// Every normalized intensity lies in `[0, 256]`: saturated pixels are sent
/// to `256`, and an escaped count `c <= m` rescales to `c * 256 / m <= 256`.
pub proof fn lemma_intensity_in_range(count: u32, m: u32, iter_limit: u32)
    requires
        0 < m,
        count < iter_limit ==> count <= m,
    ensures
        0 <= normalized_value(count, m, iter_limit) <= 256,
{
    if count < iter_limit {
        lemma_div_pos_is_pos(count as int * 256, m as int);
        assert(count as int * 256 <= m as int * 256) by (nonlinear_arith)
            requires
                count <= m,
        ;
        lemma_div_is_ordered(count as int * 256, m as int * 256, m as int);
        lemma_div_multiples_vanish(256, m as int);
    }
}

/// Apart from the maximal escaped count itself, an intensity of `256` marks
/// exactly the saturated pixels: any escaped count strictly below the
/// maximum rescales to at most `255`.
pub proof fn lemma_full_intensity_marks_saturation(count: u32, m: u32, iter_limit: u32)
    requires
        0 < m,
        count < iter_limit ==> count <= m,
        count != m,
    ensures
        normalized_value(count, m, iter_limit) == 256 <==> count >= iter_limit,
{
    if count < iter_limit {
        assert(count as int * 256 < m as int * 256) by (nonlinear_arith)
            requires
                count < m,
        ;
        lemma_multiply_divide_lt(count as int * 256, m as int, 256);
    }
}

/// Normalization is monotonic on escaped pixels: a smaller raw count never
/// receives a larger intensity.
pub proof fn lemma_normalization_monotonic(a: u32, b: u32, m: u32, iter_limit: u32)
    requires
        0 < m,
        a < b,
        b < iter_limit,
    ensures
        normalized_value(a, m, iter_limit) <= normalized_value(b, m, iter_limit),
{
    assert(a as int * 256 <= b as int * 256);
    lemma_div_is_ordered(a as int * 256, b as int * 256, m as int);
}

/// The pixel holding the maximal escaped count rescales to exactly `256`:
/// truncating `m * 256 / m` loses nothing.
pub proof fn lemma_max_count_full_intensity(m: u32, iter_limit: u32)
    requires
        0 < m < iter_limit,
    ensures
        normalized_value(m, m, iter_limit) == 256,
{
    lemma_div_multiples_vanish(256, m as int);
}

/// Clamp a finished intensity into an 8-bit channel.
///
/// Intensities run over `[0, 256]`, one past the 8-bit maximum: `256` marks
/// the brightest pixels (saturated, and the maximal escaped count). The
/// channel has no room for it, so the top value saturates at `255` instead
/// of wrapping around to black.
pub fn intensity_to_channel(intensity: u32) -> (r: u8)
    ensures
        r as int == if intensity <= 255 {
            intensity as int
        } else {
            255
        },
{
    if intensity <= 255 {
        intensity as u8
    } else {
        255
    }
}

} // verus!
