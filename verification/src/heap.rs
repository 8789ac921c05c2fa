//! Interpolated search support for a contiguous symbol store: estimate
//! how far from the midpoint a looked-up symbol should sit, from the
//! two known endpoint symbols of the half it falls in.
use vstd::prelude::*;

verus! {

/// The estimated step from the midpoint toward the looked-up symbol,
/// interpolated linearly over whichever half has a known endpoint: the
/// low half when the minimum symbol is known, else the high half.
pub open spec fn spec_interpolation_step(
    lookup_symbol: u64,
    mid: usize,
    mid_symbol: u64,
    min_index: usize,
    min_symbol: u64,
    max_index: usize,
    max_symbol: u64,
) -> int {
    if min_symbol != 0 {
        (lookup_symbol - min_symbol) * (mid - min_index) / (mid_symbol - min_symbol)
    } else {
        (lookup_symbol - mid_symbol) * (max_index - mid) / (max_symbol - mid_symbol)
    }
}

/// Interpolate the next probe offset for a symbol from two known
/// endpoints in increasing index order. The looked-up symbol must be at
/// or above the low endpoint and the scaled offset must fit a word;
/// when the symbol also lies at or below the high endpoint, the step
/// stays inside the probed interval.
pub fn get_interpolation_step(
    lookup_symbol: u64,
    mid: usize,
    mid_symbol: u64,
    min_index: usize,
    min_symbol: u64,
    max_index: usize,
    max_symbol: u64,
) -> (r: usize)
    requires
        min_symbol != 0 ==> min_symbol <= lookup_symbol && min_symbol < mid_symbol && min_index
            <= mid,
        min_symbol == 0 ==> mid_symbol <= lookup_symbol && mid_symbol < max_symbol && mid
            <= max_index,
        (if min_symbol != 0 {
            (lookup_symbol - min_symbol) * (mid - min_index)
        } else {
            (lookup_symbol - mid_symbol) * (max_index - mid)
        }) <= u64::MAX,
    ensures
        spec_interpolation_step(
            lookup_symbol,
            mid,
            mid_symbol,
            min_index,
            min_symbol,
            max_index,
            max_symbol,
        ) <= usize::MAX ==> r == spec_interpolation_step(
            lookup_symbol,
            mid,
            mid_symbol,
            min_index,
            min_symbol,
            max_index,
            max_symbol,
        ),
        min_symbol != 0 && lookup_symbol <= mid_symbol ==> r <= mid - min_index,
        min_symbol == 0 && lookup_symbol <= max_symbol ==> r <= max_index - mid,
{
    let low: u64;
    let high: u64;
    let low_symbol: u64;
    let high_symbol: u64;

    if min_symbol != 0 {
        low = min_index as u64;
        high = mid as u64;

        low_symbol = min_symbol;
        high_symbol = mid_symbol;
    } else {
        low = mid as u64;
        high = max_index as u64;

        low_symbol = mid_symbol;
        high_symbol = max_symbol;
    }

    let numerator = (lookup_symbol - low_symbol) * (high - low);
    proof {
        vstd::arithmetic::div_mod::lemma_div_basics_5(
            numerator as int,
            (high_symbol - low_symbol) as int,
        );
        if lookup_symbol <= high_symbol {
            // Inside the interval the scaled offset is at most the
            // interval's full width.
            vstd::arithmetic::mul::lemma_mul_inequality(
                (lookup_symbol - low_symbol) as int,
                (high_symbol - low_symbol) as int,
                (high - low) as int,
            );
            vstd::arithmetic::div_mod::lemma_div_is_ordered(
                numerator as int,
                (high_symbol - low_symbol) * (high - low),
                (high_symbol - low_symbol) as int,
            );
            vstd::arithmetic::div_mod::lemma_div_by_multiple(
                (high - low) as int,
                (high_symbol - low_symbol) as int,
            );
            assert((high_symbol - low_symbol) * (high - low) == (high - low) * (high_symbol
                - low_symbol)) by (nonlinear_arith);
        }
    }
    let step = numerator / (high_symbol - low_symbol);
    #[verifier::truncate]
    (step as usize)
}

} // verus!
