//! Conversions between the units of a currency.
//!
//! The "big" unit of a currency is the one it is quoted in; the "smol"
//! unit is its smallest representable amount. `decimals` is the number of
//! decimal places between the two: one big unit is `10^decimals` smol
//! units.

use crate::common::math::{
    div_bits, in_range, lemma_div_bits_shrinks, lemma_pow10_increases, lemma_pow10_of_19,
    mul_bits, pow10, pow10_u64, ONE_BITS,
};
use crate::zod_types::WrappedI80F48;
use vstd::prelude::*;

verus! {

/// Bits of the fixed-point number `10^decimals`.
pub open spec fn spec_scale(decimals: u32) -> int {
    pow10(decimals as nat) * ONE_BITS
}

/// The fixed-point number `10^decimals`.
fn scale(decimals: u32) -> (r: WrappedI80F48)
    requires
        decimals <= 19,
    ensures
        r@ == spec_scale(decimals),
        r@ >= ONE_BITS,
{
    proof {
        lemma_pow10_increases(decimals as nat, 19);
        lemma_pow10_of_19();
    }
    match WrappedI80F48::from_int(pow10_u64(decimals) as i128) {
        Ok(s) => s,
        Err(_) => WrappedI80F48::one(),
    }
}

/// `a` divided by `10^decimals`, a division that cannot fail.
fn scale_down(a: WrappedI80F48, decimals: u32) -> (r: WrappedI80F48)
    requires
        decimals <= 19,
    ensures
        r@ == div_bits(a@, spec_scale(decimals)),
{
    let s = scale(decimals);
    proof {
        lemma_div_bits_shrinks(a@, s@);
    }
    match a.safe_div(s) {
        Ok(q) => q,
        Err(_) => a,
    }
}

/// `a` times `10^decimals`, where the product fits.
fn scale_up(a: WrappedI80F48, decimals: u32) -> (r: WrappedI80F48)
    requires
        decimals <= 19,
        in_range(mul_bits(a@, spec_scale(decimals))),
    ensures
        r@ == mul_bits(a@, spec_scale(decimals)),
{
    match a.safe_mul(scale(decimals)) {
        Ok(p) => p,
        Err(_) => a,
    }
}

/// Converts an amount in big units to smol units: `unit * 10^decimals`.
pub fn big_to_smol(unit: WrappedI80F48, decimals: u32) -> (r: WrappedI80F48)
    requires
        decimals <= 19,
        in_range(mul_bits(unit@, spec_scale(decimals))),
    ensures
        r@ == mul_bits(unit@, spec_scale(decimals)),
{
    scale_up(unit, decimals)
}

/// Converts an amount in smol units to big units: `decimal / 10^decimals`,
/// rounded toward zero.
pub fn smol_to_big(decimal: WrappedI80F48, decimals: u32) -> (r: WrappedI80F48)
    requires
        decimals <= 19,
    ensures
        r@ == div_bits(decimal@, spec_scale(decimals)),
{
    scale_down(decimal, decimals)
}

/// Converts a price in big main units per big unit to smol main units per
/// smol unit: `big * 10^main_decimal / 10^other_decimal`.
pub fn big_price_to_smol_price(big: WrappedI80F48, main_decimal: u32, other_decimal: u32) -> (r:
    WrappedI80F48)
    requires
        main_decimal <= 19,
        other_decimal <= 19,
        in_range(mul_bits(big@, spec_scale(main_decimal))),
    ensures
        r@ == div_bits(mul_bits(big@, spec_scale(main_decimal)), spec_scale(other_decimal)),
{
    let step_one = scale_up(big, main_decimal);
    scale_down(step_one, other_decimal)
}

/// Converts a price in smol main units per smol unit to big main units
/// per big unit: `smol * 10^other_decimal / 10^main_decimal`.
pub fn smol_price_to_big_price(smol: WrappedI80F48, main_decimal: u32, other_decimal: u32) -> (r:
    WrappedI80F48)
    requires
        main_decimal <= 19,
        other_decimal <= 19,
        in_range(mul_bits(smol@, spec_scale(other_decimal))),
    ensures
        r@ == div_bits(mul_bits(smol@, spec_scale(other_decimal)), spec_scale(main_decimal)),
{
    let step_one = scale_up(smol, other_decimal);
    scale_down(step_one, main_decimal)
}

} // verus!
