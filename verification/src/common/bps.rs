//! Basis points.

use crate::common::math::{lemma_div_bits_shrinks, ONE_BITS};
use crate::zod_types::WrappedI80F48;
use vstd::prelude::*;

verus! {

/// The fraction that `bps` basis points stand for: `bps / 10000`, rounded
/// down to a multiple of 2^-48.
pub fn get_bps(bps: u16) -> (r: WrappedI80F48)
    ensures
        r@ == (bps * ONE_BITS) / 10_000,
{
    let n = WrappedI80F48::from_int(bps as i128);
    let d = WrappedI80F48::from_int(10_000);
    match (n, d) {
        (Ok(n), Ok(d)) => {
            proof {
                lemma_div_bits_shrinks(n@, d@);
            }
            match n.safe_div(d) {
                Ok(f) => f,
                Err(_) => WrappedI80F48::zero(),
            }
        },
        _ => WrappedI80F48::zero(),
    }
}

} // verus!
