//! Creation of the protocol state.

use crate::state::state::{ZodCollateralInfo, ZodState};
use crate::zod_types::{Identity, Symbol, WrappedI80F48};
use crate::common::math::ONE_BITS;
use vstd::prelude::*;

verus! {

/// The bytes of the debt token's oracle symbol, "ZOD".
pub open spec fn spec_zod_symbol() -> Seq<u8> {
    seq![90u8, 79u8, 68u8]
}

/// Whether `info` is the descriptor that the debt token of mint `mint`
/// starts with.
pub open spec fn spec_is_zod_token_info(info: ZodCollateralInfo, mint: Identity) -> bool {
    &&& info.mint == mint
    &&& info.oracle_symbol.spells(spec_zod_symbol())
    &&& info.decimals == 6
    &&& info.weight == 900
    &&& info.liq_fee == 20
    &&& info.optimal_util == 700
    &&& info.optimal_rate == 100
    &&& info.max_rate == 1000
    &&& info.og_fee == 10
    &&& info.serum_open_orders.spec_is_empty()
}

/// The protocol state at its creation: an empty insurance fund, no debt, a
/// loss multiplier of 1, an empty catalog of 25 slots in use, and the
/// descriptor of the debt token of mint `mint`.
pub fn process(
    zod_state_nonce: u8,
    zo_margin_nonce: u8,
    admin: Identity,
    zo_program_state: Identity,
    zo_program_margin: Identity,
    mint: Identity,
) -> (r: ZodState)
    ensures
        r.zod_state_nonce == zod_state_nonce,
        r.zo_margin_nonce == zo_margin_nonce,
        r.admin == admin,
        r.zo_program_state == zo_program_state,
        r.zo_program_margin == zo_program_margin,
        r.insurance == 0,
        r.total_collaterals == 25,
        r.total_zod_borrowed@ == 0,
        r.soc_loss_multiplier@ == ONE_BITS,
        r.zod_token_mint.spec_is_empty(),
        spec_is_zod_token_info(r.zod_token_info, mint),
        forall|i: int| 0 <= i < 25 ==> r.fees_accrued[i] == 0,
        forall|i: int| 0 <= i < 25 ==> (#[trigger] r.vaults[i]).spec_is_empty(),
        forall|i: int| 0 <= i < 25 ==> (#[trigger] r.collaterals[i]).spec_is_empty(),
{
    let name: [u8; 3] = [90u8, 79u8, 68u8];
    let oracle_symbol = match Symbol::from_bytes(name.as_slice()) {
        Some(symbol) => symbol,
        None => Symbol::default(),
    };
    let weight: u16 = 900;
    let optimal_util: u16 = 700;
    let optimal_rate: u16 = 100;
    let max_rate: u16 = 1000;
    let liq_fee: u16 = 20;
    let og_fee: u16 = 10;
    let decimals: u8 = 6;
    ZodState {
        zod_state_nonce,
        zo_margin_nonce,
        admin,
        zo_program_state,
        zo_program_margin,
        insurance: 0,
        fees_accrued: [0u64; 25],
        total_collaterals: 25,
        vaults: [Identity::empty(); 25],
        collaterals: [ZodCollateralInfo::default(); 25],
        zod_token_mint: Identity::empty(),
        zod_token_info: ZodCollateralInfo {
            mint,
            decimals,
            weight,
            oracle_symbol,
            optimal_util,
            optimal_rate,
            max_rate,
            liq_fee,
            serum_open_orders: Identity::empty(),
            og_fee,
        },
        soc_loss_multiplier: WrappedI80F48::one(),
        total_zod_borrowed: WrappedI80F48::zero(),
    }
}

} // verus!
