//! The global protocol state, the collateral catalog it carries, and the
//! snapshot of prices and interest indices that an operation works on.

use crate::common::math::{lemma_mul_bits_fraction, ONE_BITS};
use crate::config::MAX_COLLATERALS;
use crate::errors::ZodError;
use crate::zod_types::{
    spec_safe_div, spec_safe_mul, wrap_checked, Identity, Symbol, WrappedI80F48,
};
use vstd::prelude::*;

verus! {

/// Descriptor of one asset: the debt token itself, or one collateral slot of
/// the catalog.
#[derive(Clone, Copy, Debug)]
pub struct ZodCollateralInfo {
    pub mint: Identity,
    pub oracle_symbol: Symbol,
    pub decimals: u8,
    /// Weight of the asset in valuations, in permil.
    pub weight: u16,
    /// Liquidation fee, in permil.
    pub liq_fee: u16,
    /// Borrow curve: utilisation at the kink, in permil.
    pub optimal_util: u16,
    /// Borrow curve: rate at the kink, in permil.
    pub optimal_rate: u16,
    /// Borrow curve: rate at full utilisation, in permil.
    pub max_rate: u16,
    /// Origination fee, in basis points.
    pub og_fee: u16,
    pub serum_open_orders: Identity,
}

impl ZodCollateralInfo {
    /// Whether the slot holds no asset.
    pub open spec fn spec_is_empty(self) -> bool {
        self.mint.spec_is_empty()
    }

    /// Whether the slot holds no asset: its mint is the empty identity.
    pub fn is_empty(&self) -> (r: bool)
        ensures
            r == self.spec_is_empty(),
    {
        self.mint.is_empty()
    }
}

impl Default for ZodCollateralInfo {
    fn default() -> (r: Self)
        ensures
            r.spec_is_empty(),
            r.oracle_symbol.spec_is_nil(),
            r.serum_open_orders.spec_is_empty(),
            r.decimals == 0,
            r.weight == 0,
            r.liq_fee == 0,
            r.optimal_util == 0,
            r.optimal_rate == 0,
            r.max_rate == 0,
            r.og_fee == 0,
    {
        ZodCollateralInfo {
            mint: Identity::empty(),
            oracle_symbol: Symbol::default(),
            decimals: 0,
            weight: 0,
            liq_fee: 0,
            optimal_util: 0,
            optimal_rate: 0,
            max_rate: 0,
            og_fee: 0,
            serum_open_orders: Identity::empty(),
        }
    }
}

/// What the oracle gateway answers for one symbol at the time of the
/// operation.
#[derive(Clone, Copy, Debug)]
pub struct OracleQuote {
    pub symbol: Symbol,
    /// Price in the smallest quote unit per smallest asset unit.
    pub price: WrappedI80F48,
    /// Whether the price is too old to be used.
    pub is_stale: bool,
}

/// What the interest-index gateway answers for one collateral slot.
#[derive(Clone, Copy, Debug)]
pub struct BorrowIndex {
    /// Growth factor of supplied (non-negative) balances.
    pub supply_multiplier: WrappedI80F48,
    /// Growth factor of borrowed (negative) balances.
    pub borrow_multiplier: WrappedI80F48,
}

/// Prices and interest indices, read once for a whole operation.
#[derive(Clone, Copy, Debug)]
pub struct MarketCache {
    pub oracles: [OracleQuote; 25],
    /// Index-aligned with the collateral catalog.
    pub borrow_cache: [BorrowIndex; 25],
}

impl MarketCache {
    /// Index of the first oracle entry at or after `from` that carries
    /// `symbol`.
    pub open spec fn spec_oracle_index(self, symbol: Symbol, from: int) -> Option<int>
        decreases 25 - from,
    {
        if from < 0 || from >= 25 {
            None
        } else if self.oracles[from].symbol.data == symbol.data {
            Some(from)
        } else {
            self.spec_oracle_index(symbol, from + 1)
        }
    }

    /// The first oracle entry that carries `symbol`.
    pub open spec fn spec_get_oracle(self, symbol: Symbol) -> Result<OracleQuote, ZodError> {
        match self.spec_oracle_index(symbol, 0) {
            Some(i) => Ok(self.oracles[i]),
            None => Err(ZodError::InvalidAsset),
        }
    }

    /// The first oracle entry that carries `symbol`; an unknown symbol is an
    /// invalid asset.
    pub fn get_oracle(&self, symbol: &Symbol) -> (r: Result<OracleQuote, ZodError>)
        ensures
            r == self.spec_get_oracle(*symbol),
    {
        let mut i: usize = 0;
        while i < 25
            invariant
                i <= 25,
                self.spec_oracle_index(*symbol, 0) == self.spec_oracle_index(*symbol, i as int),
            decreases 25 - i,
        {
            if self.oracles[i].symbol == *symbol {
                return Ok(self.oracles[i]);
            }
            i += 1;
        }
        Err(ZodError::InvalidAsset)
    }
}

/// The global record of the protocol.
#[derive(Clone, Copy, Debug)]
pub struct ZodState {
    pub zod_state_nonce: u8,
    pub zo_margin_nonce: u8,
    pub admin: Identity,
    pub zo_program_state: Identity,
    pub zo_program_margin: Identity,
    /// Insurance fund, in the smallest unit of the quote currency.
    pub insurance: u64,
    pub fees_accrued: [u64; 25],
    /// Number of catalog slots in use.
    pub total_collaterals: u16,
    /// Index-aligned with `collaterals`.
    pub vaults: [Identity; 25],
    /// The collateral catalog.
    pub collaterals: [ZodCollateralInfo; 25],
    pub zod_token_mint: Identity,
    /// Descriptor of the debt token.
    pub zod_token_info: ZodCollateralInfo,
    /// Factor by which every scaled debt is multiplied; starts at 1.
    pub soc_loss_multiplier: WrappedI80F48,
    /// All minted debt, scaled by `soc_loss_multiplier`.
    pub total_zod_borrowed: WrappedI80F48,
}

/// The scaled total debt after its actual amount changes by `amount`. A
/// change that would take the actual total below zero takes it to zero.
pub open spec fn spec_borrowed_after(
    total: WrappedI80F48,
    multiplier: WrappedI80F48,
    amount: WrappedI80F48,
) -> Result<WrappedI80F48, ZodError> {
    match spec_safe_mul(total, multiplier) {
        Err(e) => Err(e),
        Ok(actual) => match wrap_checked(-actual@) {
            Err(e) => Err(e),
            Ok(least) => {
                let delta = if amount@ >= least@ {
                    amount
                } else {
                    least
                };
                match wrap_checked(actual@ + delta@) {
                    Err(e) => Err(e),
                    Ok(after) => spec_safe_div(after, multiplier),
                }
            },
        },
    }
}

impl ZodState {
    /// Number of catalog slots that may be consulted.
    pub open spec fn spec_slots(self) -> int {
        if self.total_collaterals <= 25 {
            self.total_collaterals as int
        } else {
            25
        }
    }

    /// Whether `index` names a catalog slot in use that holds an asset.
    pub open spec fn spec_is_listed(self, index: int) -> bool {
        0 <= index < self.spec_slots() && !self.collaterals[index].spec_is_empty()
    }

    /// Index of the first listed slot at or after `from` whose mint is
    /// `mint`.
    pub open spec fn spec_collateral_index(self, mint: Identity, from: int) -> Option<int>
        decreases 25 - from,
    {
        if from < 0 || from >= self.spec_slots() {
            None
        } else if !self.collaterals[from].spec_is_empty() && self.collaterals[from].mint.bytes
            == mint.bytes {
            Some(from)
        } else {
            self.spec_collateral_index(mint, from + 1)
        }
    }

    /// Number of catalog slots that may be consulted: `total_collaterals`,
    /// capped at the catalog's capacity.
    pub fn slots(&self) -> (r: usize)
        ensures
            r == self.spec_slots(),
    {
        if self.total_collaterals as usize <= MAX_COLLATERALS {
            self.total_collaterals as usize
        } else {
            MAX_COLLATERALS
        }
    }

    /// Index of the first listed catalog slot whose mint is `mint`.
    pub fn get_collateral_index(&self, mint: &Identity) -> (r: Option<usize>)
        ensures
            r is Some <==> self.spec_collateral_index(*mint, 0) is Some,
            r is Some ==> r.unwrap() as int == self.spec_collateral_index(*mint, 0).unwrap(),
            r is Some ==> self.spec_is_listed(r.unwrap() as int),
    {
        let n = self.slots();
        let mut i: usize = 0;
        while i < n
            invariant
                i <= n <= 25,
                n == self.spec_slots(),
                self.spec_collateral_index(*mint, 0) == self.spec_collateral_index(
                    *mint,
                    i as int,
                ),
            decreases n - i,
        {
            if !self.collaterals[i].is_empty() && self.collaterals[i].mint == *mint {
                return Some(i);
            }
            i += 1;
        }
        None
    }

    /// The descriptor in catalog slot `index`; a slot out of use or without
    /// an asset is an invalid asset.
    pub fn collateral_at(&self, index: usize) -> (r: Result<ZodCollateralInfo, ZodError>)
        ensures
            self.spec_is_listed(index as int) ==> r == Ok::<ZodCollateralInfo, ZodError>(
                self.collaterals[index as int],
            ),
            !self.spec_is_listed(index as int) ==> r == Err::<ZodCollateralInfo, ZodError>(
                ZodError::InvalidAsset,
            ),
    {
        if index >= self.slots() {
            return Err(ZodError::InvalidAsset);
        }
        let info = self.collaterals[index];
        if info.is_empty() {
            Err(ZodError::InvalidAsset)
        } else {
            Ok(info)
        }
    }

    /// Adds the signed `amount` to the insurance fund. Taking more than
    /// the fund holds is rejected, and so is a fund beyond 64 bits.
    pub fn mutate_insurance(&mut self, amount: i64) -> (r: Result<(), ZodError>)
        ensures
            old(self).insurance + amount < 0 ==> r == Err::<(), ZodError>(
                ZodError::InsufficientInsurance,
            ) && *final(self) == *old(self),
            old(self).insurance + amount > u64::MAX ==> r == Err::<(), ZodError>(
                ZodError::ArithmeticFailure,
            ) && *final(self) == *old(self),
            0 <= old(self).insurance + amount <= u64::MAX ==> r is Ok && *final(self) == (ZodState {
                insurance: (old(self).insurance + amount) as u64,
                ..*old(self)
            }),
    {
        let after: i128 = self.insurance as i128 + amount as i128;
        if after < 0 {
            Err(ZodError::InsufficientInsurance)
        } else if after > 0xffff_ffff_ffff_ffff {
            Err(ZodError::ArithmeticFailure)
        } else {
            self.insurance = after as u64;
            Ok(())
        }
    }

    /// The multiplier after a loss of `loss` per unit of debt is
    /// socialized: `(1 - loss)` times the multiplier before.
    pub open spec fn spec_socialized(
        multiplier: WrappedI80F48,
        loss: WrappedI80F48,
    ) -> Result<WrappedI80F48, ZodError> {
        match wrap_checked(ONE_BITS - loss@) {
            Err(e) => Err(e),
            Ok(keep) => spec_safe_mul(keep, multiplier),
        }
    }

    /// Spreads a loss of `loss_per_zod_borrowed` per unit of debt over all
    /// debt: the loss multiplier is multiplied by one minus the loss. A
    /// loss between 0 and 1 never raises a multiplier that is not negative.
    pub fn socialize_loss(&mut self, loss_per_zod_borrowed: WrappedI80F48) -> (r: Result<
        (),
        ZodError,
    >)
        ensures
            match Self::spec_socialized(old(self).soc_loss_multiplier, loss_per_zod_borrowed) {
                Ok(m) => r is Ok && *final(self) == (ZodState {
                    soc_loss_multiplier: m,
                    ..*old(self)
                }),
                Err(e) => r == Err::<(), ZodError>(e) && *final(self) == *old(self),
            },
            ({
                let before = old(self).soc_loss_multiplier@;
                0 <= loss_per_zod_borrowed@ <= ONE_BITS && before >= 0
                    ==> r is Ok && 0 <= final(self).soc_loss_multiplier@ <= before
            }),
    {
        proof {
            if 0 <= loss_per_zod_borrowed@ <= ONE_BITS && self.soc_loss_multiplier@ >= 0 {
                lemma_mul_bits_fraction(
                    ONE_BITS - loss_per_zod_borrowed@,
                    self.soc_loss_multiplier@,
                );
            }
        }
        let keep = match WrappedI80F48::one().safe_sub(loss_per_zod_borrowed) {
            Ok(k) => k,
            Err(e) => {
                return Err(e);
            },
        };
        match keep.safe_mul(self.soc_loss_multiplier) {
            Ok(m) => {
                self.soc_loss_multiplier = m;
                Ok(())
            },
            Err(e) => Err(e),
        }
    }

    /// All minted debt in actual units: the scaled total times the loss
    /// multiplier.
    pub fn get_actual_zod_borrowed(&self) -> (r: Result<WrappedI80F48, ZodError>)
        ensures
            r == spec_safe_mul(self.total_zod_borrowed, self.soc_loss_multiplier),
    {
        self.total_zod_borrowed.safe_mul(self.soc_loss_multiplier)
    }

    /// Changes the total debt by the signed actual `amount`, but never
    /// below zero, and stores it rescaled by the loss multiplier.
    pub fn mutate_zod_borrowed(&mut self, amount: WrappedI80F48) -> (r: Result<(), ZodError>)
        ensures
            match spec_borrowed_after(
                old(self).total_zod_borrowed,
                old(self).soc_loss_multiplier,
                amount,
            ) {
                Ok(t) => r is Ok && *final(self) == (ZodState {
                    total_zod_borrowed: t,
                    ..*old(self)
                }),
                Err(e) => r == Err::<(), ZodError>(e) && *final(self) == *old(self),
            },
    {
        let multiplier = self.soc_loss_multiplier;
        let actual = match self.total_zod_borrowed.safe_mul(multiplier) {
            Ok(v) => v,
            Err(e) => {
                return Err(e);
            },
        };
        let least = match actual.safe_neg() {
            Ok(v) => v,
            Err(e) => {
                return Err(e);
            },
        };
        let after = match actual.safe_add(amount.max(least)) {
            Ok(v) => v,
            Err(e) => {
                return Err(e);
            },
        };
        match after.safe_div(multiplier) {
            Ok(t) => {
                self.total_zod_borrowed = t;
                Ok(())
            },
            Err(e) => Err(e),
        }
    }

    /// The vault of each catalog slot.
    pub fn vaults(&self) -> (r: [Identity; 25])
        ensures
            r == self.vaults,
    {
        self.vaults
    }
}

} // verus!
