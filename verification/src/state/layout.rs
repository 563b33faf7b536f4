//! The fixed-size binary form of the persistent records.
//!
//! A record is stored as its fields in declaration order, without padding:
//! integers little-endian, fixed-point numbers as their 128 raw bits in
//! two's complement, identities and symbols as their bytes.

use crate::state::margin::ZodMargin;
use crate::state::state::{ZodCollateralInfo, ZodState};
use crate::zod_types::{Identity, Symbol, WrappedI80F48};
use vstd::bytes::{
    lemma_auto_spec_u128_to_from_le_bytes, lemma_auto_spec_u16_to_from_le_bytes,
    lemma_auto_spec_u64_to_from_le_bytes, spec_u128_from_le_bytes, spec_u128_to_le_bytes,
    spec_u16_from_le_bytes, spec_u16_to_le_bytes, spec_u64_from_le_bytes, spec_u64_to_le_bytes,
    u128_from_le_bytes, u128_to_le_bytes, u16_from_le_bytes, u16_to_le_bytes, u64_from_le_bytes,
    u64_to_le_bytes,
};
use vstd::prelude::*;
use vstd::slice::slice_subrange;

verus! {

/// Number of bytes of a stored margin account.
pub const MARGIN_SIZE: usize = 481;

/// Offset of the first collateral balance in a stored margin account.
pub const MARGIN_COLLATERAL_AT: usize = 33;

/// Offset of the token account in a stored margin account.
pub const MARGIN_TOKEN_ACCOUNT_AT: usize = 433;

/// Offset of the debt in a stored margin account.
pub const MARGIN_DEBT_AT: usize = 465;

/// The 128 bits of `x` in two's complement, read as an unsigned number.
pub open spec fn spec_unsigned(x: i128) -> u128 {
    if x >= 0 {
        x as u128
    } else {
        (x + 0x1_0000_0000_0000_0000_0000_0000_0000_0000) as u128
    }
}

/// The signed number whose two's complement is `u`.
pub open spec fn spec_signed(u: u128) -> i128 {
    if u < 0x8000_0000_0000_0000_0000_0000_0000_0000 {
        u as i128
    } else {
        (u - 0x1_0000_0000_0000_0000_0000_0000_0000_0000) as i128
    }
}

/// The 16 bytes that a fixed-point number is stored as.
pub open spec fn spec_number_bytes(x: WrappedI80F48) -> Seq<u8> {
    spec_u128_to_le_bytes(spec_unsigned(x.data))
}

/// The fixed-point number that 16 bytes store.
pub open spec fn spec_number_from(s: Seq<u8>) -> WrappedI80F48 {
    WrappedI80F48 { data: spec_signed(spec_u128_from_le_bytes(s)) }
}

/// Storing a number and reading it back gives the number, and reading 16
/// bytes and storing the number gives the bytes.
pub proof fn lemma_number_bytes_round_trip()
    ensures
        forall|x: WrappedI80F48|
            (#[trigger] spec_number_bytes(x)).len() == 16 && spec_number_from(spec_number_bytes(x))
                == x,
        forall|s: Seq<u8>| s.len() == 16 ==> #[trigger] spec_number_bytes(spec_number_from(s)) == s,
{
    lemma_auto_spec_u128_to_from_le_bytes();
    assert forall|x: WrappedI80F48|
        (#[trigger] spec_number_bytes(x)).len() == 16 && spec_number_from(spec_number_bytes(x))
            == x by {
        let u = spec_unsigned(x.data);
        assert(spec_u128_to_le_bytes(u).len() == 16);
        assert(spec_u128_from_le_bytes(spec_u128_to_le_bytes(u)) == u);
        assert(spec_signed(u) == x.data);
    }
    assert forall|s: Seq<u8>| s.len() == 16 implies #[trigger] spec_number_bytes(
        spec_number_from(s),
    ) == s by {
        let u = spec_u128_from_le_bytes(s);
        assert(spec_unsigned(spec_signed(u)) == u);
    }
}

/// Whether `s` is the stored form of the margin account `m`.
pub open spec fn spec_margin_layout(s: Seq<u8>, m: ZodMargin) -> bool {
    &&& s.len() == MARGIN_SIZE
    &&& s[0] == m.nonce
    &&& s.subrange(1, 33) == m.authority.bytes@
    &&& forall|k: int|
        0 <= k < 25 ==> #[trigger] s.subrange(33 + 16 * k, 49 + 16 * k) == spec_number_bytes(
            m.collateral[k],
        )
    &&& s.subrange(433, 465) == m.zod_token_account.bytes@
    &&& s.subrange(465, 481) == spec_number_bytes(m.zod_balance)
}

/// Appends `bytes` to `out`.
fn put_bytes(out: &mut Vec<u8>, bytes: &[u8])
    ensures
        final(out)@ == old(out)@ + bytes@,
{
    let mut i: usize = 0;
    while i < bytes.len()
        invariant
            i <= bytes@.len(),
            out@ == old(out)@ + bytes@.subrange(0, i as int),
        decreases bytes@.len() - i,
    {
        out.push(bytes[i]);
        i += 1;
        assert(out@ =~= old(out)@ + bytes@.subrange(0, i as int));
    }
    assert(bytes@.subrange(0, bytes@.len() as int) =~= bytes@);
}

/// Appends the 16 bytes of a fixed-point number to `out`.
fn put_number(out: &mut Vec<u8>, x: WrappedI80F48)
    ensures
        final(out)@ == old(out)@ + spec_number_bytes(x),
        final(out)@.len() == old(out)@.len() + 16,
{
    let u: u128 = if x.data >= 0 {
        x.data as u128
    } else {
        ((x.data - i128::MIN) as u128) + 0x8000_0000_0000_0000_0000_0000_0000_0000
    };
    let bytes = u128_to_le_bytes(u);
    put_bytes(out, bytes.as_slice());
}

/// The fixed-point number stored in the 16 bytes of `bytes` from `at`.
fn get_number(bytes: &[u8], at: usize) -> (r: WrappedI80F48)
    requires
        at + 16 <= bytes@.len(),
    ensures
        r == spec_number_from(bytes@.subrange(at as int, at + 16)),
{
    let len = bytes.len();
    assert(at + 16 <= len);
    let u = u128_from_le_bytes(slice_subrange(bytes, at, at + 16));
    let data: i128 = if u < 0x8000_0000_0000_0000_0000_0000_0000_0000 {
        u as i128
    } else {
        ((u - 0x8000_0000_0000_0000_0000_0000_0000_0000) as i128) + i128::MIN
    };
    WrappedI80F48 { data }
}

/// The identity stored in the 32 bytes of `bytes` from `at`.
fn get_identity(bytes: &[u8], at: usize) -> (r: Identity)
    requires
        at + 32 <= bytes@.len(),
    ensures
        r.bytes@ == bytes@.subrange(at as int, at + 32),
{
    let len = bytes.len();
    let mut id = [0u8; 32];
    let mut i: usize = 0;
    while i < 32
        invariant
            i <= 32,
            at + 32 <= bytes@.len() == len,
            forall|j: int| 0 <= j < i ==> id[j] == bytes@[at + j],
        decreases 32 - i,
    {
        id[i] = bytes[at + i];
        i += 1;
    }
    assert(id@ =~= bytes@.subrange(at as int, at + 32));
    Identity { bytes: id }
}

/// The stored form of a margin account: 481 bytes.
pub fn encode_margin(m: &ZodMargin) -> (r: Vec<u8>)
    ensures
        spec_margin_layout(r@, *m),
{
    let mut out: Vec<u8> = Vec::new();
    out.push(m.nonce);
    put_bytes(&mut out, m.authority.bytes.as_slice());
    assert(out@.subrange(1, 33) =~= m.authority.bytes@);
    let mut k: usize = 0;
    while k < 25
        invariant
            k <= 25,
            out@.len() == 33 + 16 * k,
            out@[0] == m.nonce,
            out@.subrange(1, 33) == m.authority.bytes@,
            forall|j: int|
                0 <= j < k ==> #[trigger] out@.subrange(33 + 16 * j, 49 + 16 * j)
                    == spec_number_bytes(m.collateral[j]),
        decreases 25 - k,
    {
        let ghost before = out@;
        put_number(&mut out, m.collateral[k]);
        proof {
            assert(out@.subrange(1, 33) =~= before.subrange(1, 33));
            assert(out@.subrange(33 + 16 * k, 49 + 16 * k) =~= spec_number_bytes(
                m.collateral[k as int],
            ));
            assert forall|j: int| 0 <= j < k implies #[trigger] out@.subrange(
                33 + 16 * j,
                49 + 16 * j,
            ) == spec_number_bytes(m.collateral[j]) by {
                assert(out@.subrange(33 + 16 * j, 49 + 16 * j) =~= before.subrange(
                    33 + 16 * j,
                    49 + 16 * j,
                ));
            }
        }
        k += 1;
    }
    let ghost balances = out@;
    put_bytes(&mut out, m.zod_token_account.bytes.as_slice());
    let ghost with_account = out@;
    put_number(&mut out, m.zod_balance);
    proof {
        assert(out@.subrange(1, 33) =~= balances.subrange(1, 33));
        assert(out@.subrange(433, 465) =~= m.zod_token_account.bytes@);
        assert(out@.subrange(465, 481) =~= spec_number_bytes(m.zod_balance));
        assert forall|j: int| 0 <= j < 25 implies #[trigger] out@.subrange(
            33 + 16 * j,
            49 + 16 * j,
        ) == spec_number_bytes(m.collateral[j]) by {
            assert(out@.subrange(33 + 16 * j, 49 + 16 * j) =~= balances.subrange(
                33 + 16 * j,
                49 + 16 * j,
            ));
        }
    }
    out
}

/// The margin account that `bytes` store; there is none unless `bytes` has
/// the size of a stored margin account.
pub fn decode_margin(bytes: &[u8]) -> (r: Option<ZodMargin>)
    ensures
        bytes@.len() != MARGIN_SIZE ==> r is None,
        bytes@.len() == MARGIN_SIZE ==> r is Some && spec_margin_layout(bytes@, r.unwrap()),
{
    if bytes.len() != MARGIN_SIZE {
        return None;
    }
    proof {
        lemma_number_bytes_round_trip();
    }
    let nonce = bytes[0];
    let authority = get_identity(bytes, 1);
    let mut collateral = [WrappedI80F48::zero(); 25];
    let mut k: usize = 0;
    while k < 25
        invariant
            k <= 25,
            bytes@.len() == MARGIN_SIZE,
            forall|j: int|
                0 <= j < k ==> collateral[j] == spec_number_from(
                    #[trigger] bytes@.subrange(33 + 16 * j, 49 + 16 * j),
                ),
        decreases 25 - k,
    {
        collateral[k] = get_number(bytes, MARGIN_COLLATERAL_AT + 16 * k);
        k += 1;
    }
    let zod_token_account = get_identity(bytes, MARGIN_TOKEN_ACCOUNT_AT);
    let zod_balance = get_number(bytes, MARGIN_DEBT_AT);
    Some(ZodMargin { nonce, authority, collateral, zod_token_account, zod_balance })
}

/// A stored margin account stores one margin account only.
pub proof fn theorem_margin_layout_determines_account(s: Seq<u8>, a: ZodMargin, b: ZodMargin)
    requires
        spec_margin_layout(s, a),
        spec_margin_layout(s, b),
    ensures
        a == b,
{
    lemma_number_bytes_round_trip();
    assert(a.authority.bytes =~= b.authority.bytes);
    assert(a.zod_token_account.bytes =~= b.zod_token_account.bytes);
    assert forall|k: int| 0 <= k < 25 implies a.collateral[k] == b.collateral[k] by {
        let sub = s.subrange(33 + 16 * k, 49 + 16 * k);
        assert(spec_number_from(spec_number_bytes(a.collateral[k])) == a.collateral[k]);
        assert(spec_number_from(spec_number_bytes(b.collateral[k])) == b.collateral[k]);
    }
    assert(a.collateral =~= b.collateral);
    assert(spec_number_from(spec_number_bytes(a.zod_balance)) == a.zod_balance);
    assert(spec_number_from(spec_number_bytes(b.zod_balance)) == b.zod_balance);
}

/// A margin account is stored in one way only.
pub proof fn theorem_margin_layout_determines_bytes(s: Seq<u8>, t: Seq<u8>, m: ZodMargin)
    requires
        spec_margin_layout(s, m),
        spec_margin_layout(t, m),
    ensures
        s == t,
{
    assert forall|i: int| 0 <= i < 481 implies s[i] == t[i] by {
        if 1 <= i < 33 {
            assert(s[i] == s.subrange(1, 33)[i - 1]);
            assert(t[i] == t.subrange(1, 33)[i - 1]);
        } else if 33 <= i < 433 {
            let k = (i - 33) / 16;
            assert(s[i] == s.subrange(33 + 16 * k, 49 + 16 * k)[i - 33 - 16 * k]);
            assert(t[i] == t.subrange(33 + 16 * k, 49 + 16 * k)[i - 33 - 16 * k]);
        } else if 433 <= i < 465 {
            assert(s[i] == s.subrange(433, 465)[i - 433]);
            assert(t[i] == t.subrange(433, 465)[i - 433]);
        } else if 465 <= i {
            assert(s[i] == s.subrange(465, 481)[i - 465]);
            assert(t[i] == t.subrange(465, 481)[i - 465]);
        }
    }
    assert(s =~= t);
}

/// Number of bytes of a stored asset descriptor.
pub const INFO_SIZE: usize = 101;

/// Number of bytes of a stored protocol state.
pub const STATE_SIZE: usize = 1273;

/// Offset of the accrued fees in a stored protocol state.
pub const STATE_FEES_AT: usize = 106;

/// Offset of the vaults in a stored protocol state.
pub const STATE_VAULTS_AT: usize = 308;

/// Offset of the debt token's descriptor in a stored protocol state.
pub const STATE_TOKEN_INFO_AT: usize = 1140;

/// The 101 bytes that an asset descriptor is stored as: its fields in
/// order, the permil and basis-point fields as two bytes each.
pub open spec fn spec_info_bytes(info: ZodCollateralInfo) -> Seq<u8> {
    info.mint.bytes@ + info.oracle_symbol.data@ + seq![info.decimals] + spec_u16_to_le_bytes(
        info.weight,
    ) + spec_u16_to_le_bytes(info.liq_fee) + spec_u16_to_le_bytes(info.optimal_util)
        + spec_u16_to_le_bytes(info.optimal_rate) + spec_u16_to_le_bytes(info.max_rate)
        + spec_u16_to_le_bytes(info.og_fee) + info.serum_open_orders.bytes@
}

/// Whether `s` is the stored form of the protocol state `state`. The
/// collateral catalog is no part of it.
pub open spec fn spec_state_layout(s: Seq<u8>, state: ZodState) -> bool {
    &&& s.len() == STATE_SIZE
    &&& s[0] == state.zod_state_nonce
    &&& s[1] == state.zo_margin_nonce
    &&& s.subrange(2, 34) == state.admin.bytes@
    &&& s.subrange(34, 66) == state.zo_program_state.bytes@
    &&& s.subrange(66, 98) == state.zo_program_margin.bytes@
    &&& s.subrange(98, 106) == spec_u64_to_le_bytes(state.insurance)
    &&& forall|k: int|
        0 <= k < 25 ==> #[trigger] s.subrange(106 + 8 * k, 114 + 8 * k) == spec_u64_to_le_bytes(
            state.fees_accrued[k],
        )
    &&& s.subrange(306, 308) == spec_u16_to_le_bytes(state.total_collaterals)
    &&& forall|k: int|
        0 <= k < 25 ==> #[trigger] s.subrange(308 + 32 * k, 340 + 32 * k) == state.vaults[k].bytes@
    &&& s.subrange(1108, 1140) == state.zod_token_mint.bytes@
    &&& s.subrange(1140, 1241) == spec_info_bytes(state.zod_token_info)
    &&& s.subrange(1241, 1257) == spec_number_bytes(state.soc_loss_multiplier)
    &&& s.subrange(1257, 1273) == spec_number_bytes(state.total_zod_borrowed)
}

/// Appends the 2 bytes of `x` to `out`.
fn put_u16(out: &mut Vec<u8>, x: u16)
    ensures
        final(out)@ == old(out)@ + spec_u16_to_le_bytes(x),
        final(out)@.len() == old(out)@.len() + 2,
{
    let bytes = u16_to_le_bytes(x);
    put_bytes(out, bytes.as_slice());
}

/// Appends the 8 bytes of `x` to `out`.
fn put_u64(out: &mut Vec<u8>, x: u64)
    ensures
        final(out)@ == old(out)@ + spec_u64_to_le_bytes(x),
        final(out)@.len() == old(out)@.len() + 8,
{
    let bytes = u64_to_le_bytes(x);
    put_bytes(out, bytes.as_slice());
}

/// Appends the 101 bytes of an asset descriptor to `out`.
fn put_info(out: &mut Vec<u8>, info: &ZodCollateralInfo)
    ensures
        final(out)@ == old(out)@ + spec_info_bytes(*info),
        final(out)@.len() == old(out)@.len() + 101,
{
    proof {
        lemma_auto_spec_u16_to_from_le_bytes();
    }
    put_bytes(out, info.mint.bytes.as_slice());
    put_bytes(out, info.oracle_symbol.data.as_slice());
    out.push(info.decimals);
    put_u16(out, info.weight);
    put_u16(out, info.liq_fee);
    put_u16(out, info.optimal_util);
    put_u16(out, info.optimal_rate);
    put_u16(out, info.max_rate);
    put_u16(out, info.og_fee);
    put_bytes(out, info.serum_open_orders.bytes.as_slice());
    assert(out@ =~= old(out)@ + spec_info_bytes(*info));
}

/// The `u16` stored in the 2 bytes of `bytes` from `at`.
fn get_u16(bytes: &[u8], at: usize) -> (r: u16)
    requires
        at + 2 <= bytes@.len(),
    ensures
        r == spec_u16_from_le_bytes(bytes@.subrange(at as int, at + 2)),
{
    let len = bytes.len();
    assert(at + 2 <= len);
    u16_from_le_bytes(slice_subrange(bytes, at, at + 2))
}

/// The `u64` stored in the 8 bytes of `bytes` from `at`.
fn get_u64(bytes: &[u8], at: usize) -> (r: u64)
    requires
        at + 8 <= bytes@.len(),
    ensures
        r == spec_u64_from_le_bytes(bytes@.subrange(at as int, at + 8)),
{
    let len = bytes.len();
    assert(at + 8 <= len);
    u64_from_le_bytes(slice_subrange(bytes, at, at + 8))
}

/// The symbol stored in the 24 bytes of `bytes` from `at`.
fn get_symbol(bytes: &[u8], at: usize) -> (r: Symbol)
    requires
        at + 24 <= bytes@.len(),
    ensures
        r.data@ == bytes@.subrange(at as int, at + 24),
{
    let len = bytes.len();
    let mut data = [0u8; 24];
    let mut i: usize = 0;
    while i < 24
        invariant
            i <= 24,
            at + 24 <= bytes@.len() == len,
            forall|j: int| 0 <= j < i ==> data[j] == bytes@[at + j],
        decreases 24 - i,
    {
        data[i] = bytes[at + i];
        i += 1;
    }
    assert(data@ =~= bytes@.subrange(at as int, at + 24));
    Symbol { data }
}

/// The asset descriptor stored in the 101 bytes of `bytes` from `at`.
fn get_info(bytes: &[u8], at: usize) -> (r: ZodCollateralInfo)
    requires
        at + 101 <= bytes@.len(),
    ensures
        spec_info_bytes(r) == bytes@.subrange(at as int, at + 101),
{
    let len = bytes.len();
    assert(at + 101 <= len);
    proof {
        lemma_auto_spec_u16_to_from_le_bytes();
    }
    let info = ZodCollateralInfo {
        mint: get_identity(bytes, at),
        oracle_symbol: get_symbol(bytes, at + 32),
        decimals: bytes[at + 56],
        weight: get_u16(bytes, at + 57),
        liq_fee: get_u16(bytes, at + 59),
        optimal_util: get_u16(bytes, at + 61),
        optimal_rate: get_u16(bytes, at + 63),
        max_rate: get_u16(bytes, at + 65),
        og_fee: get_u16(bytes, at + 67),
        serum_open_orders: get_identity(bytes, at + 69),
    };
    proof {
        let sub = bytes@.subrange(at as int, at + 101);
        assert(spec_u16_to_le_bytes(info.weight) == bytes@.subrange(at + 57, at + 59));
        assert(spec_u16_to_le_bytes(info.liq_fee) == bytes@.subrange(at + 59, at + 61));
        assert(spec_u16_to_le_bytes(info.optimal_util) == bytes@.subrange(at + 61, at + 63));
        assert(spec_u16_to_le_bytes(info.optimal_rate) == bytes@.subrange(at + 63, at + 65));
        assert(spec_u16_to_le_bytes(info.max_rate) == bytes@.subrange(at + 65, at + 67));
        assert(spec_u16_to_le_bytes(info.og_fee) == bytes@.subrange(at + 67, at + 69));
        assert(spec_info_bytes(info) =~= sub);
    }
    info
}

/// The stored form of the protocol state: 1273 bytes.
pub fn encode_state(state: &ZodState) -> (r: Vec<u8>)
    ensures
        spec_state_layout(r@, *state),
{
    proof {
        lemma_auto_spec_u16_to_from_le_bytes();
        lemma_auto_spec_u64_to_from_le_bytes();
        lemma_number_bytes_round_trip();
    }
    let mut out: Vec<u8> = Vec::new();
    out.push(state.zod_state_nonce);
    out.push(state.zo_margin_nonce);
    put_bytes(&mut out, state.admin.bytes.as_slice());
    put_bytes(&mut out, state.zo_program_state.bytes.as_slice());
    put_bytes(&mut out, state.zo_program_margin.bytes.as_slice());
    put_u64(&mut out, state.insurance);
    let ghost head = out@;
    assert(head.len() == 106);
    assert(head[0] == state.zod_state_nonce && head[1] == state.zo_margin_nonce);
    assert(head.subrange(2, 34) =~= state.admin.bytes@);
    assert(head.subrange(34, 66) =~= state.zo_program_state.bytes@);
    assert(head.subrange(66, 98) =~= state.zo_program_margin.bytes@);
    assert(head.subrange(98, 106) =~= spec_u64_to_le_bytes(state.insurance));
    let mut k: usize = 0;
    while k < 25
        invariant
            k <= 25,
            out@.len() == 106 + 8 * k,
            out@.subrange(0, 106) == head,
            forall|j: int|
                0 <= j < k ==> #[trigger] out@.subrange(106 + 8 * j, 114 + 8 * j)
                    == spec_u64_to_le_bytes(state.fees_accrued[j]),
        decreases 25 - k,
    {
        let ghost before = out@;
        put_u64(&mut out, state.fees_accrued[k]);
        proof {
            assert(out@.subrange(0, 106) =~= before.subrange(0, 106));
            assert(out@.subrange(106 + 8 * k, 114 + 8 * k) =~= spec_u64_to_le_bytes(
                state.fees_accrued[k as int],
            ));
            assert forall|j: int| 0 <= j < k implies #[trigger] out@.subrange(
                106 + 8 * j,
                114 + 8 * j,
            ) == spec_u64_to_le_bytes(state.fees_accrued[j]) by {
                assert(out@.subrange(106 + 8 * j, 114 + 8 * j) =~= before.subrange(
                    106 + 8 * j,
                    114 + 8 * j,
                ));
            }
        }
        k += 1;
    }
    let ghost with_fees = out@;
    put_u16(&mut out, state.total_collaterals);
    let ghost with_total = out@;
    assert(with_total.subrange(0, 306) =~= with_fees);
    assert(with_total.subrange(306, 308) =~= spec_u16_to_le_bytes(state.total_collaterals));
    let mut v: usize = 0;
    while v < 25
        invariant
            v <= 25,
            out@.len() == 308 + 32 * v,
            out@.subrange(0, 308) == with_total,
            forall|j: int|
                0 <= j < v ==> #[trigger] out@.subrange(308 + 32 * j, 340 + 32 * j)
                    == state.vaults[j].bytes@,
        decreases 25 - v,
    {
        let ghost before = out@;
        put_bytes(&mut out, state.vaults[v].bytes.as_slice());
        proof {
            assert(out@.subrange(0, 308) =~= before.subrange(0, 308));
            assert(out@.subrange(308 + 32 * v, 340 + 32 * v) =~= state.vaults[v as int].bytes@);
            assert forall|j: int| 0 <= j < v implies #[trigger] out@.subrange(
                308 + 32 * j,
                340 + 32 * j,
            ) == state.vaults[j].bytes@ by {
                assert(out@.subrange(308 + 32 * j, 340 + 32 * j) =~= before.subrange(
                    308 + 32 * j,
                    340 + 32 * j,
                ));
            }
        }
        v += 1;
    }
    let ghost with_vaults = out@;
    put_bytes(&mut out, state.zod_token_mint.bytes.as_slice());
    put_info(&mut out, &state.zod_token_info);
    put_number(&mut out, state.soc_loss_multiplier);
    put_number(&mut out, state.total_zod_borrowed);
    proof {
        assert(out@.len() == 1273);
        assert(out@.subrange(0, 1108) =~= with_vaults);
        assert(with_vaults.subrange(0, 308) == with_total);
        assert(with_total.subrange(0, 306) == with_fees);
        assert(with_fees.subrange(0, 106) == head);
        assert(out@.subrange(0, 106) =~= head);
        assert(out@[0] == out@.subrange(0, 106)[0] && out@[1] == out@.subrange(0, 106)[1]);
        assert(out@.subrange(2, 34) =~= head.subrange(2, 34));
        assert(out@.subrange(34, 66) =~= head.subrange(34, 66));
        assert(out@.subrange(66, 98) =~= head.subrange(66, 98));
        assert(out@.subrange(98, 106) =~= head.subrange(98, 106));
        assert(out@.subrange(306, 308) =~= with_total.subrange(306, 308));
        assert forall|j: int| 0 <= j < 25 implies #[trigger] out@.subrange(
            106 + 8 * j,
            114 + 8 * j,
        ) == spec_u64_to_le_bytes(state.fees_accrued[j]) by {
            assert(out@.subrange(106 + 8 * j, 114 + 8 * j) =~= with_fees.subrange(
                106 + 8 * j,
                114 + 8 * j,
            ));
        }
        assert forall|j: int| 0 <= j < 25 implies #[trigger] out@.subrange(
            308 + 32 * j,
            340 + 32 * j,
        ) == state.vaults[j].bytes@ by {
            assert(out@.subrange(308 + 32 * j, 340 + 32 * j) =~= with_vaults.subrange(
                308 + 32 * j,
                340 + 32 * j,
            ));
        }
        assert(out@.subrange(1108, 1140) =~= state.zod_token_mint.bytes@);
        assert(out@.subrange(1140, 1241) =~= spec_info_bytes(state.zod_token_info));
        assert(out@.subrange(1241, 1257) =~= spec_number_bytes(state.soc_loss_multiplier));
        assert(out@.subrange(1257, 1273) =~= spec_number_bytes(state.total_zod_borrowed));
    }
    out
}

/// The protocol state that `bytes` store, with `collaterals` as its
/// catalog; there is none unless `bytes` has the size of a stored state.
pub fn decode_state(bytes: &[u8], collaterals: &[ZodCollateralInfo; 25]) -> (r: Option<ZodState>)
    ensures
        bytes@.len() != STATE_SIZE ==> r is None,
        bytes@.len() == STATE_SIZE ==> r is Some && spec_state_layout(bytes@, r.unwrap())
            && r.unwrap().collaterals == *collaterals,
{
    if bytes.len() != STATE_SIZE {
        return None;
    }
    proof {
        lemma_auto_spec_u16_to_from_le_bytes();
        lemma_auto_spec_u64_to_from_le_bytes();
        lemma_number_bytes_round_trip();
    }
    let mut fees_accrued = [0u64; 25];
    let mut k: usize = 0;
    while k < 25
        invariant
            k <= 25,
            bytes@.len() == STATE_SIZE,
            forall|j: int|
                0 <= j < k ==> fees_accrued[j] == spec_u64_from_le_bytes(
                    #[trigger] bytes@.subrange(106 + 8 * j, 114 + 8 * j),
                ),
        decreases 25 - k,
    {
        fees_accrued[k] = get_u64(bytes, STATE_FEES_AT + 8 * k);
        k += 1;
    }
    let mut vaults = [Identity::empty(); 25];
    let mut v: usize = 0;
    while v < 25
        invariant
            v <= 25,
            bytes@.len() == STATE_SIZE,
            forall|j: int|
                0 <= j < v ==> vaults[j].bytes@ == #[trigger] bytes@.subrange(
                    308 + 32 * j,
                    340 + 32 * j,
                ),
        decreases 25 - v,
    {
        vaults[v] = get_identity(bytes, STATE_VAULTS_AT + 32 * v);
        v += 1;
    }
    Some(
        ZodState {
            zod_state_nonce: bytes[0],
            zo_margin_nonce: bytes[1],
            admin: get_identity(bytes, 2),
            zo_program_state: get_identity(bytes, 34),
            zo_program_margin: get_identity(bytes, 66),
            insurance: get_u64(bytes, 98),
            fees_accrued,
            total_collaterals: get_u16(bytes, 306),
            vaults,
            collaterals: *collaterals,
            zod_token_mint: get_identity(bytes, 1108),
            zod_token_info: get_info(bytes, STATE_TOKEN_INFO_AT),
            soc_loss_multiplier: get_number(bytes, 1241),
            total_zod_borrowed: get_number(bytes, 1257),
        },
    )
}

/// Two asset descriptors that are stored as the same bytes are the same.
proof fn lemma_info_bytes_determine_info(a: ZodCollateralInfo, b: ZodCollateralInfo)
    requires
        spec_info_bytes(a) == spec_info_bytes(b),
    ensures
        a == b,
{
    lemma_auto_spec_u16_to_from_le_bytes();
    let s = spec_info_bytes(a);
    let t = spec_info_bytes(b);
    assert(spec_u16_to_le_bytes(a.weight).len() == 2 && spec_u16_to_le_bytes(b.weight).len() == 2);
    assert(spec_u16_to_le_bytes(a.liq_fee).len() == 2 && spec_u16_to_le_bytes(b.liq_fee).len()
        == 2);
    assert(spec_u16_to_le_bytes(a.optimal_util).len() == 2 && spec_u16_to_le_bytes(
        b.optimal_util,
    ).len() == 2);
    assert(spec_u16_to_le_bytes(a.optimal_rate).len() == 2 && spec_u16_to_le_bytes(
        b.optimal_rate,
    ).len() == 2);
    assert(spec_u16_to_le_bytes(a.max_rate).len() == 2 && spec_u16_to_le_bytes(b.max_rate).len()
        == 2);
    assert(spec_u16_to_le_bytes(a.og_fee).len() == 2 && spec_u16_to_le_bytes(b.og_fee).len() == 2);
    assert(s.subrange(0, 32) =~= a.mint.bytes@ && t.subrange(0, 32) =~= b.mint.bytes@);
    assert(s.subrange(32, 56) =~= a.oracle_symbol.data@ && t.subrange(32, 56)
        =~= b.oracle_symbol.data@);
    assert(s[56] == a.decimals && t[56] == b.decimals);
    assert(s.subrange(57, 59) =~= spec_u16_to_le_bytes(a.weight) && t.subrange(57, 59)
        =~= spec_u16_to_le_bytes(b.weight));
    assert(s.subrange(59, 61) =~= spec_u16_to_le_bytes(a.liq_fee) && t.subrange(59, 61)
        =~= spec_u16_to_le_bytes(b.liq_fee));
    assert(s.subrange(61, 63) =~= spec_u16_to_le_bytes(a.optimal_util) && t.subrange(61, 63)
        =~= spec_u16_to_le_bytes(b.optimal_util));
    assert(s.subrange(63, 65) =~= spec_u16_to_le_bytes(a.optimal_rate) && t.subrange(63, 65)
        =~= spec_u16_to_le_bytes(b.optimal_rate));
    assert(s.subrange(65, 67) =~= spec_u16_to_le_bytes(a.max_rate) && t.subrange(65, 67)
        =~= spec_u16_to_le_bytes(b.max_rate));
    assert(s.subrange(67, 69) =~= spec_u16_to_le_bytes(a.og_fee) && t.subrange(67, 69)
        =~= spec_u16_to_le_bytes(b.og_fee));
    assert(s.subrange(69, 101) =~= a.serum_open_orders.bytes@ && t.subrange(69, 101)
        =~= b.serum_open_orders.bytes@);
    assert(a.mint.bytes =~= b.mint.bytes);
    assert(a.oracle_symbol.data =~= b.oracle_symbol.data);
    assert(a.serum_open_orders.bytes =~= b.serum_open_orders.bytes);
    assert(spec_u16_from_le_bytes(spec_u16_to_le_bytes(a.weight)) == a.weight);
    assert(spec_u16_from_le_bytes(spec_u16_to_le_bytes(b.weight)) == b.weight);
    assert(spec_u16_from_le_bytes(spec_u16_to_le_bytes(a.liq_fee)) == a.liq_fee);
    assert(spec_u16_from_le_bytes(spec_u16_to_le_bytes(b.liq_fee)) == b.liq_fee);
    assert(spec_u16_from_le_bytes(spec_u16_to_le_bytes(a.optimal_util)) == a.optimal_util);
    assert(spec_u16_from_le_bytes(spec_u16_to_le_bytes(b.optimal_util)) == b.optimal_util);
    assert(spec_u16_from_le_bytes(spec_u16_to_le_bytes(a.optimal_rate)) == a.optimal_rate);
    assert(spec_u16_from_le_bytes(spec_u16_to_le_bytes(b.optimal_rate)) == b.optimal_rate);
    assert(spec_u16_from_le_bytes(spec_u16_to_le_bytes(a.max_rate)) == a.max_rate);
    assert(spec_u16_from_le_bytes(spec_u16_to_le_bytes(b.max_rate)) == b.max_rate);
    assert(spec_u16_from_le_bytes(spec_u16_to_le_bytes(a.og_fee)) == a.og_fee);
    assert(spec_u16_from_le_bytes(spec_u16_to_le_bytes(b.og_fee)) == b.og_fee);
}

/// A stored protocol state stores one protocol state only, up to the
/// catalog, which is no part of it.
pub proof fn theorem_state_layout_determines_state(s: Seq<u8>, a: ZodState, b: ZodState)
    requires
        spec_state_layout(s, a),
        spec_state_layout(s, b),
        a.collaterals == b.collaterals,
    ensures
        a == b,
{
    lemma_number_bytes_round_trip();
    lemma_auto_spec_u16_to_from_le_bytes();
    lemma_auto_spec_u64_to_from_le_bytes();
    lemma_info_bytes_determine_info(a.zod_token_info, b.zod_token_info);
    assert(a.admin.bytes =~= b.admin.bytes);
    assert(a.zo_program_state.bytes =~= b.zo_program_state.bytes);
    assert(a.zo_program_margin.bytes =~= b.zo_program_margin.bytes);
    assert(a.zod_token_mint.bytes =~= b.zod_token_mint.bytes);
    assert(spec_u64_to_le_bytes(a.insurance).len() == 8);
    assert(spec_u64_to_le_bytes(b.insurance).len() == 8);
    assert(spec_u64_from_le_bytes(spec_u64_to_le_bytes(a.insurance)) == a.insurance);
    assert(spec_u64_from_le_bytes(spec_u64_to_le_bytes(b.insurance)) == b.insurance);
    assert(spec_u16_to_le_bytes(a.total_collaterals).len() == 2);
    assert(spec_u16_to_le_bytes(b.total_collaterals).len() == 2);
    assert(spec_u16_from_le_bytes(spec_u16_to_le_bytes(a.total_collaterals))
        == a.total_collaterals);
    assert(spec_u16_from_le_bytes(spec_u16_to_le_bytes(b.total_collaterals))
        == b.total_collaterals);
    assert forall|k: int| 0 <= k < 25 implies a.fees_accrued[k] == b.fees_accrued[k] by {
        let sub = s.subrange(106 + 8 * k, 114 + 8 * k);
        assert(spec_u64_to_le_bytes(a.fees_accrued[k]).len() == 8);
        assert(spec_u64_to_le_bytes(b.fees_accrued[k]).len() == 8);
        assert(spec_u64_from_le_bytes(spec_u64_to_le_bytes(a.fees_accrued[k]))
            == a.fees_accrued[k]);
        assert(spec_u64_from_le_bytes(spec_u64_to_le_bytes(b.fees_accrued[k]))
            == b.fees_accrued[k]);
    }
    assert(a.fees_accrued =~= b.fees_accrued);
    assert forall|k: int| 0 <= k < 25 implies a.vaults[k] == b.vaults[k] by {
        let sub = s.subrange(308 + 32 * k, 340 + 32 * k);
        assert(a.vaults[k].bytes =~= b.vaults[k].bytes);
    }
    assert(a.vaults =~= b.vaults);
    assert(spec_number_from(spec_number_bytes(a.soc_loss_multiplier)) == a.soc_loss_multiplier);
    assert(spec_number_from(spec_number_bytes(b.soc_loss_multiplier)) == b.soc_loss_multiplier);
    assert(spec_number_from(spec_number_bytes(a.total_zod_borrowed)) == a.total_zod_borrowed);
    assert(spec_number_from(spec_number_bytes(b.total_zod_borrowed)) == b.total_zod_borrowed);
}

} // verus!
