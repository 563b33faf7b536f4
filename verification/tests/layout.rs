use zod::instructions::{create_margin, init_state};
use zod::state::layout::{
    decode_margin, decode_state, encode_margin, encode_state, INFO_SIZE, MARGIN_SIZE, STATE_SIZE,
};
use zod::state::margin::ZodMargin;
use zod::state::state::{ZodCollateralInfo, ZodState};
use zod::zod_types::{Identity, Symbol, WrappedI80F48};

const ONE: i128 = 1i128 << 48;

fn key(b: u8) -> Identity {
    Identity { bytes: [b; 32] }
}

fn sample_margin() -> ZodMargin {
    let mut m = create_margin::process(7, key(0xaa), key(0xbb));
    for i in 0..25 {
        m.collateral[i] = WrappedI80F48 { data: (i as i128 - 12) * ONE + i as i128 };
    }
    m.zod_balance = WrappedI80F48 { data: i128::MIN + 5 };
    m
}

fn sample_state() -> ZodState {
    let mut state = init_state::process(3, 4, key(1), key(2), key(3), key(4));
    state.insurance = 0x0102_0304_0506_0708;
    for i in 0..25 {
        state.fees_accrued[i] = 1000 + i as u64;
        state.vaults[i] = key(100 + i as u8);
    }
    state.total_collaterals = 0x1234;
    state.zod_token_mint = key(9);
    state.soc_loss_multiplier = WrappedI80F48 { data: ONE - 12345 };
    state.total_zod_borrowed = WrappedI80F48 { data: -1 };
    state
}

fn same_margin(a: &ZodMargin, b: &ZodMargin) -> bool {
    a.nonce == b.nonce
        && a.authority == b.authority
        && a.collateral == b.collateral
        && a.zod_token_account == b.zod_token_account
        && a.zod_balance == b.zod_balance
}

fn same_info(a: &ZodCollateralInfo, b: &ZodCollateralInfo) -> bool {
    a.mint == b.mint
        && a.oracle_symbol == b.oracle_symbol
        && a.decimals == b.decimals
        && a.weight == b.weight
        && a.liq_fee == b.liq_fee
        && a.optimal_util == b.optimal_util
        && a.optimal_rate == b.optimal_rate
        && a.max_rate == b.max_rate
        && a.og_fee == b.og_fee
        && a.serum_open_orders == b.serum_open_orders
}

#[test]
fn a_margin_account_is_stored_field_by_field() {
    let m = sample_margin();
    let bytes = encode_margin(&m);
    assert_eq!(bytes.len(), MARGIN_SIZE);
    assert_eq!(bytes.len(), 1 + 32 + 25 * 16 + 32 + 16);
    assert_eq!(bytes[0], 7);
    assert_eq!(&bytes[1..33], &[0xaa; 32]);
    for i in 0..25 {
        let at = 33 + 16 * i;
        assert_eq!(&bytes[at..at + 16], &m.collateral[i].data.to_le_bytes());
    }
    assert_eq!(&bytes[433..465], &[0xbb; 32]);
    assert_eq!(&bytes[465..481], &(i128::MIN + 5).to_le_bytes());
}

#[test]
fn numbers_are_stored_little_endian_in_twos_complement() {
    let mut m = create_margin::process(0, key(0), key(0));
    m.zod_balance = WrappedI80F48 { data: -1 };
    m.collateral[0] = WrappedI80F48 { data: 0x0102 };
    m.collateral[24] = WrappedI80F48 { data: i128::MAX };
    let bytes = encode_margin(&m);
    assert_eq!(&bytes[465..481], &[0xff; 16]);
    assert_eq!(bytes[33], 0x02);
    assert_eq!(bytes[34], 0x01);
    assert_eq!(&bytes[35..49], &[0u8; 14]);
    assert_eq!(&bytes[417..432], &[0xff; 15]);
    assert_eq!(bytes[432], 0x7f);
}

#[test]
fn a_stored_margin_account_reads_back() {
    let m = sample_margin();
    let back = decode_margin(&encode_margin(&m)).unwrap();
    assert!(same_margin(&m, &back));
    let empty = create_margin::process(0, key(0), key(0));
    assert_eq!(encode_margin(&empty), vec![0u8; MARGIN_SIZE]);
    assert!(same_margin(&decode_margin(&vec![0u8; MARGIN_SIZE]).unwrap(), &empty));
}

#[test]
fn only_bytes_of_the_right_size_hold_a_margin_account() {
    assert!(decode_margin(&[]).is_none());
    assert!(decode_margin(&vec![0u8; MARGIN_SIZE - 1]).is_none());
    assert!(decode_margin(&vec![0u8; MARGIN_SIZE + 1]).is_none());
    assert!(decode_margin(&vec![0u8; MARGIN_SIZE]).is_some());
}

#[test]
fn every_byte_of_a_stored_margin_account_counts() {
    let m = sample_margin();
    let bytes = encode_margin(&m);
    for i in 0..MARGIN_SIZE {
        let mut changed = bytes.clone();
        changed[i] ^= 0x01;
        let other = decode_margin(&changed).unwrap();
        assert!(!same_margin(&m, &other));
        assert_eq!(encode_margin(&other), changed);
    }
}

#[test]
fn a_protocol_state_is_stored_field_by_field() {
    let state = sample_state();
    let bytes = encode_state(&state);
    assert_eq!(bytes.len(), STATE_SIZE);
    assert_eq!(INFO_SIZE, 32 + 24 + 1 + 6 * 2 + 32);
    assert_eq!(bytes.len(), 2 + 3 * 32 + 8 + 25 * 8 + 2 + 25 * 32 + 32 + INFO_SIZE + 2 * 16);
    assert_eq!(bytes[0], 3);
    assert_eq!(bytes[1], 4);
    assert_eq!(&bytes[2..34], &[1u8; 32]);
    assert_eq!(&bytes[34..66], &[2u8; 32]);
    assert_eq!(&bytes[66..98], &[3u8; 32]);
    assert_eq!(&bytes[98..106], &[8, 7, 6, 5, 4, 3, 2, 1]);
    for i in 0..25 {
        assert_eq!(&bytes[106 + 8 * i..114 + 8 * i], &(1000 + i as u64).to_le_bytes());
        assert_eq!(&bytes[308 + 32 * i..340 + 32 * i], &[100 + i as u8; 32]);
    }
    assert_eq!(&bytes[306..308], &[0x34, 0x12]);
    assert_eq!(&bytes[1108..1140], &[9u8; 32]);
    // the descriptor of the debt token
    assert_eq!(&bytes[1140..1172], &[4u8; 32]);
    assert_eq!(&bytes[1172..1175], b"ZOD");
    assert_eq!(&bytes[1175..1196], &[0u8; 21]);
    assert_eq!(bytes[1196], 6);
    assert_eq!(&bytes[1197..1199], &900u16.to_le_bytes());
    assert_eq!(&bytes[1199..1201], &20u16.to_le_bytes());
    assert_eq!(&bytes[1201..1203], &700u16.to_le_bytes());
    assert_eq!(&bytes[1203..1205], &100u16.to_le_bytes());
    assert_eq!(&bytes[1205..1207], &1000u16.to_le_bytes());
    assert_eq!(&bytes[1207..1209], &10u16.to_le_bytes());
    assert_eq!(&bytes[1209..1241], &[0u8; 32]);
    assert_eq!(&bytes[1241..1257], &(ONE - 12345).to_le_bytes());
    assert_eq!(&bytes[1257..1273], &[0xff; 16]);
}

#[test]
fn a_stored_protocol_state_reads_back_with_its_catalog() {
    let state = sample_state();
    let mut catalog = [ZodCollateralInfo::default(); 25];
    catalog[3].mint = key(33);
    catalog[3].oracle_symbol = Symbol::from_bytes(b"BTC").unwrap();
    catalog[3].weight = 900;
    let back = decode_state(&encode_state(&state), &catalog).unwrap();
    assert_eq!(back.zod_state_nonce, state.zod_state_nonce);
    assert_eq!(back.zo_margin_nonce, state.zo_margin_nonce);
    assert!(back.admin == state.admin);
    assert!(back.zo_program_state == state.zo_program_state);
    assert!(back.zo_program_margin == state.zo_program_margin);
    assert_eq!(back.insurance, state.insurance);
    assert_eq!(back.fees_accrued, state.fees_accrued);
    assert_eq!(back.total_collaterals, state.total_collaterals);
    for i in 0..25 {
        assert!(back.vaults[i] == state.vaults[i]);
        assert!(same_info(&back.collaterals[i], &catalog[i]));
    }
    assert!(back.zod_token_mint == state.zod_token_mint);
    assert!(same_info(&back.zod_token_info, &state.zod_token_info));
    assert_eq!(back.soc_loss_multiplier, state.soc_loss_multiplier);
    assert_eq!(back.total_zod_borrowed, state.total_zod_borrowed);
    // the catalog is not stored
    let mut with_catalog = state;
    with_catalog.collaterals = catalog;
    assert_eq!(encode_state(&with_catalog), encode_state(&state));
}

#[test]
fn only_bytes_of_the_right_size_hold_a_protocol_state() {
    let catalog = [ZodCollateralInfo::default(); 25];
    assert!(decode_state(&[], &catalog).is_none());
    assert!(decode_state(&vec![0u8; STATE_SIZE - 1], &catalog).is_none());
    assert!(decode_state(&vec![0u8; STATE_SIZE + 1], &catalog).is_none());
    assert!(decode_state(&vec![0u8; MARGIN_SIZE], &catalog).is_none());
    let zero = decode_state(&vec![0u8; STATE_SIZE], &catalog).unwrap();
    assert_eq!(zero.insurance, 0);
    assert_eq!(zero.soc_loss_multiplier, WrappedI80F48::zero());
    assert_eq!(encode_state(&zero), vec![0u8; STATE_SIZE]);
}

#[test]
fn every_byte_of_a_stored_protocol_state_counts() {
    let state = sample_state();
    let catalog = [ZodCollateralInfo::default(); 25];
    let bytes = encode_state(&state);
    for i in 0..STATE_SIZE {
        let mut changed = bytes.clone();
        changed[i] ^= 0x80;
        let other = decode_state(&changed, &catalog).unwrap();
        assert_eq!(encode_state(&other), changed);
    }
}
