use zod::common::error::ErrorCode;
use zod::common::token::{TokenMap, TokenType, TOKEN_COUNT};

#[test]
fn token_try_from() -> Result<(), ErrorCode> {
    for i in 0..(TOKEN_COUNT as u8) {
        let x: u8 = TokenType::try_from(i)?.into();
        assert_eq!(i, x);
    }
    Ok(())
}

#[test]
fn token_map() {
    let mut m = TokenMap::<u64>::default();
    assert_eq!(m[TokenType::Usdc], 0);

    m.set(TokenType::Usdc, 10);
    assert_eq!(m[TokenType::Usdc], 10);
}

#[test]
fn token_try_from_rejects_other_numbers() {
    assert_eq!(TokenType::try_from(1u8), Err(ErrorCode::MathFailure));
    assert_eq!(TokenType::try_from(255u8), Err(ErrorCode::MathFailure));
    assert_eq!(u8::from(TokenType::Usdc), 0);
    assert_eq!(u8::from(TokenType::LENGTH), 1);
}

#[test]
#[should_panic]
fn token_map_out_of_bounds() {
    let m = TokenMap::<u64>::default();
    m[TokenType::LENGTH];
}

#[test]
fn token_map_from_an_array() {
    let m = TokenMap::<u64>::from([7u64]);
    assert_eq!(m[TokenType::Usdc], 7);
    let copy = m.clone();
    assert_eq!(copy[TokenType::Usdc], 7);
}
