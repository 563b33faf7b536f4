//! The tokens that the protocol knows, and a table with one entry for
//! each of them.

use crate::common::error::ErrorCode;
use vstd::prelude::*;
use vstd::std_specs::convert::{FromSpecImpl, TryFromSpecImpl};

verus! {

/// A token. `LENGTH` is no token: it counts the tokens before it.
#[derive(Clone, Copy, Debug, PartialEq, Eq, Structural)]
pub enum TokenType {
    Usdc,
    LENGTH,
}

/// Number of tokens.
pub const TOKEN_COUNT: usize = 1;

/// A table with one entry for each token.
#[derive(Default, Clone)]
pub struct TokenMap<T>(pub [T; TOKEN_COUNT]);

/// The number of a token.
pub open spec fn spec_token_number(x: TokenType) -> u8 {
    match x {
        TokenType::Usdc => 0,
        TokenType::LENGTH => 1,
    }
}

impl TryFrom<u8> for TokenType {
    type Error = ErrorCode;

    fn try_from(x: u8) -> (r: Result<Self, ErrorCode>) {
        match x {
            0 => Ok(TokenType::Usdc),
            _ => Err(ErrorCode::MathFailure),
        }
    }
}

impl TryFromSpecImpl<u8> for TokenType {
    open spec fn obeys_try_from_spec() -> bool {
        true
    }

    open spec fn try_from_spec(x: u8) -> Result<Self, ErrorCode> {
        if x == 0 {
            Ok(TokenType::Usdc)
        } else {
            Err(ErrorCode::MathFailure)
        }
    }
}

impl From<TokenType> for u8 {
    fn from(x: TokenType) -> (r: u8) {
        match x {
            TokenType::Usdc => 0,
            TokenType::LENGTH => 1,
        }
    }
}

impl FromSpecImpl<TokenType> for u8 {
    open spec fn obeys_from_spec() -> bool {
        true
    }

    open spec fn from_spec(x: TokenType) -> u8 {
        spec_token_number(x)
    }
}

impl<T> From<[T; TOKEN_COUNT]> for TokenMap<T> {
    fn from(x: [T; TOKEN_COUNT]) -> (r: Self) {
        TokenMap::<T>(x)
    }
}

impl<T> FromSpecImpl<[T; TOKEN_COUNT]> for TokenMap<T> {
    open spec fn obeys_from_spec() -> bool {
        true
    }

    open spec fn from_spec(x: [T; TOKEN_COUNT]) -> Self {
        TokenMap::<T>(x)
    }
}

impl<T> std::ops::Index<TokenType> for TokenMap<T> {
    type Output = T;

    fn index(&self, idx: TokenType) -> (r: &T)
        ensures
            *r == self.0[spec_token_number(idx) as int],
    {
        let n: u8 = match idx {
            TokenType::Usdc => 0,
            TokenType::LENGTH => 1,
        };
        &self.0[n as usize]
    }
}

impl<T> vstd::std_specs::core::IndexSpecImpl<TokenType> for TokenMap<T> {
    open spec fn index_req(&self, index: &TokenType) -> bool {
        *index != TokenType::LENGTH
    }
}

impl<T> TokenMap<T> {
    /// Replaces the entry of token `idx`.
    pub fn set(&mut self, idx: TokenType, value: T)
        requires
            idx != TokenType::LENGTH,
        ensures
            final(self).0[0] == value,
    {
        self.0[0] = value;
    }
}

} // verus!
