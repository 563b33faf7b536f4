//! Plain value types of the protocol: fixed-point numbers, oracle symbols
//! and account identities.

use crate::common::math::{
    add_bits, checked, checked_add, checked_div, checked_from_num, checked_mul, checked_sub,
    checked_to_num, div_bits, floor, floor_bits, floor_int, mul_bits, sub_bits, MAX_INT, MIN_INT,
    ONE_BITS,
};
use crate::errors::ZodError;
use vstd::prelude::*;

verus! {

/// Which margin requirement a computation is made for.
#[derive(Clone, Copy, Debug, PartialEq, Eq, Structural)]
pub enum FractionType {
    Maintenance,
    Initial,
    Cancel,
}

/// A signed 80.48 fixed-point number, held as its raw bits.
///
/// The number stands for `data / 2^48`. Its view is `data` as an integer.
#[derive(Clone, Copy, Debug, PartialEq, Eq, PartialOrd, Ord, Hash, Structural)]
pub struct WrappedI80F48 {
    pub data: i128,
}

impl View for WrappedI80F48 {
    type V = int;

    open spec fn view(&self) -> int {
        self.data as int
    }
}

/// The fixed-point number with the given bits, or an arithmetic failure
/// when there is none.
pub open spec fn wrap_checked(bits: int) -> Result<WrappedI80F48, ZodError> {
    match checked(bits) {
        Some(data) => Ok(WrappedI80F48 { data }),
        None => Err(ZodError::ArithmeticFailure),
    }
}

/// Checked sum.
pub open spec fn spec_safe_add(a: WrappedI80F48, b: WrappedI80F48) -> Result<
    WrappedI80F48,
    ZodError,
> {
    wrap_checked(add_bits(a@, b@))
}

/// Checked difference.
pub open spec fn spec_safe_sub(a: WrappedI80F48, b: WrappedI80F48) -> Result<
    WrappedI80F48,
    ZodError,
> {
    wrap_checked(sub_bits(a@, b@))
}

/// Checked product, rounded toward negative infinity.
pub open spec fn spec_safe_mul(a: WrappedI80F48, b: WrappedI80F48) -> Result<
    WrappedI80F48,
    ZodError,
> {
    wrap_checked(mul_bits(a@, b@))
}

/// Checked quotient, rounded toward zero; a zero divisor fails.
pub open spec fn spec_safe_div(a: WrappedI80F48, b: WrappedI80F48) -> Result<
    WrappedI80F48,
    ZodError,
> {
    if b@ == 0 {
        Err(ZodError::ArithmeticFailure)
    } else {
        wrap_checked(div_bits(a@, b@))
    }
}

/// The fixed-point number that stands for the whole number `n` (which lies
/// within the 80 integer bits).
pub open spec fn spec_whole(n: int) -> WrappedI80F48 {
    WrappedI80F48 { data: (n * ONE_BITS) as i128 }
}

/// The fixed-point form of a whole number, when it has one.
pub open spec fn spec_from_int(n: int) -> Result<WrappedI80F48, ZodError> {
    if MIN_INT <= n <= MAX_INT {
        Ok(spec_whole(n))
    } else {
        Err(ZodError::ArithmeticFailure)
    }
}

/// The largest whole number not above `a`, when it fits in an `i64`.
pub open spec fn spec_floor_to_i64(a: WrappedI80F48) -> Result<i64, ZodError> {
    if i64::MIN <= floor_int(a@) <= i64::MAX {
        Ok(floor_int(a@) as i64)
    } else {
        Err(ZodError::ArithmeticFailure)
    }
}

/// The largest whole number not above `a`, when it fits in a `u64`.
pub open spec fn spec_floor_to_u64(a: WrappedI80F48) -> Result<u64, ZodError> {
    if 0 <= floor_int(a@) <= u64::MAX {
        Ok(floor_int(a@) as u64)
    } else {
        Err(ZodError::ArithmeticFailure)
    }
}

impl WrappedI80F48 {
    /// The number 0.
    pub fn zero() -> (r: Self)
        ensures
            r@ == 0,
    {
        WrappedI80F48 { data: 0 }
    }

    /// The number 1.
    pub fn one() -> (r: Self)
        ensures
            r@ == ONE_BITS,
    {
        WrappedI80F48 { data: ONE_BITS }
    }

    /// Checked addition.
    pub fn safe_add(self, rhs: Self) -> (r: Result<Self, ZodError>)
        ensures
            r == spec_safe_add(self, rhs),
    {
        match checked_add(self.data, rhs.data) {
            Some(data) => Ok(WrappedI80F48 { data }),
            None => Err(ZodError::ArithmeticFailure),
        }
    }

    /// Checked subtraction.
    pub fn safe_sub(self, rhs: Self) -> (r: Result<Self, ZodError>)
        ensures
            r == spec_safe_sub(self, rhs),
    {
        match checked_sub(self.data, rhs.data) {
            Some(data) => Ok(WrappedI80F48 { data }),
            None => Err(ZodError::ArithmeticFailure),
        }
    }

    /// Checked multiplication; the product is rounded toward negative
    /// infinity.
    pub fn safe_mul(self, rhs: Self) -> (r: Result<Self, ZodError>)
        ensures
            r == spec_safe_mul(self, rhs),
    {
        match checked_mul(self.data, rhs.data) {
            Some(data) => Ok(WrappedI80F48 { data }),
            None => Err(ZodError::ArithmeticFailure),
        }
    }

    /// Checked division; the quotient is rounded toward zero, and a zero
    /// divisor is an arithmetic failure.
    pub fn safe_div(self, rhs: Self) -> (r: Result<Self, ZodError>)
        ensures
            r == spec_safe_div(self, rhs),
    {
        match checked_div(self.data, rhs.data) {
            Some(data) => Ok(WrappedI80F48 { data }),
            None => Err(ZodError::ArithmeticFailure),
        }
    }

    /// Checked negation.
    pub fn safe_neg(self) -> (r: Result<Self, ZodError>)
        ensures
            r == wrap_checked(-self@),
    {
        WrappedI80F48::zero().safe_sub(self)
    }

    /// The fixed-point form of a whole number; fails when the number needs
    /// more than 80 integer bits.
    pub fn from_int(n: i128) -> (r: Result<Self, ZodError>)
        ensures
            r == spec_from_int(n as int),
    {
        match checked_from_num(n) {
            Some(data) => Ok(WrappedI80F48 { data }),
            None => Err(ZodError::ArithmeticFailure),
        }
    }

    /// The largest whole number not above `self`, as a fixed-point number.
    pub fn floor(self) -> (r: Self)
        ensures
            r@ == floor_bits(self@),
    {
        WrappedI80F48 { data: floor(self.data) }
    }

    /// The largest whole number not above `self`; fails when it does not
    /// fit in an `i64`.
    pub fn floor_to_i64(self) -> (r: Result<i64, ZodError>)
        ensures
            r == spec_floor_to_i64(self),
    {
        match checked_to_num(self.floor().data) {
            Some(n) => {
                if n < -0x8000_0000_0000_0000 || n > 0x7fff_ffff_ffff_ffff {
                    Err(ZodError::ArithmeticFailure)
                } else {
                    Ok(n as i64)
                }
            },
            None => Err(ZodError::ArithmeticFailure),
        }
    }

    /// The largest whole number not above `self`; fails when it does not
    /// fit in a `u64`.
    pub fn floor_to_u64(self) -> (r: Result<u64, ZodError>)
        ensures
            r == spec_floor_to_u64(self),
    {
        match checked_to_num(self.floor().data) {
            Some(n) => {
                if n < 0 || n > 0xffff_ffff_ffff_ffff {
                    Err(ZodError::ArithmeticFailure)
                } else {
                    Ok(n as u64)
                }
            },
            None => Err(ZodError::ArithmeticFailure),
        }
    }

    /// The smaller of two numbers.
    pub fn min(self, other: Self) -> (r: Self)
        ensures
            r@ == if self@ <= other@ {
                self@
            } else {
                other@
            },
    {
        if self.data <= other.data {
            self
        } else {
            other
        }
    }

    /// The larger of two numbers.
    pub fn max(self, other: Self) -> (r: Self)
        ensures
            r@ == if self@ >= other@ {
                self@
            } else {
                other@
            },
    {
        if self.data >= other.data {
            self
        } else {
            other
        }
    }
}

} // verus!

verus! {

/// The identity of an account or of a token mint: 32 opaque bytes.
/// The identity of all zeroes marks an empty slot.
#[derive(Clone, Copy, Debug)]
pub struct Identity {
    pub bytes: [u8; 32],
}

impl PartialEq for Identity {
    fn eq(&self, other: &Self) -> (r: bool) {
        let mut i: usize = 0;
        while i < 32
            invariant
                i <= 32,
                forall|j: int| 0 <= j < i ==> self.bytes[j] == other.bytes[j],
            decreases 32 - i,
        {
            if self.bytes[i] != other.bytes[i] {
                return false;
            }
            i += 1;
        }
        assert(self.bytes =~= other.bytes);
        true
    }
}

impl Eq for Identity {

}

impl vstd::std_specs::cmp::PartialEqSpecImpl for Identity {
    open spec fn obeys_eq_spec() -> bool {
        true
    }

    open spec fn eq_spec(&self, other: &Self) -> bool {
        self.bytes == other.bytes
    }
}

impl Identity {
    /// Whether this is the identity that marks an empty slot.
    pub open spec fn spec_is_empty(self) -> bool {
        forall|j: int| 0 <= j < 32 ==> self.bytes[j] == 0
    }

    /// The identity that marks an empty slot.
    pub fn empty() -> (r: Self)
        ensures
            r.spec_is_empty(),
    {
        Identity { bytes: [0u8; 32] }
    }

    /// Whether this is the identity that marks an empty slot.
    pub fn is_empty(&self) -> (r: bool)
        ensures
            r == self.spec_is_empty(),
    {
        let mut i: usize = 0;
        while i < 32
            invariant
                i <= 32,
                forall|j: int| 0 <= j < i ==> self.bytes[j] == 0,
            decreases 32 - i,
        {
            if self.bytes[i] != 0 {
                return false;
            }
            i += 1;
        }
        true
    }
}

/// The name under which an oracle publishes a price: up to 24 bytes,
/// padded with zeroes.
#[derive(Clone, Copy, Debug)]
pub struct Symbol {
    pub data: [u8; 24],
}

impl PartialEq for Symbol {
    fn eq(&self, other: &Self) -> (r: bool) {
        let mut i: usize = 0;
        while i < 24
            invariant
                i <= 24,
                forall|j: int| 0 <= j < i ==> self.data[j] == other.data[j],
            decreases 24 - i,
        {
            if self.data[i] != other.data[i] {
                return false;
            }
            i += 1;
        }
        assert(self.data =~= other.data);
        true
    }
}

impl Eq for Symbol {

}

impl vstd::std_specs::cmp::PartialEqSpecImpl for Symbol {
    open spec fn obeys_eq_spec() -> bool {
        true
    }

    open spec fn eq_spec(&self, other: &Self) -> bool {
        self.data == other.data
    }
}

impl Default for Symbol {
    fn default() -> (r: Self)
        ensures
            r.spec_is_nil(),
    {
        Symbol { data: [0u8; 24] }
    }
}

impl Symbol {
    /// Whether the symbol names nothing: all its bytes are zero.
    pub open spec fn spec_is_nil(self) -> bool {
        forall|j: int| 0 <= j < 24 ==> self.data[j] == 0
    }

    /// Whether `self` spells `name`, padded with zeroes.
    pub open spec fn spells(self, name: Seq<u8>) -> bool {
        &&& name.len() <= 24
        &&& forall|j: int| 0 <= j < name.len() ==> self.data[j] == name[j]
        &&& forall|j: int| name.len() <= j < 24 ==> self.data[j] == 0
    }

    /// Whether the symbol names nothing.
    pub fn is_nil(&self) -> (r: bool)
        ensures
            r == self.spec_is_nil(),
    {
        let mut i: usize = 0;
        while i < 24
            invariant
                i <= 24,
                forall|j: int| 0 <= j < i ==> self.data[j] == 0,
            decreases 24 - i,
        {
            if self.data[i] != 0 {
                return false;
            }
            i += 1;
        }
        true
    }

    /// The symbol that spells `name`; there is none for a name of more
    /// than 24 bytes.
    pub fn from_bytes(name: &[u8]) -> (r: Option<Symbol>)
        ensures
            name@.len() > 24 ==> r.is_none(),
            name@.len() <= 24 ==> r.is_some() && r.unwrap().spells(name@),
    {
        if name.len() > 24 {
            return None;
        }
        let mut data: [u8; 24] = [0u8; 24];
        let mut i: usize = 0;
        while i < name.len()
            invariant
                i <= name@.len() <= 24,
                forall|j: int| 0 <= j < i ==> data[j] == name@[j],
                forall|j: int| i <= j < 24 ==> data[j] == 0,
            decreases name@.len() - i,
        {
            data[i] = name[i];
            i += 1;
        }
        Some(Symbol { data })
    }
}

impl Default for WrappedI80F48 {
    fn default() -> (r: Self)
        ensures
            r@ == 0,
    {
        WrappedI80F48 { data: 0 }
    }
}

/// The text that the fixed-point number with the given bits is written
/// as in decimal.
pub uninterp spec fn decimal_text(bits: i128) -> Seq<char>;

impl WrappedI80F48 {
    /// The number in decimal, as `FixedI128`'s `Display` writes it.
    #[verifier::external_body]
    pub fn to_string(&self) -> (r: String)
        ensures
            r@ == decimal_text(self.data),
    {
        format!("{}", fixed::types::I80F48::from_bits(self.data))
    }
}

impl From<u8> for WrappedI80F48 {
    fn from(x: u8) -> (r: Self) {
        match WrappedI80F48::from_int(x as i128) {
            Ok(v) => v,
            Err(_) => WrappedI80F48::zero(),
        }
    }
}

impl vstd::std_specs::convert::FromSpecImpl<u8> for WrappedI80F48 {
    open spec fn obeys_from_spec() -> bool {
        true
    }

    open spec fn from_spec(x: u8) -> Self {
        spec_whole(x as int)
    }
}

impl From<i8> for WrappedI80F48 {
    fn from(x: i8) -> (r: Self) {
        match WrappedI80F48::from_int(x as i128) {
            Ok(v) => v,
            Err(_) => WrappedI80F48::zero(),
        }
    }
}

impl vstd::std_specs::convert::FromSpecImpl<i8> for WrappedI80F48 {
    open spec fn obeys_from_spec() -> bool {
        true
    }

    open spec fn from_spec(x: i8) -> Self {
        spec_whole(x as int)
    }
}

impl From<u16> for WrappedI80F48 {
    fn from(x: u16) -> (r: Self) {
        match WrappedI80F48::from_int(x as i128) {
            Ok(v) => v,
            Err(_) => WrappedI80F48::zero(),
        }
    }
}

impl vstd::std_specs::convert::FromSpecImpl<u16> for WrappedI80F48 {
    open spec fn obeys_from_spec() -> bool {
        true
    }

    open spec fn from_spec(x: u16) -> Self {
        spec_whole(x as int)
    }
}

impl From<i16> for WrappedI80F48 {
    fn from(x: i16) -> (r: Self) {
        match WrappedI80F48::from_int(x as i128) {
            Ok(v) => v,
            Err(_) => WrappedI80F48::zero(),
        }
    }
}

impl vstd::std_specs::convert::FromSpecImpl<i16> for WrappedI80F48 {
    open spec fn obeys_from_spec() -> bool {
        true
    }

    open spec fn from_spec(x: i16) -> Self {
        spec_whole(x as int)
    }
}

impl From<u32> for WrappedI80F48 {
    fn from(x: u32) -> (r: Self) {
        match WrappedI80F48::from_int(x as i128) {
            Ok(v) => v,
            Err(_) => WrappedI80F48::zero(),
        }
    }
}

impl vstd::std_specs::convert::FromSpecImpl<u32> for WrappedI80F48 {
    open spec fn obeys_from_spec() -> bool {
        true
    }

    open spec fn from_spec(x: u32) -> Self {
        spec_whole(x as int)
    }
}

impl From<i32> for WrappedI80F48 {
    fn from(x: i32) -> (r: Self) {
        match WrappedI80F48::from_int(x as i128) {
            Ok(v) => v,
            Err(_) => WrappedI80F48::zero(),
        }
    }
}

impl vstd::std_specs::convert::FromSpecImpl<i32> for WrappedI80F48 {
    open spec fn obeys_from_spec() -> bool {
        true
    }

    open spec fn from_spec(x: i32) -> Self {
        spec_whole(x as int)
    }
}

impl From<u64> for WrappedI80F48 {
    fn from(x: u64) -> (r: Self) {
        match WrappedI80F48::from_int(x as i128) {
            Ok(v) => v,
            Err(_) => WrappedI80F48::zero(),
        }
    }
}

impl vstd::std_specs::convert::FromSpecImpl<u64> for WrappedI80F48 {
    open spec fn obeys_from_spec() -> bool {
        true
    }

    open spec fn from_spec(x: u64) -> Self {
        spec_whole(x as int)
    }
}

impl From<i64> for WrappedI80F48 {
    fn from(x: i64) -> (r: Self) {
        match WrappedI80F48::from_int(x as i128) {
            Ok(v) => v,
            Err(_) => WrappedI80F48::zero(),
        }
    }
}

impl vstd::std_specs::convert::FromSpecImpl<i64> for WrappedI80F48 {
    open spec fn obeys_from_spec() -> bool {
        true
    }

    open spec fn from_spec(x: i64) -> Self {
        spec_whole(x as int)
    }
}

} // verus!
