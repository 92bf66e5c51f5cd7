//! 256-bit unsigned arithmetic for fee and vesting computations.
//!
//! Amounts are 128-bit; a product of two of them needs twice the width. The
//! arithmetic itself is done by `primitive_types::U256`. [`Wide`] holds the
//! four little-endian 64-bit words of such a number, so that verified code
//! can read them.
use primitive_types::U256;
use vstd::prelude::*;

verus! {

/// Two to the power 64.
pub open spec fn pow2_64() -> nat {
    0x1_0000_0000_0000_0000nat
}

/// Two to the power 128.
pub open spec fn pow2_128() -> nat {
    0x1_0000_0000_0000_0000_0000_0000_0000_0000nat
}

/// Two to the power 192.
pub open spec fn pow2_192() -> nat {
    0x1_0000_0000_0000_0000_0000_0000_0000_0000_0000_0000_0000_0000nat
}

/// Two to the power 256: the first number that a [`Wide`] cannot hold.
pub open spec fn pow2_256() -> nat {
    0x1_0000_0000_0000_0000_0000_0000_0000_0000_0000_0000_0000_0000_0000_0000_0000_0000nat
}

/// The number that four little-endian 64-bit words stand for.
pub open spec fn words_value(words: Seq<u64>) -> nat {
    (words[0] + words[1] * pow2_64() + words[2] * pow2_128() + words[3] * pow2_192()) as nat
}

/// An unsigned 256-bit number, least significant word first.
#[derive(Clone, Copy, Debug)]
pub struct Wide {
    pub words: [u64; 4],
}

impl View for Wide {
    type V = nat;

    open spec fn view(&self) -> nat {
        words_value(self.words@)
    }
}

/// `U256::from(u128)`: the 256-bit number with the same value.
#[verifier::external_body]
fn wide_from_u128(value: u128) -> (r: Wide)
    ensures
        r@ == value,
{
    Wide { words: U256::from(value).0 }
}

/// `U256::checked_mul`: the product, or `None` if it does not fit in 256
/// bits.
#[verifier::external_body]
fn wide_checked_mul(a: Wide, b: Wide) -> (r: Option<Wide>)
    ensures
        match r {
            Some(p) => p@ == a@ * b@,
            None => a@ * b@ >= pow2_256(),
        },
{
    match U256(a.words).checked_mul(U256(b.words)) {
        Some(p) => Some(Wide { words: p.0 }),
        None => None,
    }
}

/// `U256::checked_div`: the quotient rounded down, or `None` if the divisor
/// is zero.
#[verifier::external_body]
fn wide_checked_div(a: Wide, b: Wide) -> (r: Option<Wide>)
    ensures
        match r {
            Some(q) => b@ != 0 && q@ == a@ / b@,
            None => b@ == 0,
        },
{
    match U256(a.words).checked_div(U256(b.words)) {
        Some(q) => Some(Wide { words: q.0 }),
        None => None,
    }
}

/// `U256::as_u128`: the same value as a `u128`. The outside function panics
/// on a number that does not fit, so those are left out.
#[verifier::external_body]
fn wide_as_u128(a: Wide) -> (r: u128)
    requires
        a@ <= u128::MAX,
    ensures
        r == a@,
{
    U256(a.words).as_u128()
}

/// `U256::low_u128`: the two low words, that is the value modulo two to the
/// power 128.
#[verifier::external_body]
fn wide_low_u128(a: Wide) -> (r: u128)
    ensures
        r == a@ % pow2_128(),
{
    U256(a.words).low_u128()
}

impl Wide {
    /// The 256-bit number with the value of `value`.
    pub fn from_u128(value: u128) -> (r: Wide)
        ensures
            r@ == value,
    {
        wide_from_u128(value)
    }

    /// The product, or `None` exactly when it needs more than 256 bits.
    pub fn checked_mul(self, other: Wide) -> (r: Option<Wide>)
        ensures
            r is Some <==> self@ * other@ < pow2_256(),
            r matches Some(p) ==> p@ == self@ * other@,
    {
        wide_checked_mul(self, other)
    }

    /// The quotient rounded down, or `None` exactly when `other` is zero.
    pub fn checked_div(self, other: Wide) -> (r: Option<Wide>)
        ensures
            r is Some <==> other@ != 0,
            r matches Some(q) ==> q@ == self@ / other@,
    {
        wide_checked_div(self, other)
    }

    /// Whether the number fits in 128 bits.
    pub fn fits_u128(&self) -> (r: bool)
        ensures
            r <==> self@ <= u128::MAX,
    {
        self.words[2] == 0 && self.words[3] == 0
    }

    /// The value as a `u128`, or `None` exactly when it does not fit.
    pub fn to_u128(self) -> (r: Option<u128>)
        ensures
            r is Some <==> self@ <= u128::MAX,
            r matches Some(v) ==> v == self@,
    {
        if self.fits_u128() {
            Some(wide_as_u128(self))
        } else {
            None
        }
    }

    /// The value modulo two to the power 128.
    pub fn low_u128(self) -> (r: u128)
        ensures
            r == self@ % pow2_128(),
    {
        wide_low_u128(self)
    }
}

} // verus!
