//! Arbitrary-precision integers for quantities and stock.
//!
//! A value is held as a sign and base-2^32 digits, least significant first,
//! and stands for the integer given by its view. The arithmetic itself is done
//! by `num_bigint`.

use vstd::prelude::*;

verus! {

/// The natural number that base-2^32 digits stand for, least significant
/// digit first.
pub open spec fn magnitude_value(digits: Seq<u32>) -> nat
    decreases digits.len(),
{
    if digits.len() == 0 {
        0
    } else {
        digits[0] as nat + 0x1_0000_0000 * magnitude_value(digits.drop_first())
    }
}

/// An integer of any size.
#[derive(Clone, Debug)]
pub struct BigInt {
    pub negative: bool,
    pub magnitude: Vec<u32>,
}

impl View for BigInt {
    type V = int;

    open spec fn view(&self) -> int {
        if self.negative {
            -(magnitude_value(self.magnitude@) as int)
        } else {
            magnitude_value(self.magnitude@) as int
        }
    }
}

/// Calls `num_bigint::BigInt::new` on both operands and subtracts them with
/// `-`. The digits handed over and taken back are base 2^32, least
/// significant first, as `new` and `to_u32_digits` document; the claim is
/// that the result stands for the exact difference.
#[verifier::external_body]
pub(crate) fn bigint_sub(a: &BigInt, b: &BigInt) -> (r: BigInt)
    ensures
        r@ == a@ - b@,
{
    let x = num_bigint::BigInt::new(
        if a.negative { num_bigint::Sign::Minus } else { num_bigint::Sign::Plus },
        a.magnitude.clone(),
    );
    let y = num_bigint::BigInt::new(
        if b.negative { num_bigint::Sign::Minus } else { num_bigint::Sign::Plus },
        b.magnitude.clone(),
    );
    let (sign, magnitude) = (x - y).to_u32_digits();
    BigInt { negative: sign == num_bigint::Sign::Minus, magnitude }
}

/// As `bigint_sub`, for the sum with `+`.
#[verifier::external_body]
pub(crate) fn bigint_add(a: &BigInt, b: &BigInt) -> (r: BigInt)
    ensures
        r@ == a@ + b@,
{
    let x = num_bigint::BigInt::new(
        if a.negative { num_bigint::Sign::Minus } else { num_bigint::Sign::Plus },
        a.magnitude.clone(),
    );
    let y = num_bigint::BigInt::new(
        if b.negative { num_bigint::Sign::Minus } else { num_bigint::Sign::Plus },
        b.magnitude.clone(),
    );
    let (sign, magnitude) = (x + y).to_u32_digits();
    BigInt { negative: sign == num_bigint::Sign::Minus, magnitude }
}

/// As `bigint_sub`, for the product with `*`.
#[verifier::external_body]
pub(crate) fn bigint_mul(a: &BigInt, b: &BigInt) -> (r: BigInt)
    ensures
        r@ == a@ * b@,
{
    let x = num_bigint::BigInt::new(
        if a.negative { num_bigint::Sign::Minus } else { num_bigint::Sign::Plus },
        a.magnitude.clone(),
    );
    let y = num_bigint::BigInt::new(
        if b.negative { num_bigint::Sign::Minus } else { num_bigint::Sign::Plus },
        b.magnitude.clone(),
    );
    let (sign, magnitude) = (x * y).to_u32_digits();
    BigInt { negative: sign == num_bigint::Sign::Minus, magnitude }
}

/// Calls `num_bigint::BigInt::new` on both operands and compares them with
/// `<`; the claim is that this is the order of the integers they stand for.
#[verifier::external_body]
pub(crate) fn bigint_lt(a: &BigInt, b: &BigInt) -> (r: bool)
    ensures
        r == (a@ < b@),
{
    let x = num_bigint::BigInt::new(
        if a.negative { num_bigint::Sign::Minus } else { num_bigint::Sign::Plus },
        a.magnitude.clone(),
    );
    let y = num_bigint::BigInt::new(
        if b.negative { num_bigint::Sign::Minus } else { num_bigint::Sign::Plus },
        b.magnitude.clone(),
    );
    x < y
}

impl BigInt {
    /// The integer zero.
    pub fn zero() -> (r: BigInt)
        ensures
            r@ == 0,
    {
        BigInt { negative: false, magnitude: Vec::new() }
    }

    /// The integer `n`.
    pub fn from_i64(n: i64) -> (r: BigInt)
        ensures
            r@ == n,
    {
        let negative = n < 0;
        let wide: i128 = n as i128;
        let abs: u64 = if wide < 0 { (-wide) as u64 } else { wide as u64 };
        let low: u32 = (abs % 0x1_0000_0000) as u32;
        let high: u32 = (abs / 0x1_0000_0000) as u32;
        let mut magnitude: Vec<u32> = Vec::new();
        magnitude.push(low);
        magnitude.push(high);
        proof {
            reveal_with_fuel(magnitude_value, 3);
        }
        BigInt { negative, magnitude }
    }

    /// The integer `n`.
    pub fn from_i128(n: i128) -> (r: BigInt)
        ensures
            r@ == n,
    {
        let negative = n < 0;
        let abs: u128 = if n == i128::MIN {
            0x8000_0000_0000_0000_0000_0000_0000_0000
        } else if n < 0 {
            (-n) as u128
        } else {
            n as u128
        };
        let first: u32 = (abs % 0x1_0000_0000) as u32;
        let above: u128 = abs / 0x1_0000_0000;
        let second: u32 = (above % 0x1_0000_0000) as u32;
        let above: u128 = above / 0x1_0000_0000;
        let third: u32 = (above % 0x1_0000_0000) as u32;
        let fourth: u32 = (above / 0x1_0000_0000) as u32;
        let mut magnitude: Vec<u32> = Vec::new();
        magnitude.push(first);
        magnitude.push(second);
        magnitude.push(third);
        magnitude.push(fourth);
        proof {
            let digits = magnitude@;
            assert(digits.drop_first().drop_first().drop_first().drop_first() =~= Seq::<
                u32,
            >::empty());
            reveal_with_fuel(magnitude_value, 5);
        }
        BigInt { negative, magnitude }
    }

    /// A copy of this integer.
    pub fn duplicate(&self) -> (r: BigInt)
        ensures
            r@ == self@,
            r.negative == self.negative,
            r.magnitude@ == self.magnitude@,
    {
        let mut magnitude: Vec<u32> = Vec::new();
        let mut i: usize = 0;
        while i < self.magnitude.len()
            invariant
                i <= self.magnitude.len(),
                magnitude@ == self.magnitude@.subrange(0, i as int),
            decreases self.magnitude.len() - i,
        {
            magnitude.push(self.magnitude[i]);
            i += 1;
        }
        assert(magnitude@ =~= self.magnitude@);
        BigInt { negative: self.negative, magnitude }
    }

    /// Whether both stand for the same integer, whatever their digits.
    pub fn equals(&self, other: &BigInt) -> (r: bool)
        ensures
            r == (self@ == other@),
    {
        !bigint_lt(self, other) && !bigint_lt(other, self)
    }

    /// Whether this integer is greater than zero.
    pub fn is_positive(&self) -> (r: bool)
        ensures
            r == (self@ > 0),
    {
        let zero = BigInt::zero();
        bigint_lt(&zero, self)
    }
}

} // verus!
