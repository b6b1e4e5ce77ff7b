//! Fixed-point money amounts.
//!
//! An amount is a signed 96-bit mantissa and a scale of at most 28: it stands
//! for `mantissa / 10^scale`. Sums, differences and products are computed by
//! `rust_decimal`, which may round a result that does not fit. What it
//! returns is therefore referred to by name, never taken to be exact, and
//! checked: `exact_add`, `exact_sub` and `exact_mul` hand a result on only
//! where it is the true sum, difference or product.

use vstd::prelude::*;
use crate::bigint::{bigint_add, bigint_mul, bigint_sub, BigInt};

verus! {

/// The largest mantissa: 2^96 - 1.
pub const MAX_MANTISSA: i128 = 0xFFFF_FFFF_FFFF_FFFF_FFFF_FFFF;

/// The largest scale.
pub const MAX_SCALE: u32 = 28;

/// What `rust_decimal` returns for the checked sum of two amounts, each given
/// as mantissa and scale; `None` where it reports overflow.
pub uninterp spec fn decimal_sum(a: (int, nat), b: (int, nat)) -> Option<(int, nat)>;

/// What `rust_decimal` returns for the checked difference `a - b`.
pub uninterp spec fn decimal_difference(a: (int, nat), b: (int, nat)) -> Option<(int, nat)>;

/// What `rust_decimal` returns for the checked product of two amounts.
pub uninterp spec fn decimal_product(a: (int, nat), b: (int, nat)) -> Option<(int, nat)>;

/// Ten to the power of `n`.
pub open spec fn power_of_ten(n: nat) -> int
    decreases n,
{
    if n == 0 {
        1
    } else {
        10 * power_of_ten((n - 1) as nat)
    }
}

/// An amount in units of 10^-28, the finest any amount resolves.
pub open spec fn units(v: (int, nat)) -> int {
    v.0 * power_of_ten((MAX_SCALE - v.1) as nat)
}

/// The sum of two amounts as `rust_decimal` gives it, where that is their
/// sum.
pub open spec fn exact_sum(a: (int, nat), b: (int, nat)) -> Option<(int, nat)> {
    match decimal_sum(a, b) {
        Some(sum) if units(sum) == units(a) + units(b) => Some(sum),
        _ => None,
    }
}

/// The difference `a - b` as `rust_decimal` gives it, where that is their
/// difference.
pub open spec fn exact_difference(a: (int, nat), b: (int, nat)) -> Option<(int, nat)> {
    match decimal_difference(a, b) {
        Some(difference) if units(difference) == units(a) - units(b) => Some(difference),
        _ => None,
    }
}

/// The product of two amounts as `rust_decimal` gives it, where that is
/// their product.
pub open spec fn exact_product(a: (int, nat), b: (int, nat)) -> Option<(int, nat)> {
    match decimal_product(a, b) {
        Some(product) if units(product) * power_of_ten(MAX_SCALE as nat) == units(a) * units(b) =>
            Some(product),
        _ => None,
    }
}

/// Whether an amount that may be absent is the one an operation returned.
pub open spec fn returned(got: Option<Decimal>, value: Option<(int, nat)>) -> bool {
    match (got, value) {
        (Some(d), Some(v)) => d@ == v,
        (None, None) => true,
        _ => false,
    }
}

/// Every power of ten is positive.
pub proof fn lemma_power_of_ten_positive(n: nat)
    ensures
        power_of_ten(n) > 0,
    decreases n,
{
    if n > 0 {
        lemma_power_of_ten_positive((n - 1) as nat);
    }
}

/// An exact product with a whole amount is worth that many times the other.
pub proof fn lemma_exact_product_of_whole(n: int, b: (int, nat), product: (int, nat))
    requires
        exact_product((n, 0nat), b) == Some(product),
    ensures
        units(product) == n * units(b),
{
    let scale = power_of_ten(MAX_SCALE as nat);
    lemma_power_of_ten_positive(MAX_SCALE as nat);
    assert((n * scale) * units(b) == (n * units(b)) * scale) by (nonlinear_arith);
    assert(units(product) == n * units(b)) by (nonlinear_arith)
        requires
            units(product) * scale == (n * units(b)) * scale,
            scale > 0,
    ;
}

/// Whether a mantissa and a scale are within what an amount can hold.
pub open spec fn representable(mantissa: int, scale: int) -> bool {
    -MAX_MANTISSA <= mantissa <= MAX_MANTISSA && 0 <= scale <= MAX_SCALE
}

/// A money amount.
#[derive(Clone, Copy, Debug)]
pub struct Decimal {
    pub(crate) mantissa: i128,
    pub(crate) scale: u32,
}

impl View for Decimal {
    type V = (int, nat);

    closed spec fn view(&self) -> (int, nat) {
        (self.mantissa as int, self.scale as nat)
    }
}

/// Builds both operands with `rust_decimal::Decimal::from_i128_with_scale`
/// and calls `checked_add`; the result is read back with `mantissa` and
/// `scale`, which every `rust_decimal::Decimal` keeps within 96 bits and 28.
/// Nothing is claimed of the sum beyond its name.
#[verifier::external_body]
pub(crate) fn decimal_checked_add(a: Decimal, b: Decimal) -> (r: Option<Decimal>)
    ensures
        r.is_some() == decimal_sum(a@, b@).is_some(),
        r.is_some() ==> decimal_sum(a@, b@) == Some(r.unwrap()@),
{
    let x = rust_decimal::Decimal::from_i128_with_scale(a.mantissa, a.scale);
    let y = rust_decimal::Decimal::from_i128_with_scale(b.mantissa, b.scale);
    match x.checked_add(y) {
        Some(d) => Some(Decimal { mantissa: d.mantissa(), scale: d.scale() }),
        None => None,
    }
}

/// As `decimal_checked_add`, for `rust_decimal::Decimal::checked_sub`.
#[verifier::external_body]
pub(crate) fn decimal_checked_sub(a: Decimal, b: Decimal) -> (r: Option<Decimal>)
    ensures
        r.is_some() == decimal_difference(a@, b@).is_some(),
        r.is_some() ==> decimal_difference(a@, b@) == Some(r.unwrap()@),
{
    let x = rust_decimal::Decimal::from_i128_with_scale(a.mantissa, a.scale);
    let y = rust_decimal::Decimal::from_i128_with_scale(b.mantissa, b.scale);
    match x.checked_sub(y) {
        Some(d) => Some(Decimal { mantissa: d.mantissa(), scale: d.scale() }),
        None => None,
    }
}

/// As `decimal_checked_add`, for `rust_decimal::Decimal::checked_mul`.
#[verifier::external_body]
pub(crate) fn decimal_checked_mul(a: Decimal, b: Decimal) -> (r: Option<Decimal>)
    ensures
        r.is_some() == decimal_product(a@, b@).is_some(),
        r.is_some() ==> decimal_product(a@, b@) == Some(r.unwrap()@),
{
    let x = rust_decimal::Decimal::from_i128_with_scale(a.mantissa, a.scale);
    let y = rust_decimal::Decimal::from_i128_with_scale(b.mantissa, b.scale);
    match x.checked_mul(y) {
        Some(d) => Some(Decimal { mantissa: d.mantissa(), scale: d.scale() }),
        None => None,
    }
}

/// Builds both operands with `rust_decimal::Decimal::from_i128_with_scale`
/// and compares them with `<`, which orders amounts by the numbers they
/// stand for, whatever their scales.
#[verifier::external_body]
pub(crate) fn decimal_lt(a: Decimal, b: Decimal) -> (r: bool)
    ensures
        r == (units(a@) < units(b@)),
{
    let x = rust_decimal::Decimal::from_i128_with_scale(a.mantissa, a.scale);
    let y = rust_decimal::Decimal::from_i128_with_scale(b.mantissa, b.scale);
    x < y
}

/// Prints the integer with `num_bigint::BigInt::to_string` and reads it with
/// `rust_decimal::Decimal::from_str_exact`, which takes a run of digits with
/// an optional sign as a whole number of scale 0 and fails once the digits
/// pass 96 bits.
#[verifier::external_body]
pub(crate) fn decimal_from_bigint(n: &BigInt) -> (r: Option<Decimal>)
    ensures
        r.is_some() == representable(n@, 0),
        r.is_some() ==> r.unwrap()@ == (n@, 0nat),
{
    let x = num_bigint::BigInt::new(
        if n.negative { num_bigint::Sign::Minus } else { num_bigint::Sign::Plus },
        n.magnitude.clone(),
    );
    match rust_decimal::Decimal::from_str_exact(&x.to_string()) {
        Ok(d) => Some(Decimal { mantissa: d.mantissa(), scale: d.scale() }),
        Err(_) => None,
    }
}

/// Ten to the power of `n`.
fn ten_to(n: u32) -> (r: BigInt)
    ensures
        r@ == power_of_ten(n as nat),
{
    let ten = BigInt::from_i64(10);
    let mut power = BigInt::from_i64(1);
    let mut i: u32 = 0;
    while i < n
        invariant
            i <= n,
            ten@ == 10,
            power@ == power_of_ten(i as nat),
        decreases n - i,
    {
        power = bigint_mul(&ten, &power);
        i += 1;
    }
    power
}

/// What an amount is worth in units of 10^-28.
fn units_of(amount: Decimal) -> (r: BigInt)
    ensures
        r@ == units(amount@),
{
    proof {
        use_type_invariant(&amount);
    }
    let mantissa = BigInt::from_i128(amount.mantissa);
    let scale = ten_to(MAX_SCALE - amount.scale);
    bigint_mul(&mantissa, &scale)
}

impl Decimal {
    #[verifier::type_invariant]
    closed spec fn within_limits(self) -> bool {
        representable(self.mantissa as int, self.scale as int)
    }

    /// The amount `mantissa / 10^scale`, where both are within limits.
    pub fn new(mantissa: i128, scale: u32) -> (r: Option<Decimal>)
        ensures
            r.is_some() == representable(mantissa as int, scale as int),
            r.is_some() ==> r.unwrap()@ == (mantissa as int, scale as nat),
    {
        if -MAX_MANTISSA <= mantissa && mantissa <= MAX_MANTISSA && scale <= MAX_SCALE {
            Some(Decimal { mantissa, scale })
        } else {
            None
        }
    }

    /// The whole amount `n`.
    pub fn from_i64(n: i64) -> (r: Decimal)
        ensures
            r@ == (n as int, 0nat),
    {
        Decimal { mantissa: n as i128, scale: 0 }
    }

    /// The amount zero.
    pub fn zero() -> (r: Decimal)
        ensures
            r@ == (0int, 0nat),
    {
        Decimal { mantissa: 0, scale: 0 }
    }

    /// The mantissa.
    pub fn mantissa(&self) -> (m: i128)
        ensures
            m == self@.0,
            -MAX_MANTISSA <= m <= MAX_MANTISSA,
    {
        proof {
            use_type_invariant(self);
        }
        self.mantissa
    }

    /// The scale.
    pub fn scale(&self) -> (s: u32)
        ensures
            s == self@.1,
            s <= MAX_SCALE,
    {
        proof {
            use_type_invariant(self);
        }
        self.scale
    }

    /// The sum, where `rust_decimal` gives it and it is exact.
    pub fn exact_add(&self, other: &Decimal) -> (r: Option<Decimal>)
        ensures
            returned(r, exact_sum(self@, other@)),
            r matches Some(sum) ==> units(sum@) == units(self@) + units(other@),
    {
        let sum = match decimal_checked_add(*self, *other) {
            Some(sum) => sum,
            None => { return None; },
        };
        let expected = bigint_add(&units_of(*self), &units_of(*other));
        if units_of(sum).equals(&expected) {
            Some(sum)
        } else {
            None
        }
    }

    /// The difference `self - other`, where `rust_decimal` gives it and it is
    /// exact.
    pub fn exact_sub(&self, other: &Decimal) -> (r: Option<Decimal>)
        ensures
            returned(r, exact_difference(self@, other@)),
            r matches Some(difference) ==> units(difference@) == units(self@) - units(other@),
    {
        let difference = match decimal_checked_sub(*self, *other) {
            Some(difference) => difference,
            None => { return None; },
        };
        let expected = bigint_sub(&units_of(*self), &units_of(*other));
        if units_of(difference).equals(&expected) {
            Some(difference)
        } else {
            None
        }
    }

    /// The product, where `rust_decimal` gives it and it is exact.
    pub fn exact_mul(&self, other: &Decimal) -> (r: Option<Decimal>)
        ensures
            returned(r, exact_product(self@, other@)),
            r matches Some(product) ==> units(product@) * power_of_ten(MAX_SCALE as nat) == units(
                self@,
            ) * units(other@),
    {
        let product = match decimal_checked_mul(*self, *other) {
            Some(product) => product,
            None => { return None; },
        };
        let expected = bigint_mul(&units_of(*self), &units_of(*other));
        let scaled = bigint_mul(&units_of(product), &ten_to(MAX_SCALE));
        if scaled.equals(&expected) {
            Some(product)
        } else {
            None
        }
    }

    /// Whether both amounts are the same number, whatever their scales.
    pub fn equals(&self, other: &Decimal) -> (r: bool)
        ensures
            r == (units(self@) == units(other@)),
    {
        !decimal_lt(*self, *other) && !decimal_lt(*other, *self)
    }
}

} // verus!
