//! Exact decimal amounts (prices, quantities, ratios) in the form `mantissa * 10^-scale`,
//! with the arithmetic that the library needs done by `rust_decimal`.

use rust_decimal::Decimal;
use vstd::prelude::*;

verus! {

/// Largest magnitude of a mantissa: 96 bits.
pub const MAX_MANTISSA: i128 = 0xFFFF_FFFF_FFFF_FFFF_FFFF_FFFF;
/// Largest number of digits after the decimal point.
pub const MAX_SCALE: u32 = 28;

/// A decimal number `mantissa / 10^scale`, held as the plain parts of a `rust_decimal::Decimal`.
#[derive(Debug, Clone, Copy, PartialEq, Eq, Structural)]
pub struct Dec {
    pub mantissa: i128,
    pub scale: u32,
}

/// `10^n`.
pub open spec fn pow10(n: nat) -> int
    decreases n,
{
    if n == 0 {
        1
    } else {
        10 * pow10((n - 1) as nat)
    }
}

impl Dec {
    /// The parts lie in the range that a `rust_decimal::Decimal` can hold.
    pub open spec fn valid(self) -> bool {
        -MAX_MANTISSA <= self.mantissa <= MAX_MANTISSA && self.scale <= MAX_SCALE
    }

    /// The number is strictly greater than zero.
    pub open spec fn is_positive(self) -> bool {
        self.mantissa > 0
    }

    /// The integer part of the number, rounded towards zero.
    pub open spec fn truncated(self) -> int {
        if self.mantissa >= 0 {
            (self.mantissa as int) / pow10(self.scale as nat)
        } else {
            -((-(self.mantissa as int)) / pow10(self.scale as nat))
        }
    }

    /// The largest integer not above the number.
    pub open spec fn floored(self) -> int {
        (self.mantissa as int) / pow10(self.scale as nat)
    }

    /// Zero, with no digits after the decimal point.
    pub fn zero() -> (r: Dec)
        ensures
            r == (Dec { mantissa: 0, scale: 0 }),
            r.valid(),
    {
        Dec { mantissa: 0, scale: 0 }
    }

    /// One, with no digits after the decimal point.
    pub fn one() -> (r: Dec)
        ensures
            r == (Dec { mantissa: 1, scale: 0 }),
            r.valid(),
    {
        Dec { mantissa: 1, scale: 0 }
    }

    /// Whether the number is zero or below: the sign of the mantissa decides.
    pub fn is_non_positive(&self) -> (r: bool)
        ensures
            r == (self.mantissa <= 0),
    {
        self.mantissa <= 0
    }

    /// Whether the number is exactly zero.
    pub fn is_zero(&self) -> (r: bool)
        ensures
            r == (self.mantissa == 0),
    {
        self.mantissa == 0
    }
}

/// The outcome of `rust_decimal`'s checked multiplication.
pub uninterp spec fn decimal_product(a: Dec, b: Dec) -> Option<Dec>;

/// The outcome of `rust_decimal`'s checked addition.
pub uninterp spec fn decimal_sum(a: Dec, b: Dec) -> Option<Dec>;

/// The outcome of `rust_decimal`'s checked subtraction.
pub uninterp spec fn decimal_difference(a: Dec, b: Dec) -> Option<Dec>;

/// The outcome of `rust_decimal`'s checked division.
pub uninterp spec fn decimal_quotient(a: Dec, b: Dec) -> Option<Dec>;

/// The result of `rust_decimal::Decimal::floor`: the integer part rounded down, at scale 0.
pub open spec fn floor_spec(a: Dec) -> Dec {
    Dec { mantissa: a.floored() as i128, scale: 0 }
}

/// The result of `ToPrimitive::to_i64` on a `Decimal`: the truncated value when it fits.
pub open spec fn to_i64_spec(a: Dec) -> Option<i64> {
    if i64::MIN <= a.truncated() <= i64::MAX {
        Some(a.truncated() as i64)
    } else {
        None
    }
}

/// The larger of two scales.
pub open spec fn common_scale(a: Dec, b: Dec) -> u32 {
    if a.scale >= b.scale {
        a.scale
    } else {
        b.scale
    }
}

/// The mantissa of `a` written at the larger scale `s`: `mantissa * 10^(s - scale)`.
pub open spec fn aligned_mantissa(a: Dec, s: u32) -> int {
    a.mantissa * pow10((s - a.scale) as nat)
}

/// The operands that `rust_decimal`'s 64-bit addition path aligns and adds exactly: both
/// non-zero, each mantissa below `2^64`, and their scales at most 19 apart.
pub open spec fn aligns_exactly(a: Dec, b: Dec) -> bool {
    &&& a.mantissa != 0 && b.mantissa != 0
    &&& -0x1_0000_0000_0000_0000 < a.mantissa < 0x1_0000_0000_0000_0000
    &&& -0x1_0000_0000_0000_0000 < b.mantissa < 0x1_0000_0000_0000_0000
    &&& -19 <= a.scale - b.scale <= 19
}

/// Multiplies by `Decimal::checked_mul`. The contract states the exact product when it needs
/// no rounding (mantissa within 96 bits, scale at most 28); in other cases the source rounds
/// the product or reports overflow, and only the name `decimal_product` is stated.
#[verifier::external_body]
pub(crate) fn dec_mul(a: Dec, b: Dec) -> (r: Option<Dec>)
    requires
        a.valid(),
        b.valid(),
    ensures
        r == decimal_product(a, b),
        r matches Some(v) ==> v.valid(),
        a.mantissa == 0 || b.mantissa == 0 ==> r == Some(Dec { mantissa: 0, scale: 0 }),
        a.mantissa != 0 && b.mantissa != 0 && -MAX_MANTISSA <= a.mantissa * b.mantissa
            <= MAX_MANTISSA && a.scale + b.scale <= MAX_SCALE ==> r == Some(
            Dec { mantissa: (a.mantissa * b.mantissa) as i128, scale: (a.scale + b.scale) as u32 },
        ),
{
    let x = Decimal::from_i128_with_scale(a.mantissa, a.scale);
    let y = Decimal::from_i128_with_scale(b.mantissa, b.scale);
    match x.checked_mul(y) {
        Some(d) => Some(Dec { mantissa: d.mantissa(), scale: d.scale() }),
        None => None,
    }
}

/// Adds by `Decimal::checked_add`. The contract states the exact sum of two numbers of the
/// same scale whose sum fits in 96 bits, and of two numbers of different scales that the
/// source aligns to the larger scale without loss (`aligns_exactly`) when the aligned sum
/// fits in 96 bits; for other operands only the name `decimal_sum` is stated (the source
/// may then round or report overflow).
#[verifier::external_body]
pub(crate) fn dec_add(a: Dec, b: Dec) -> (r: Option<Dec>)
    requires
        a.valid(),
        b.valid(),
    ensures
        r == decimal_sum(a, b),
        r matches Some(v) ==> v.valid(),
        a.scale == b.scale && -MAX_MANTISSA <= a.mantissa + b.mantissa <= MAX_MANTISSA ==> r
            == Some(Dec { mantissa: (a.mantissa + b.mantissa) as i128, scale: a.scale }),
        ({
            let s = common_scale(a, b);
            let m = aligned_mantissa(a, s) + aligned_mantissa(b, s);
            aligns_exactly(a, b) && -MAX_MANTISSA <= m <= MAX_MANTISSA ==> r == Some(
                Dec { mantissa: m as i128, scale: s },
            )
        }),
{
    let x = Decimal::from_i128_with_scale(a.mantissa, a.scale);
    let y = Decimal::from_i128_with_scale(b.mantissa, b.scale);
    match x.checked_add(y) {
        Some(d) => Some(Dec { mantissa: d.mantissa(), scale: d.scale() }),
        None => None,
    }
}

/// Subtracts by `Decimal::checked_sub`. The contract states the exact difference of two
/// numbers of the same scale whose difference fits in 96 bits, and of two numbers that the
/// source aligns to the larger scale without loss (`aligns_exactly`) when the aligned
/// difference fits in 96 bits; for other operands only the name `decimal_difference` is
/// stated.
#[verifier::external_body]
pub(crate) fn dec_sub(a: Dec, b: Dec) -> (r: Option<Dec>)
    requires
        a.valid(),
        b.valid(),
    ensures
        r == decimal_difference(a, b),
        r matches Some(v) ==> v.valid(),
        a.scale == b.scale && -MAX_MANTISSA <= a.mantissa - b.mantissa <= MAX_MANTISSA ==> r
            == Some(Dec { mantissa: (a.mantissa - b.mantissa) as i128, scale: a.scale }),
        ({
            let s = common_scale(a, b);
            let m = aligned_mantissa(a, s) - aligned_mantissa(b, s);
            aligns_exactly(a, b) && -MAX_MANTISSA <= m <= MAX_MANTISSA ==> r == Some(
                Dec { mantissa: m as i128, scale: s },
            )
        }),
{
    let x = Decimal::from_i128_with_scale(a.mantissa, a.scale);
    let y = Decimal::from_i128_with_scale(b.mantissa, b.scale);
    match x.checked_sub(y) {
        Some(d) => Some(Dec { mantissa: d.mantissa(), scale: d.scale() }),
        None => None,
    }
}

/// Divides by `Decimal::checked_div`. The contract states that division by zero gives `None`
/// and that the quotient of two positive numbers is not negative; the digits of a quotient
/// that the source rounds to 28 significant places are left to the name `decimal_quotient`.
#[verifier::external_body]
pub(crate) fn dec_div(a: Dec, b: Dec) -> (r: Option<Dec>)
    requires
        a.valid(),
        b.valid(),
    ensures
        r == decimal_quotient(a, b),
        r matches Some(v) ==> v.valid(),
        b.mantissa == 0 ==> r is None,
        a.mantissa > 0 && b.mantissa > 0 ==> (r matches Some(v) ==> v.mantissa >= 0),
{
    let x = Decimal::from_i128_with_scale(a.mantissa, a.scale);
    let y = Decimal::from_i128_with_scale(b.mantissa, b.scale);
    match x.checked_div(y) {
        Some(d) => Some(Dec { mantissa: d.mantissa(), scale: d.scale() }),
        None => None,
    }
}

/// Rounds down by `Decimal::floor`, which gives the largest integer not above the number,
/// at scale 0.
#[verifier::external_body]
pub(crate) fn dec_floor(a: Dec) -> (r: Dec)
    requires
        a.valid(),
    ensures
        r == floor_spec(a),
        r.valid(),
{
    let d = Decimal::from_i128_with_scale(a.mantissa, a.scale).floor();
    Dec { mantissa: d.mantissa(), scale: d.scale() }
}

/// Converts by `ToPrimitive::to_i64`, which truncates towards zero and gives `None` when the
/// integer part does not fit in an `i64`.
#[verifier::external_body]
pub(crate) fn dec_to_i64(a: Dec) -> (r: Option<i64>)
    requires
        a.valid(),
    ensures
        r == to_i64_spec(a),
{
    rust_decimal::prelude::ToPrimitive::to_i64(&Decimal::from_i128_with_scale(a.mantissa, a.scale))
}

} // verus!
