//! Fixed-point decimal numbers, computed by `rust_decimal`.
//!
//! A decimal is held here as the two plain values that `rust_decimal` reads
//! it by: a signed mantissa of at most 96 bits and a scale (a number of
//! fractional digits) of at most 28. Every operation converts to
//! `rust_decimal::Decimal`, makes one call, and converts back.

use vstd::prelude::*;
use vstd::arithmetic::power::pow;
use rust_decimal::Decimal;
use crate::text::digit_char;

verus! {

/// The largest mantissa that a decimal can hold: 2^96 - 1.
pub const MAX_MANTISSA: i128 = 0xFFFF_FFFF_FFFF_FFFF_FFFF_FFFFi128;

/// The largest scale that a decimal can hold.
pub const MAX_SCALE: u32 = 28;

/// The value `mantissa / 10^scale`.
#[derive(Debug, Clone, Copy)]
pub struct Dec {
    pub mantissa: i128,
    pub scale: u32,
}

impl Dec {
    /// A mantissa and a scale that a decimal can hold.
    pub open spec fn wf(self) -> bool {
        &&& -MAX_MANTISSA <= self.mantissa <= MAX_MANTISSA
        &&& self.scale <= MAX_SCALE
    }

    pub open spec fn pair(self) -> (i128, u32) {
        (self.mantissa, self.scale)
    }
}

/// The error that `rust_decimal` reports when a text is no decimal.
#[verifier::external_type_specification]
#[verifier::external_body]
pub struct ExDecimalError(rust_decimal::Error);

/// The decimal that `Decimal::from_str` reads from a text, as (mantissa,
/// scale), or `None` where it reports an error.
pub uninterp spec fn decimal_parse(text: Seq<char>) -> Option<(i128, u32)>;

/// What `Decimal::checked_add` returns for two decimals: `None` on overflow.
pub uninterp spec fn decimal_sum(a: i128, a_scale: u32, b: i128, b_scale: u32) -> Option<(i128, u32)>;

/// What `Decimal::checked_mul` returns for two decimals: `None` on overflow.
pub uninterp spec fn decimal_product(a: i128, a_scale: u32, b: i128, b_scale: u32) -> Option<(i128, u32)>;

/// What `Decimal::checked_div` returns for two decimals: `None` on overflow
/// or division by zero.
pub uninterp spec fn decimal_quotient(a: i128, a_scale: u32, b: i128, b_scale: u32) -> Option<(i128, u32)>;

/// The decimal digits of `n`, most significant first; none for zero.
pub open spec fn digits(n: nat) -> Seq<char>
    decreases n,
{
    if n == 0 {
        seq![]
    } else {
        digits(n / 10).push(digit_char(n % 10))
    }
}

/// `k` zero digits.
pub open spec fn zeros(k: nat) -> Seq<char> {
    Seq::new(k, |i: int| '0')
}

/// The text that `Decimal`'s `Display` writes for a decimal: a minus sign
/// where it is negative, then the digits of its magnitude, padded with
/// leading zeros to at least `scale` digits, with a point before the last
/// `scale` digits and a `0` before the point where no digit is left there;
/// `0` for zero with no fractional digits.
pub open spec fn decimal_display(mantissa: i128, scale: u32) -> Seq<char> {
    let d = digits(abs(mantissa as int) as nat);
    let p = if d.len() < scale { zeros((scale - d.len()) as nat) + d } else { d };
    let w = p.len() - scale;
    let body = if scale == 0 {
        if p.len() == 0 { seq!['0'] } else { p }
    } else {
        (if w == 0 { seq!['0'] } else { p.subrange(0, w) }) + seq!['.'] + p.subrange(w, p.len() as int)
    };
    (if mantissa < 0 { seq!['-'] } else { seq![] }) + body
}

pub open spec fn dec_sum(a: (i128, u32), b: (i128, u32)) -> Option<(i128, u32)> {
    decimal_sum(a.0, a.1, b.0, b.1)
}

pub open spec fn dec_product(a: (i128, u32), b: (i128, u32)) -> Option<(i128, u32)> {
    decimal_product(a.0, a.1, b.0, b.1)
}

pub open spec fn dec_quotient(a: (i128, u32), b: (i128, u32)) -> Option<(i128, u32)> {
    decimal_quotient(a.0, a.1, b.0, b.1)
}

pub open spec fn dec_text(a: (i128, u32)) -> Seq<char> {
    decimal_display(a.0, a.1)
}

pub open spec fn abs(m: int) -> int {
    if m < 0 { -m } else { m }
}

/// A decimal rounded to `dp` fractional digits, halves going to the even
/// neighbour ("banker's rounding"); one with `dp` or fewer fractional digits
/// stays as it is.
pub open spec fn rounded(m: i128, scale: u32, dp: u32) -> (i128, u32) {
    if scale <= dp {
        (m, scale)
    } else {
        let p = pow(10, (scale - dp) as nat);
        let q = abs(m as int) / p;
        let r = abs(m as int) % p;
        let q2 = if 2 * r > p || (2 * r == p && q % 2 == 1) { q + 1 } else { q };
        ((if m < 0 { -q2 } else { q2 }) as i128, dp)
    }
}

/// Reads a decimal from a text, as `Decimal::from_str` does.
#[verifier::external_body]
pub(crate) fn dec_from_str(text: &str) -> (r: Result<Dec, rust_decimal::Error>)
    ensures
        match r {
            Ok(d) => decimal_parse(text@) == Some(d.pair()) && d.wf(),
            Err(_) => decimal_parse(text@) is None,
        },
{
    match <Decimal as core::str::FromStr>::from_str(text) {
        Ok(d) => Ok(Dec { mantissa: d.mantissa(), scale: d.scale() }),
        Err(e) => Err(e),
    }
}

/// `a + b`, as `Decimal::checked_add` computes it.
#[verifier::external_body]
pub(crate) fn dec_checked_add(a: Dec, b: Dec) -> (r: Option<Dec>)
    requires
        a.wf(),
        b.wf(),
    ensures
        match r {
            Some(d) => decimal_sum(a.mantissa, a.scale, b.mantissa, b.scale) == Some(d.pair()) && d.wf(),
            None => decimal_sum(a.mantissa, a.scale, b.mantissa, b.scale) is None,
        },
{
    let x = Decimal::from_i128_with_scale(a.mantissa, a.scale);
    let y = Decimal::from_i128_with_scale(b.mantissa, b.scale);
    match x.checked_add(y) {
        Some(d) => Some(Dec { mantissa: d.mantissa(), scale: d.scale() }),
        None => None,
    }
}

/// `a * b`, as `Decimal::checked_mul` computes it.
#[verifier::external_body]
pub(crate) fn dec_checked_mul(a: Dec, b: Dec) -> (r: Option<Dec>)
    requires
        a.wf(),
        b.wf(),
    ensures
        match r {
            Some(d) => decimal_product(a.mantissa, a.scale, b.mantissa, b.scale) == Some(d.pair()) && d.wf(),
            None => decimal_product(a.mantissa, a.scale, b.mantissa, b.scale) is None,
        },
{
    let x = Decimal::from_i128_with_scale(a.mantissa, a.scale);
    let y = Decimal::from_i128_with_scale(b.mantissa, b.scale);
    match x.checked_mul(y) {
        Some(d) => Some(Dec { mantissa: d.mantissa(), scale: d.scale() }),
        None => None,
    }
}

/// `a / b`, as `Decimal::checked_div` computes it.
#[verifier::external_body]
pub(crate) fn dec_checked_div(a: Dec, b: Dec) -> (r: Option<Dec>)
    requires
        a.wf(),
        b.wf(),
    ensures
        match r {
            Some(d) => decimal_quotient(a.mantissa, a.scale, b.mantissa, b.scale) == Some(d.pair()) && d.wf(),
            None => decimal_quotient(a.mantissa, a.scale, b.mantissa, b.scale) is None,
        },
{
    let x = Decimal::from_i128_with_scale(a.mantissa, a.scale);
    let y = Decimal::from_i128_with_scale(b.mantissa, b.scale);
    match x.checked_div(y) {
        Some(d) => Some(Dec { mantissa: d.mantissa(), scale: d.scale() }),
        None => None,
    }
}

/// `a` rounded to `dp` fractional digits, as `Decimal::round_dp` does it:
/// halves go to the even neighbour, and a decimal with `dp` or fewer
/// fractional digits comes back unchanged.
#[verifier::external_body]
pub(crate) fn dec_round_dp(a: Dec, dp: u32) -> (r: Dec)
    requires
        a.wf(),
    ensures
        r.pair() == rounded(a.mantissa, a.scale, dp),
        r.wf(),
{
    let x = Decimal::from_i128_with_scale(a.mantissa, a.scale);
    let d = x.round_dp(dp);
    Dec { mantissa: d.mantissa(), scale: d.scale() }
}

/// The text of a decimal, as `Decimal`'s `to_string` writes it.
#[verifier::external_body]
pub(crate) fn dec_to_string(a: Dec) -> (r: String)
    requires
        a.wf(),
    ensures
        r@ == decimal_display(a.mantissa, a.scale),
{
    Decimal::from_i128_with_scale(a.mantissa, a.scale).to_string()
}

} // verus!
