//! Fixed-point decimal numbers: a signed mantissa and the number of digits
//! behind the decimal point.

use std::str::FromStr;
use vstd::prelude::*;

verus! {

/// The largest number of fractional digits a valid decimal has.
pub const MAX_SCALE: u32 = 28;

/// The largest magnitude of a valid mantissa, `2^96 - 1`.
pub const MAX_MANTISSA: i128 = 0xFFFF_FFFF_FFFF_FFFF_FFFF_FFFF;

/// `10^n`.
pub open spec fn pow10(n: nat) -> nat
    decreases n,
{
    if n == 0 {
        1
    } else {
        10 * pow10((n - 1) as nat)
    }
}

/// The number `mantissa / 10^scale`. Two decimals are equal when they have
/// the same mantissa and the same scale: `1.0` and `1.00` stand for the same
/// number and are not equal.
#[derive(Clone, Copy, Debug, PartialEq, Eq, Structural)]
pub struct Decimal {
    pub mantissa: i128,
    pub scale: u32,
}

/// The absolute value of `x`.
pub open spec fn magnitude(x: int) -> int {
    if x < 0 {
        -x
    } else {
        x
    }
}

impl Decimal {
    /// A decimal is valid when it has at most 28 fractional digits and its
    /// mantissa fits in 96 bits.
    pub open spec fn wf(self) -> bool {
        &&& self.scale <= MAX_SCALE
        &&& -MAX_MANTISSA <= self.mantissa <= MAX_MANTISSA
    }

    /// Two decimals stand for the same number.
    pub open spec fn same_value(self, other: Decimal) -> bool {
        self.mantissa * pow10(other.scale as nat) == other.mantissa * pow10(self.scale as nat)
    }

    /// `self` is the exact product of `a` and `b`.
    pub open spec fn is_product_of(self, a: Decimal, b: Decimal) -> bool {
        self.mantissa * pow10((a.scale + b.scale) as nat) == a.mantissa * b.mantissa * pow10(
            self.scale as nat,
        )
    }

    /// The value rounded to two fractional digits, halves away from zero. A
    /// value with two digits or fewer stays as it is.
    pub open spec fn rounded_two(self) -> Decimal {
        if self.scale <= 2 {
            self
        } else {
            let unit = pow10((self.scale - 2) as nat) as int;
            let whole = magnitude(self.mantissa as int) / unit;
            let rest = magnitude(self.mantissa as int) % unit;
            let kept = if 2 * rest >= unit {
                whole + 1
            } else {
                whole
            };
            Decimal {
                mantissa: (if self.mantissa < 0 {
                    -kept
                } else {
                    kept
                }) as i128,
                scale: 2,
            }
        }
    }

    /// Whether this is a valid decimal.
    pub fn is_valid(&self) -> (r: bool)
        ensures
            r == self.wf(),
    {
        self.scale <= MAX_SCALE && -MAX_MANTISSA <= self.mantissa && self.mantissa <= MAX_MANTISSA
    }

    /// Reads a decimal out of its digits, such as `-123.45`.
    pub fn parse(text: &str) -> (r: Option<Decimal>)
        ensures
            r == decimal_from_text(text@),
            r matches Some(d) ==> d.wf(),
    {
        from_text(text)
    }

    /// A rate has to be a valid decimal above zero.
    pub open spec fn is_rate(self) -> bool {
        self.wf() && self.mantissa > 0
    }
}

/// A power of ten is at least one.
pub proof fn lemma_pow10_positive(n: nat)
    ensures
        pow10(n) >= 1,
    decreases n,
{
    if n > 0 {
        lemma_pow10_positive((n - 1) as nat);
    }
}

/// A larger exponent gives no smaller power.
pub proof fn lemma_pow10_monotonic(a: nat, b: nat)
    requires
        a <= b,
    ensures
        pow10(a) <= pow10(b),
    decreases b,
{
    if a < b {
        lemma_pow10_monotonic(a, (b - 1) as nat);
        lemma_pow10_positive((b - 1) as nat);
    }
}

/// `10^n` for an `n` whose power fits in 128 bits.
pub(crate) fn pow10_u128(n: u32) -> (r: u128)
    requires
        n <= 38,
    ensures
        r == pow10(n as nat),
        r <= 100_000_000_000_000_000_000_000_000_000_000_000_000u128,
{
    let mut r: u128 = 1;
    let mut i: u32 = 0;
    proof {
        lemma_pow10_positive(38);
    }
    while i < n
        invariant
            i <= n <= 38,
            r == pow10(i as nat),
            r <= pow10(38),
        decreases n - i,
    {
        proof {
            lemma_pow10_monotonic((i + 1) as nat, 38);
            lemma_pow10_38();
        }
        r = r * 10;
        i = i + 1;
    }
    proof {
        lemma_pow10_38();
    }
    r
}

/// The first power that is above twice every `i128`.
pub proof fn lemma_pow10_39()
    ensures
        pow10(39) == 1_000_000_000_000_000_000_000_000_000_000_000_000_000nat,
{
    reveal_with_fuel(pow10, 40);
}

/// The last power that fits in 128 bits.
pub proof fn lemma_pow10_38()
    ensures
        pow10(38) == 100_000_000_000_000_000_000_000_000_000_000_000_000nat,
{
    reveal_with_fuel(pow10, 39);
}

/// What `rust_decimal` makes of the product of two valid decimals: the
/// product, rounded where it has more digits than a decimal holds, or nothing
/// where it is too large.
pub uninterp spec fn decimal_product(a: Decimal, b: Decimal) -> Option<Decimal>;

/// What `rust_decimal` reads out of a text, if it reads a number at all.
pub uninterp spec fn decimal_from_text(text: Seq<char>) -> Option<Decimal>;

/// The product needs no rounding: a factor is zero, or the product of the
/// mantissas and the sum of the scales are those of a valid decimal.
pub open spec fn product_is_exact(a: Decimal, b: Decimal) -> bool {
    ||| a.mantissa == 0
    ||| b.mantissa == 0
    ||| (a.scale + b.scale <= MAX_SCALE && -MAX_MANTISSA <= a.mantissa * b.mantissa
        <= MAX_MANTISSA)
}

/// The product where it needs no rounding: the product of the mantissas
/// with the sum of the scales, and the plain zero where a factor is zero.
pub open spec fn exact_product(a: Decimal, b: Decimal) -> Decimal {
    if a.mantissa == 0 || b.mantissa == 0 {
        Decimal { mantissa: 0, scale: 0 }
    } else {
        Decimal {
            mantissa: (a.mantissa * b.mantissa) as i128,
            scale: (a.scale + b.scale) as u32,
        }
    }
}

/// `rust_decimal::Decimal::checked_mul` on two valid decimals. Trusted: the
/// result is a function of the factors and, where there is one, a valid
/// decimal; a factor of zero gives the plain zero; and a product of nonzero
/// factors that needs no rounding has the product of the mantissas and the
/// sum of the scales.
#[verifier::external_body]
pub(crate) fn checked_mul(a: Decimal, b: Decimal) -> (r: Option<Decimal>)
    requires
        a.wf(),
        b.wf(),
    ensures
        r == decimal_product(a, b),
        r matches Some(p) ==> p.wf(),
        a.mantissa == 0 || b.mantissa == 0 ==> r == Some((Decimal { mantissa: 0, scale: 0 })),
        a.mantissa != 0 && b.mantissa != 0 && a.scale + b.scale <= MAX_SCALE && -MAX_MANTISSA
            <= a.mantissa * b.mantissa <= MAX_MANTISSA ==> r == Some(
            (Decimal {
                mantissa: (a.mantissa * b.mantissa) as i128,
                scale: (a.scale + b.scale) as u32,
            }),
        ),
{
    let x = rust_decimal::Decimal::from_i128_with_scale(a.mantissa, a.scale);
    let y = rust_decimal::Decimal::from_i128_with_scale(b.mantissa, b.scale);
    match x.checked_mul(y) {
        Some(p) => Some(Decimal { mantissa: p.mantissa(), scale: p.scale() }),
        None => None,
    }
}

/// `rust_decimal::Decimal::from_str`. Trusted: the result is a function of
/// the text and, where there is one, a valid decimal.
#[verifier::external_body]
pub(crate) fn from_text(text: &str) -> (r: Option<Decimal>)
    ensures
        r == decimal_from_text(text@),
        r matches Some(d) ==> d.wf(),
{
    match rust_decimal::Decimal::from_str(text) {
        Ok(d) => Some(Decimal { mantissa: d.mantissa(), scale: d.scale() }),
        Err(_) => None,
    }
}

} // verus!
