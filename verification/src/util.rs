//! Conversion of an amount at a rate, rounding for display, and the rates
//! that are known without asking anybody.

use crate::api::ApiError;
use crate::decimal::{
    checked_mul, decimal_product, exact_product, lemma_pow10_39, lemma_pow10_monotonic, magnitude,
    pow10, pow10_u128, product_is_exact, Decimal,
};
use crate::timestamp::Timestamp;
use vstd::prelude::*;

verus! {

/// The absolute value of a mantissa, which may be one more than `i128::MAX`.
fn magnitude_of(x: i128) -> (r: u128)
    ensures
        r == magnitude(x as int),
{
    if x >= 0 {
        x as u128
    } else if x == i128::MIN {
        0x8000_0000_0000_0000_0000_0000_0000_0000u128
    } else {
        (-x) as u128
    }
}

/// Rounds to two fractional digits for display, halves away from zero.
/// Whatever has two digits or fewer is handed back as it came.
pub fn round_two(value: &Decimal) -> (r: Decimal)
    ensures
        r == value.rounded_two(),
{
    if value.scale <= 2 {
        return *value;
    }
    let dropped: u32 = value.scale - 2;
    let size: u128 = magnitude_of(value.mantissa);
    if dropped > 38 {
        proof {
            // The unit is above twice any mantissa: nothing is left of it.
            lemma_pow10_monotonic(39, dropped as nat);
            lemma_pow10_39();
            let unit = pow10(dropped as nat) as int;
            vstd::arithmetic::div_mod::lemma_basic_div(size as int, unit);
            vstd::arithmetic::div_mod::lemma_small_mod(size as nat, unit as nat);
        }
        return Decimal { mantissa: 0, scale: 2 };
    }
    let unit: u128 = pow10_u128(dropped);
    proof {
        lemma_pow10_monotonic(1, dropped as nat);
        reveal_with_fuel(pow10, 2);
    }
    let whole: u128 = size / unit;
    let rest: u128 = size % unit;
    assert(whole <= size / 10) by (nonlinear_arith)
        requires
            whole == size / unit,
            unit >= 10,
    ;
    let kept: u128 = if rest >= unit - rest {
        whole + 1
    } else {
        whole
    };
    let mantissa: i128 = if value.mantissa < 0 {
        -(kept as i128)
    } else {
        kept as i128
    };
    Decimal { mantissa, scale: 2 }
}

/// Rounding what is rounded changes nothing.
pub proof fn lemma_round_two_idempotent(x: Decimal)
    ensures
        x.rounded_two().rounded_two() == x.rounded_two(),
        x.rounded_two().scale <= 2 || x.rounded_two() == x,
{
}

/// A valid decimal is still one after rounding.
pub proof fn lemma_round_two_stays_valid(x: Decimal)
    requires
        x.wf(),
    ensures
        x.rounded_two().wf(),
{
    if x.scale > 2 {
        let unit = pow10((x.scale - 2) as nat) as int;
        let before = magnitude(x.mantissa as int);
        lemma_pow10_monotonic(1, (x.scale - 2) as nat);
        reveal_with_fuel(pow10, 2);
        assert(0 <= before / unit <= before / 10) by (nonlinear_arith)
            requires
                unit >= 10,
                before >= 0,
        ;
    }
}

/// A value that loses digits moves to a nearest neighbour with two digits:
/// by half a unit of the second digit at most, and by a half only away from
/// zero.
pub proof fn lemma_round_two_nearest(x: Decimal)
    requires
        x.scale > 2,
    ensures
        ({
            let unit = pow10((x.scale - 2) as nat) as int;
            let before = magnitude(x.mantissa as int);
            let after = magnitude(x.rounded_two().mantissa as int) * unit;
            &&& 2 * (after - before) <= unit
            &&& 2 * (before - after) < unit
            &&& x.mantissa >= 0 ==> x.rounded_two().mantissa >= 0
            &&& x.mantissa <= 0 ==> x.rounded_two().mantissa <= 0
        }),
{
    let unit = pow10((x.scale - 2) as nat) as int;
    let before = magnitude(x.mantissa as int);
    lemma_pow10_monotonic(1, (x.scale - 2) as nat);
    reveal_with_fuel(pow10, 2);
    let whole = before / unit;
    let rest = before % unit;
    vstd::arithmetic::div_mod::lemma_fundamental_div_mod(before, unit);
    vstd::arithmetic::div_mod::lemma_mod_bound(before, unit);
    assert(0 <= whole <= before / 10) by (nonlinear_arith)
        requires
            whole == before / unit,
            unit >= 10,
            before >= 0,
    ;
    let kept = if 2 * rest >= unit {
        whole + 1
    } else {
        whole
    };
    assert(magnitude(x.rounded_two().mantissa as int) == kept);
    assert((whole + 1) * unit == whole * unit + unit) by (nonlinear_arith);
    assert(unit * whole == whole * unit) by (nonlinear_arith);
    assert(before == whole * unit + rest);
    let after = kept * unit;
    assert(after - before == if 2 * rest >= unit {
        unit - rest
    } else {
        -rest
    });
}

/// Why an amount could not be converted.
#[derive(Clone, Copy, Debug, PartialEq, Eq, Structural)]
pub enum ConversionError {
    /// A currency code that the ISO 4217 table does not list.
    InvalidCurrency,
    /// An amount that is no valid decimal.
    InvalidAmount,
    /// A rate that is no valid decimal above zero.
    InvalidRatio,
    /// The product is too large for a decimal.
    Overflow,
}

impl ConversionError {
    pub open spec fn spec_description(self) -> Seq<char> {
        match self {
            ConversionError::InvalidCurrency => "Currency was not valid"@,
            ConversionError::InvalidAmount => "Amount not parsable"@,
            ConversionError::InvalidRatio => "Ratio was not valid"@,
            ConversionError::Overflow => "Arithmetic overflow"@,
        }
    }

    /// The text that a client is shown.
    pub fn description(&self) -> (r: &'static str)
        ensures
            r@ == self.spec_description(),
            r@.len() > 0,
    {
        proof {
            reveal_strlit("Currency was not valid");
            reveal_strlit("Amount not parsable");
            reveal_strlit("Ratio was not valid");
            reveal_strlit("Arithmetic overflow");
        }
        match self {
            ConversionError::InvalidCurrency => "Currency was not valid",
            ConversionError::InvalidAmount => "Amount not parsable",
            ConversionError::InvalidRatio => "Ratio was not valid",
            ConversionError::Overflow => "Arithmetic overflow",
        }
    }
}

/// Whether `rusty_money`'s table of ISO 4217 currencies lists the code.
pub uninterp spec fn iso_currency(code: Seq<char>) -> bool;

/// `rusty_money::iso::find`. Trusted: whether it finds a currency is a
/// function of the code.
#[verifier::external_body]
fn iso_find(code: &str) -> (r: bool)
    ensures
        r == iso_currency(code@),
{
    match rusty_money::iso::find(code) {
        Some(_) => true,
        None => false,
    }
}

/// What `convert` returns.
pub open spec fn spec_convert(amount: Decimal, rate: Decimal) -> Result<Decimal, ConversionError> {
    if !amount.wf() {
        Err(ConversionError::InvalidAmount)
    } else if !rate.is_rate() {
        Err(ConversionError::InvalidRatio)
    } else {
        match decimal_product(amount, rate) {
            Some(p) => Ok(p),
            None => Err(ConversionError::Overflow),
        }
    }
}

/// What `exchange` returns: the codes are looked at before the numbers.
pub open spec fn spec_exchange(
    from: Seq<char>,
    to: Seq<char>,
    amount: Decimal,
    rate: Decimal,
) -> Result<Decimal, ConversionError> {
    if !iso_currency(from) || !iso_currency(to) {
        Err(ConversionError::InvalidCurrency)
    } else {
        spec_convert(amount, rate)
    }
}

/// The amount times the rate, in decimal arithmetic. Any valid amount will
/// do, zero and negative ones too. A product that needs no rounding is the
/// result, digit for digit.
pub fn convert(amount: Decimal, rate: Decimal) -> (r: Result<Decimal, ConversionError>)
    ensures
        r == spec_convert(amount, rate),
        r matches Ok(p) ==> p.wf(),
        amount.wf() && rate.is_rate() && product_is_exact(amount, rate) ==> r == Ok::<
            Decimal,
            ConversionError,
        >(exact_product(amount, rate)),
{
    if !amount.is_valid() {
        return Err(ConversionError::InvalidAmount);
    }
    if !rate.is_valid() || rate.mantissa <= 0 {
        return Err(ConversionError::InvalidRatio);
    }
    match checked_mul(amount, rate) {
        Some(p) => Ok(p),
        None => Err(ConversionError::Overflow),
    }
}

/// A product that needs no rounding stands for the number that the
/// factors' numbers multiply to.
pub proof fn lemma_exact_product(a: Decimal, b: Decimal)
    requires
        product_is_exact(a, b),
    ensures
        exact_product(a, b).is_product_of(a, b),
        a.wf() && b.wf() ==> exact_product(a, b).wf(),
{
    let p = exact_product(a, b);
    if a.mantissa == 0 || b.mantissa == 0 {
        assert(a.mantissa * b.mantissa == 0) by (nonlinear_arith)
            requires
                a.mantissa == 0 || b.mantissa == 0,
        ;
        assert(0 * pow10(p.scale as nat) == 0);
        assert(p.mantissa * pow10((a.scale + b.scale) as nat) == 0) by (nonlinear_arith)
            requires
                p.mantissa == 0,
        ;
    }
}

/// Converts an amount between two currencies at a rate. Both codes have to
/// be ISO 4217 codes, whatever the amount is; a currency may be converted
/// into itself.
pub fn exchange(from: &str, to: &str, amount: Decimal, rate: Decimal) -> (r: Result<
    Decimal,
    ConversionError,
>)
    ensures
        r == spec_exchange(from@, to@, amount, rate),
        r matches Ok(p) ==> p.wf(),
        iso_currency(from@) && iso_currency(to@) && amount.wf() && rate.is_rate()
            && product_is_exact(amount, rate) ==> r == Ok::<Decimal, ConversionError>(
            exact_product(amount, rate),
        ),
{
    if !iso_find(from) || !iso_find(to) {
        return Err(ConversionError::InvalidCurrency);
    }
    convert(amount, rate)
}

/// A rate of one leaves every valid amount as it is: the product needs no
/// rounding, and it stands for the number that the amount stands for. But
/// for a zero, which comes back as the plain zero, it has the amount's own
/// digits.
pub proof fn lemma_rate_of_one(amount: Decimal)
    requires
        amount.wf(),
    ensures
        product_is_exact(amount, Decimal { mantissa: 1, scale: 0 }),
        exact_product(amount, Decimal { mantissa: 1, scale: 0 }).same_value(amount),
        amount.mantissa != 0 ==> exact_product(amount, Decimal { mantissa: 1, scale: 0 })
            == amount,
{
    let one = Decimal { mantissa: 1, scale: 0 };
    let p = exact_product(amount, one);
    assert(amount.mantissa * one.mantissa == amount.mantissa);
    if amount.mantissa == 0 {
        assert(0 * pow10(amount.scale as nat) == 0);
        assert(amount.mantissa * pow10(p.scale as nat) == 0) by (nonlinear_arith)
            requires
                amount.mantissa == 0,
        ;
    }
}

/// The rates that are known without asking: the euro and the dollar against
/// each other, and each against itself.
pub open spec fn spec_rate_for(from: Seq<char>, to: Seq<char>) -> Option<Decimal> {
    if from == "EUR"@ && to == "EUR"@ {
        Some(Decimal { mantissa: 1, scale: 0 })
    } else if from == "USD"@ && to == "USD"@ {
        Some(Decimal { mantissa: 1, scale: 0 })
    } else if from == "EUR"@ && to == "USD"@ {
        Some(Decimal { mantissa: 1131857, scale: 6 })
    } else if from == "USD"@ && to == "EUR"@ {
        Some(Decimal { mantissa: 86207, scale: 5 })
    } else {
        None
    }
}

/// Looks a pair up in the table of known rates. A pair that is not in it has
/// no rate: none is made up for it.
pub fn get_rate_for(from: &str, to: &str) -> (r: Result<Decimal, ApiError>)
    ensures
        r == match spec_rate_for(from@, to@) {
            Some(rate) => Ok::<Decimal, ApiError>(rate),
            None => Err::<Decimal, ApiError>(ApiError::RateNotAvailable),
        },
{
    let from_eur = from.to_owned() == "EUR".to_owned();
    let from_usd = from.to_owned() == "USD".to_owned();
    let to_eur = to.to_owned() == "EUR".to_owned();
    let to_usd = to.to_owned() == "USD".to_owned();
    proof {
        lemma_table_codes_differ();
    }
    if (from_eur && to_eur) || (from_usd && to_usd) {
        Ok(Decimal { mantissa: 1, scale: 0 })
    } else if from_eur && to_usd {
        Ok(Decimal { mantissa: 1131857, scale: 6 })
    } else if from_usd && to_eur {
        Ok(Decimal { mantissa: 86207, scale: 5 })
    } else {
        Err(ApiError::RateNotAvailable)
    }
}

/// The table holds rates for the euro and the dollar and for nothing else.
/// Every rate in it is a valid decimal above zero, and the rate of a
/// currency against itself is one.
pub proof fn lemma_table_rates(from: Seq<char>, to: Seq<char>)
    ensures
        spec_rate_for(from, to) is Some <==> (from == "EUR"@ || from == "USD"@) && (to == "EUR"@
            || to == "USD"@),
        spec_rate_for(from, to) matches Some(rate) ==> rate.is_rate(),
        spec_rate_for(from, to) matches Some(rate) ==> (from == to ==> rate == (Decimal {
            mantissa: 1,
            scale: 0,
        })),
{
    lemma_table_codes_differ();
}

proof fn lemma_table_codes_differ()
    ensures
        "EUR"@ != "USD"@,
{
    reveal_strlit("EUR");
    reveal_strlit("USD");
    assert("EUR"@[0] == 'E');
    assert("USD"@[0] == 'U');
}

/// The first second of 1970 in UTC.
pub fn get_datetime_zero() -> (r: Timestamp)
    ensures
        r == (Timestamp { secs: 0, nanos: 0 }),
{
    Timestamp { secs: 0, nanos: 0 }
}

} // verus!
