use pluto_rs::decimal::{Decimal, MAX_MANTISSA};
use pluto_rs::util::{convert, exchange, round_two, ConversionError};
use rust_decimal::RoundingStrategy;

fn dec(text: &str) -> Decimal {
    Decimal::parse(text).unwrap()
}

fn to_f64(d: Decimal) -> f64 {
    d.mantissa as f64 / 10f64.powi(d.scale as i32)
}

#[test]
fn test_exchange_usd_eur_works() {
    let amount = 10;
    let eur = exchange("USD", "EUR", Decimal { mantissa: amount, scale: 0 }, dec("4.20")).unwrap();

    assert_eq!(to_f64(eur), 42 as f64);
}

#[test]
fn test_exchange_eur_usd_works() {
    let amount = 10;
    let usd = exchange("EUR", "USD", Decimal { mantissa: amount, scale: 0 }, dec("42")).unwrap();
    assert_eq!(to_f64(usd), 420.0 as f64);
}

#[test]
fn test_exchange_eur_usd2_works() {
    let amount = 1;
    let usd = exchange("EUR", "USD", Decimal { mantissa: amount, scale: 0 }, dec("0.42")).unwrap();
    assert_eq!(to_f64(usd), 0.42 as f64);
}

#[test]
fn test_exchange_round_two_works() {
    assert_eq!(to_f64(round_two(&dec("123.12"))), 123.12);
}

#[test]
fn exchange_keeps_every_digit() {
    let usd = exchange("USD", "EUR", dec("10"), dec("4.20")).unwrap();
    assert_eq!(usd, Decimal { mantissa: 4200, scale: 2 });
    let eur = exchange("EUR", "USD", dec("123.456789"), dec("1.131857")).unwrap();
    assert_eq!(eur, Decimal { mantissa: 123456789 * 1131857, scale: 12 });
}

#[test]
fn exchange_rejects_a_code_that_is_not_listed() {
    let rate = dec("0.22");
    assert_eq!(exchange("EUR", "ZZZ", dec("10"), rate), Err(ConversionError::InvalidCurrency));
    assert_eq!(exchange("ZZZ", "EUR", dec("10"), rate), Err(ConversionError::InvalidCurrency));
    assert_eq!(exchange("eur", "USD", dec("10"), rate), Err(ConversionError::InvalidCurrency));
    assert_eq!(exchange("", "USD", dec("10"), rate), Err(ConversionError::InvalidCurrency));
}

#[test]
fn exchange_looks_at_the_codes_before_the_amount() {
    let broken = Decimal { mantissa: 1, scale: 29 };
    assert_eq!(exchange("EUR", "ZZZ", broken, dec("2")), Err(ConversionError::InvalidCurrency));
    assert_eq!(exchange("EUR", "USD", broken, dec("2")), Err(ConversionError::InvalidAmount));
}

#[test]
fn exchange_takes_a_currency_into_itself() {
    let amount = dec("77.125");
    assert_eq!(exchange("EUR", "EUR", amount, dec("1")), Ok(amount));
}

#[test]
fn exchange_takes_other_listed_currencies() {
    let cad = exchange("EUR", "CAD", dec("10"), dec("1.5")).unwrap();
    assert_eq!(to_f64(cad), 15.0);
}

#[test]
fn convert_multiplies() {
    assert_eq!(convert(dec("123"), dec("42")), Ok(Decimal { mantissa: 5166, scale: 0 }));
    assert_eq!(convert(dec("-2.5"), dec("1.1")), Ok(Decimal { mantissa: -275, scale: 2 }));
    assert_eq!(convert(dec("0.1"), dec("0.2")), Ok(Decimal { mantissa: 2, scale: 2 }));
}

#[test]
fn convert_at_one_keeps_the_amount() {
    for text in ["0", "1", "-1", "123.456", "-0.0001", "79228162514264337593543950335"] {
        let amount = dec(text);
        let same = convert(amount, Decimal { mantissa: 1, scale: 0 }).unwrap();
        assert_eq!(to_f64(same), to_f64(amount));
        if amount.mantissa != 0 {
            assert_eq!(same, amount);
        }
    }
}

#[test]
fn convert_of_zero_is_plain_zero() {
    let zero = Decimal { mantissa: 0, scale: 2 };
    assert_eq!(convert(zero, dec("1.5")), Ok(Decimal { mantissa: 0, scale: 0 }));
}

#[test]
fn convert_rounds_what_has_too_many_digits() {
    let tiny = Decimal { mantissa: 15, scale: 20 };
    let product = convert(tiny, tiny).unwrap();
    assert!(product.scale <= 28);
    assert!(product.mantissa.abs() <= MAX_MANTISSA);
    assert!(to_f64(product) < 1e-27);
}

#[test]
fn convert_reports_a_product_that_is_too_large() {
    let largest = Decimal { mantissa: MAX_MANTISSA, scale: 0 };
    assert_eq!(convert(largest, dec("2")), Err(ConversionError::Overflow));
    assert_eq!(convert(largest, dec("1")), Ok(largest));
}

#[test]
fn convert_rejects_an_amount_that_is_no_decimal() {
    let rate = dec("2");
    assert_eq!(convert(Decimal { mantissa: 1, scale: 29 }, rate), Err(ConversionError::InvalidAmount));
    assert_eq!(
        convert(Decimal { mantissa: MAX_MANTISSA + 1, scale: 0 }, rate),
        Err(ConversionError::InvalidAmount)
    );
    assert_eq!(
        convert(Decimal { mantissa: -MAX_MANTISSA - 1, scale: 0 }, rate),
        Err(ConversionError::InvalidAmount)
    );
}

#[test]
fn convert_rejects_a_rate_that_is_not_above_zero() {
    let amount = dec("10");
    assert_eq!(convert(amount, dec("0")), Err(ConversionError::InvalidRatio));
    assert_eq!(convert(amount, dec("-1.5")), Err(ConversionError::InvalidRatio));
    assert_eq!(convert(amount, Decimal { mantissa: 1, scale: 29 }), Err(ConversionError::InvalidRatio));
}

#[test]
fn conversion_errors_have_a_text() {
    assert_eq!(ConversionError::InvalidCurrency.description(), "Currency was not valid");
    assert_eq!(ConversionError::InvalidAmount.description(), "Amount not parsable");
    assert_eq!(ConversionError::InvalidRatio.description(), "Ratio was not valid");
    assert_eq!(ConversionError::Overflow.description(), "Arithmetic overflow");
}

#[test]
fn parse_reads_digits() {
    assert_eq!(Decimal::parse("123.12"), Some(Decimal { mantissa: 12312, scale: 2 }));
    assert_eq!(Decimal::parse("-0.5"), Some(Decimal { mantissa: -5, scale: 1 }));
    assert_eq!(Decimal::parse("42"), Some(Decimal { mantissa: 42, scale: 0 }));
    assert_eq!(Decimal::parse("4.20"), Some(Decimal { mantissa: 420, scale: 2 }));
    assert_eq!(Decimal::parse("abc"), None);
    assert_eq!(Decimal::parse(""), None);
    assert_eq!(Decimal::parse("79228162514264337593543950336"), None);
}

#[test]
fn is_valid_knows_the_limits() {
    assert!(Decimal { mantissa: MAX_MANTISSA, scale: 28 }.is_valid());
    assert!(Decimal { mantissa: -MAX_MANTISSA, scale: 0 }.is_valid());
    assert!(!Decimal { mantissa: MAX_MANTISSA + 1, scale: 0 }.is_valid());
    assert!(!Decimal { mantissa: 0, scale: 29 }.is_valid());
}

#[test]
fn round_two_rounds_halves_away_from_zero() {
    assert_eq!(round_two(&dec("123.125")), Decimal { mantissa: 12313, scale: 2 });
    assert_eq!(round_two(&dec("-123.125")), Decimal { mantissa: -12313, scale: 2 });
    assert_eq!(round_two(&dec("123.124")), Decimal { mantissa: 12312, scale: 2 });
    assert_eq!(round_two(&dec("-123.124")), Decimal { mantissa: -12312, scale: 2 });
    assert_eq!(round_two(&dec("123.1251")), Decimal { mantissa: 12313, scale: 2 });
    assert_eq!(round_two(&dec("0.005")), Decimal { mantissa: 1, scale: 2 });
    assert_eq!(round_two(&dec("0.004")), Decimal { mantissa: 0, scale: 2 });
    assert_eq!(round_two(&dec("-0.004")), Decimal { mantissa: 0, scale: 2 });
    assert_eq!(round_two(&dec("3.4395")), Decimal { mantissa: 344, scale: 2 });
    assert_eq!(round_two(&dec("9.995")), Decimal { mantissa: 1000, scale: 2 });
}

#[test]
fn round_two_leaves_short_values_alone() {
    for value in [dec("5166"), dec("123.1"), dec("123.12"), dec("-7"), dec("0")] {
        assert_eq!(round_two(&value), value);
    }
}

#[test]
fn round_two_takes_any_scale() {
    let long = Decimal { mantissa: 10_000_000_000_000_000_000_000_000_001, scale: 28 };
    assert_eq!(round_two(&long), Decimal { mantissa: 100, scale: 2 });
    let faint = Decimal { mantissa: 1, scale: 50 };
    assert_eq!(round_two(&faint), Decimal { mantissa: 0, scale: 2 });
    let vast = Decimal { mantissa: i128::MAX, scale: 41 };
    assert_eq!(round_two(&vast), Decimal { mantissa: 0, scale: 2 });
    let least = Decimal { mantissa: i128::MIN, scale: 3 };
    assert_eq!(
        round_two(&least),
        Decimal { mantissa: -17014118346046923173168730371588410573, scale: 2 }
    );
    let half = Decimal { mantissa: 5 * 10i128.pow(37), scale: 40 };
    assert_eq!(round_two(&half), Decimal { mantissa: 1, scale: 2 });
}

#[test]
fn round_two_is_idempotent() {
    for text in ["123.125", "-123.125", "0.005", "42", "1.1", "-99.999", "0.00000000001"] {
        let once = round_two(&dec(text));
        assert_eq!(round_two(&once), once);
        assert!(once.scale <= 2);
    }
}

#[test]
fn round_two_agrees_with_rust_decimal() {
    let mantissas: [i128; 9] =
        [0, 1, -1, 5, 49, 50, 51, 123_456_789, -987_654_321_012_345_678];
    for mantissa in mantissas {
        for scale in 0..=28u32 {
            let ours = round_two(&Decimal { mantissa, scale });
            let theirs = rust_decimal::Decimal::from_i128_with_scale(mantissa, scale)
                .round_dp_with_strategy(2, RoundingStrategy::MidpointAwayFromZero);
            assert_eq!(ours.mantissa, theirs.mantissa());
            assert_eq!(ours.scale, theirs.scale());
        }
    }
}
