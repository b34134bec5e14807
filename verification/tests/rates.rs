use pluto_rs::api::{ApiError, Currency, BASE_URL};
use pluto_rs::decimal::Decimal;
use pluto_rs::json::{parse_object, JsonValue};
use pluto_rs::util::get_rate_for;

#[test]
fn table_knows_the_euro_and_the_dollar() {
    assert_eq!(get_rate_for("EUR", "USD"), Ok(Decimal { mantissa: 1131857, scale: 6 }));
    assert_eq!(get_rate_for("USD", "EUR"), Ok(Decimal { mantissa: 86207, scale: 5 }));
}

#[test]
fn table_has_a_rate_of_one_for_a_currency_and_itself() {
    assert_eq!(get_rate_for("EUR", "EUR"), Ok(Decimal { mantissa: 1, scale: 0 }));
    assert_eq!(get_rate_for("USD", "USD"), Ok(Decimal { mantissa: 1, scale: 0 }));
}

#[test]
fn table_has_no_rate_for_other_pairs() {
    assert_eq!(get_rate_for("EUR", "CAD"), Err(ApiError::RateNotAvailable));
    assert_eq!(get_rate_for("CAD", "CAD"), Err(ApiError::RateNotAvailable));
    assert_eq!(get_rate_for("eur", "usd"), Err(ApiError::RateNotAvailable));
    assert_eq!(get_rate_for("", ""), Err(ApiError::RateNotAvailable));
    assert_eq!(get_rate_for("EURO", "USD"), Err(ApiError::RateNotAvailable));
}

#[test]
fn api_errors_have_a_text() {
    assert_eq!(ApiError::RateNotAvailable.description(), "Conversion rate non available");
    assert_eq!(ApiError::InvalidAmount.description(), "Conversion rate not parseable");
    assert_eq!(ApiError::InvalidRatio.description(), "Conversion rate was not valid");
    assert_eq!(ApiError::InvalidRatio.to_string(), "Conversion rate was not valid");
}

#[test]
fn rate_url_names_the_pair_in_lower_case() {
    let api = Currency::new();
    assert_eq!(api.base_url, BASE_URL);
    assert_eq!(
        api.rate_url("USD", "EUR", "latest"),
        "https://raw.githubusercontent.com/fawazahmed0/currency-api/1/latest/currencies/usd/eur.json"
    );
    assert_eq!(
        api.rate_url("eur", "Cad", "2021-12-07"),
        "https://raw.githubusercontent.com/fawazahmed0/currency-api/1/2021-12-07/currencies/eur/cad.json"
    );
    let other = Currency { base_url: "http://localhost" };
    assert_eq!(other.rate_url("A", "B", "d"), "http://localhost/d/currencies/a/b.json");
}

#[test]
fn get_rate_reads_the_number_of_the_target() {
    let api = Currency::new();
    let response = parse_object(r#"{ "date": "2021-12-07", "eur": 0.88645 }"#).unwrap();
    assert_eq!(api.get_rate("EUR", &response), Ok(Decimal { mantissa: 88645, scale: 5 }));
    assert_eq!(api.get_rate("eur", &response), Ok(Decimal { mantissa: 88645, scale: 5 }));
}

#[test]
fn get_rate_reads_every_digit() {
    let api = Currency::new();
    let response = parse_object(r#"{"usd": 1.1318570000000000001}"#).unwrap();
    assert_eq!(
        api.get_rate("USD", &response),
        Ok(Decimal { mantissa: 11318570000000000001, scale: 19 })
    );
}

#[test]
fn get_rate_reads_an_exponent() {
    let api = Currency::new();
    let response = parse_object(r#"{"jpy": 1.5e2}"#).unwrap();
    let rate = api.get_rate("JPY", &response).unwrap();
    assert_eq!(rate.mantissa as f64 / 10f64.powi(rate.scale as i32), 150.0);
}

#[test]
fn get_rate_misses_a_target_that_is_not_there() {
    let api = Currency::new();
    let response = parse_object(r#"{ "date": "2021-12-07", "eur": 0.88645 }"#).unwrap();
    assert_eq!(api.get_rate("CAD", &response), Err(ApiError::RateNotAvailable));
    let empty = parse_object("{}").unwrap();
    assert_eq!(api.get_rate("EUR", &empty), Err(ApiError::RateNotAvailable));
    let upper = parse_object(r#"{"EUR": 0.88645}"#).unwrap();
    assert_eq!(api.get_rate("EUR", &upper), Err(ApiError::RateNotAvailable));
}

#[test]
fn get_rate_wants_a_number() {
    let api = Currency::new();
    for text in [
        r#"{"eur": "0.88645"}"#,
        r#"{"eur": null}"#,
        r#"{"eur": true}"#,
        r#"{"eur": [0.88645]}"#,
        r#"{"eur": {"rate": 0.88645}}"#,
    ] {
        let response = parse_object(text).unwrap();
        assert_eq!(api.get_rate("EUR", &response), Err(ApiError::InvalidAmount));
    }
}

#[test]
fn get_rate_wants_a_number_above_zero() {
    let api = Currency::new();
    for text in [r#"{"eur": 0}"#, r#"{"eur": 0.000}"#, r#"{"eur": -0.88645}"#, r#"{"eur": 1e400}"#] {
        let response = parse_object(text).unwrap();
        assert_eq!(api.get_rate("EUR", &response), Err(ApiError::InvalidRatio));
    }
}

#[test]
fn parse_object_takes_members_kind_for_kind() {
    let fields = parse_object(
        r#"{"a": null, "b": false, "c": 12.50, "d": "text", "e": [1, 2], "f": {"g": 1}}"#,
    )
    .unwrap();
    assert_eq!(fields.len(), 6);
    assert_eq!(fields.get("a"), Some(&JsonValue::Null));
    assert_eq!(fields.get("b"), Some(&JsonValue::Bool(false)));
    assert_eq!(fields.get("c"), Some(&JsonValue::Number("12.50".to_string())));
    assert_eq!(fields.get("d"), Some(&JsonValue::Text("text".to_string())));
    assert_eq!(fields.get("e"), Some(&JsonValue::Array));
    assert_eq!(fields.get("f"), Some(&JsonValue::Object));
    assert_eq!(fields.get("g"), None);
    assert_eq!(fields.get(""), None);
}

#[test]
fn parse_object_holds_a_name_once() {
    let fields = parse_object(r#"{"a": 1, "b": 2, "a": "last"}"#).unwrap();
    assert_eq!(fields.len(), 2);
    assert_eq!(fields.get("a"), Some(&JsonValue::Text("last".to_string())));
}

#[test]
fn parse_object_wants_an_object() {
    for text in ["", "not json", "[1, 2]", "12", "\"text\"", "{\"a\": 1", "{\"a\": 1} x"] {
        let complaint = parse_object(text).err().unwrap();
        assert!(!complaint.is_empty());
    }
}
