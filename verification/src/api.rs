//! Where rates come from: what can go wrong, where to ask, and how to read
//! the answer.

use crate::decimal::{decimal_from_text, from_text, Decimal};
use crate::json::{spec_lookup, JsonValue};
use vstd::hash_map::StringHashMap;
use vstd::prelude::*;
use vstd::string::StringExecFns;

verus! {

/// Why a rate source has no rate to give.
#[derive(Clone, Copy, Debug, PartialEq, Eq, Structural)]
pub enum ApiError {
    /// The source knows no rate for the pair.
    RateNotAvailable,
    /// What the source holds for the pair is not a number.
    InvalidAmount,
    /// The number is no decimal above zero.
    InvalidRatio,
}

impl ApiError {
    pub open spec fn spec_description(self) -> Seq<char> {
        match self {
            ApiError::RateNotAvailable => "Conversion rate non available"@,
            ApiError::InvalidAmount => "Conversion rate not parseable"@,
            ApiError::InvalidRatio => "Conversion rate was not valid"@,
        }
    }

    /// The text that a client is shown.
    pub fn description(&self) -> (r: &'static str)
        ensures
            r@ == self.spec_description(),
            r@.len() > 0,
    {
        proof {
            reveal_strlit("Conversion rate non available");
            reveal_strlit("Conversion rate not parseable");
            reveal_strlit("Conversion rate was not valid");
        }
        match self {
            ApiError::RateNotAvailable => "Conversion rate non available",
            ApiError::InvalidAmount => "Conversion rate not parseable",
            ApiError::InvalidRatio => "Conversion rate was not valid",
        }
    }

    pub fn to_string(&self) -> (r: String)
        ensures
            r@ == self.spec_description(),
    {
        self.description().to_owned()
    }
}

/// Where the rates are published.
pub const BASE_URL: &'static str = "https://raw.githubusercontent.com/fawazahmed0/currency-api/1";

/// The text in lower case, as `std` has it.
pub uninterp spec fn lowercased(text: Seq<char>) -> Seq<char>;

/// `str::to_lowercase`. Trusted: the result is a function of the text.
#[verifier::external_body]
fn to_lowercase(text: &str) -> (r: String)
    ensures
        r@ == lowercased(text@),
{
    text.to_lowercase()
}

/// The place of the document that holds the rate of a pair on a date,
/// which is a day or `latest`.
pub open spec fn spec_rate_url(
    base_url: Seq<char>,
    from: Seq<char>,
    to: Seq<char>,
    date: Seq<char>,
) -> Seq<char> {
    base_url + "/"@ + date + "/currencies/"@ + lowercased(from) + "/"@ + lowercased(to) + ".json"@
}

/// The rate that the document of a pair holds: the number under the code
/// of the target currency, in lower case. A document without that member
/// has no rate; a member that is no number, or a number that is no valid
/// decimal above zero, is no rate either.
pub open spec fn spec_get_rate(to: Seq<char>, response: Map<Seq<char>, JsonValue>) -> Result<
    Decimal,
    ApiError,
> {
    match spec_lookup(response, lowercased(to)) {
        None => Err(ApiError::RateNotAvailable),
        Some(JsonValue::Number(digits)) => match decimal_from_text(digits@) {
            Some(rate) => if rate.mantissa > 0 {
                Ok(rate)
            } else {
                Err(ApiError::InvalidRatio)
            },
            None => Err(ApiError::InvalidRatio),
        },
        Some(_) => Err(ApiError::InvalidAmount),
    }
}

/// The rate source on the network, but for the network: it knows where to
/// ask and how to read the answer.
#[derive(Clone, Copy, Debug)]
pub struct Currency {
    pub base_url: &'static str,
}

impl Currency {
    pub fn new() -> (r: Currency)
        ensures
            r.base_url@ == BASE_URL@,
    {
        Currency { base_url: BASE_URL }
    }

    /// Where to ask for the rate of a pair on a date.
    pub fn rate_url(&self, from: &str, to: &str, date: &str) -> (r: String)
        ensures
            r@ == spec_rate_url(self.base_url@, from@, to@, date@),
    {
        let iso_from = to_lowercase(from);
        let iso_to = to_lowercase(to);
        String::from_str(self.base_url).concat("/").concat(date).concat("/currencies/").concat(
            iso_from.as_str(),
        ).concat("/").concat(iso_to.as_str()).concat(".json")
    }

    /// Reads the rate out of the document that came back.
    pub fn get_rate(&self, to: &str, response: &StringHashMap<JsonValue>) -> (r: Result<
        Decimal,
        ApiError,
    >)
        ensures
            r == spec_get_rate(to@, response@),
            r matches Ok(rate) ==> rate.is_rate(),
    {
        let iso_to = to_lowercase(to);
        let rate = match response.get(iso_to.as_str()) {
            Some(rate) => rate,
            None => return Err(ApiError::RateNotAvailable),
        };
        let value = match rate {
            JsonValue::Number(digits) => from_text(digits.as_str()),
            _ => return Err(ApiError::InvalidAmount),
        };
        match value {
            Some(rate) => if rate.mantissa > 0 {
                Ok(rate)
            } else {
                Err(ApiError::InvalidRatio)
            },
            None => Err(ApiError::InvalidRatio),
        }
    }
}

} // verus!
