//! The two requests that the service answers, as far as they are decided
//! here: the health check, and the creation of an exchange step by step.

use crate::decimal::{decimal_from_text, from_text, Decimal};
use crate::http_error::{
    canonical_reason, format_error, spec_format_error, spec_resolve_rejection, ErrorMessageView,
    HttpError, HttpErrorView, Rejection, RejectionView, BAD_REQUEST, INTERNAL_SERVER_ERROR,
    METHOD_NOT_ALLOWED, NOT_FOUND,
};
use crate::json::{json_object, parse_object, spec_lookup, JsonValue};
use crate::model::{Exchange, ExchangeView};
use crate::timestamp::{rfc3339_instant, Timestamp};
use crate::util::{exchange, iso_currency, spec_exchange, ConversionError};
use crate::view::result_view;
use vstd::hash_map::StringHashMap;
use vstd::prelude::*;
use vstd::string::{StringExecFns, StringSliceAdditionalSpecFns};
use vstd::utf8::{decode_utf8, valid_utf8};

verus! {

/// The store did not answer the health check.
pub const PING_FAILED: u16 = 1001;

/// The body of the request is no text.
pub const BODY_NOT_TEXT: u16 = 1020;

/// The body of the request is not the JSON object that is asked for.
pub const BODY_NOT_DECODED: u16 = 1030;

/// No rate could be had for the pair.
pub const RATE_FAILED: u16 = 1040;

/// The amount could not be converted.
pub const EXCHANGE_FAILED: u16 = 1050;

/// The record could not be stored.
pub const STORE_FAILED: u16 = 1060;

pub const OK: u16 = 200;

pub const CREATED: u16 = 201;

/// What a client asks for: an amount in one currency, to be had in another.
#[derive(Clone, Debug, PartialEq)]
pub struct BodyData {
    pub created_at: Timestamp,
    pub currency_from: String,
    pub currency_to: String,
    pub amount_from: Decimal,
}

pub struct BodyDataView {
    pub created_at: Timestamp,
    pub currency_from: Seq<char>,
    pub currency_to: Seq<char>,
    pub amount_from: Decimal,
}

impl View for BodyData {
    type V = BodyDataView;

    open spec fn view(&self) -> BodyDataView {
        BodyDataView {
            created_at: self.created_at,
            currency_from: self.currency_from@,
            currency_to: self.currency_to@,
            amount_from: self.amount_from,
        }
    }
}

/// The complaint about a member that the body lacks.
pub open spec fn missing_field(name: Seq<char>) -> Seq<char> {
    "missing field `"@ + name + "`"@
}

/// The complaint about a member that holds something else than it should.
pub open spec fn invalid_field(name: Seq<char>) -> Seq<char> {
    "invalid value for field `"@ + name + "`"@
}

/// The text that a member has to hold.
pub open spec fn spec_text_field(fields: Map<Seq<char>, JsonValue>, name: Seq<char>) -> Result<
    Seq<char>,
    Seq<char>,
> {
    match spec_lookup(fields, name) {
        None => Err(missing_field(name)),
        Some(JsonValue::Text(text)) => Ok(text@),
        Some(_) => Err(invalid_field(name)),
    }
}

/// The number that a member has to hold.
pub open spec fn spec_number_field(fields: Map<Seq<char>, JsonValue>, name: Seq<char>) -> Result<
    Decimal,
    Seq<char>,
> {
    match spec_lookup(fields, name) {
        None => Err(missing_field(name)),
        Some(JsonValue::Number(digits)) => match decimal_from_text(digits@) {
            Some(number) => Ok(number),
            None => Err(invalid_field(name)),
        },
        Some(_) => Err(invalid_field(name)),
    }
}

/// The point in time that a member has to hold, as an RFC 3339 text.
pub open spec fn spec_time_field(fields: Map<Seq<char>, JsonValue>, name: Seq<char>) -> Result<
    Timestamp,
    Seq<char>,
> {
    match spec_text_field(fields, name) {
        Err(complaint) => Err(complaint),
        Ok(text) => match rfc3339_instant(text) {
            Some(at) => Ok(at),
            None => Err(invalid_field(name)),
        },
    }
}

/// The request that a JSON object stands for, or the complaint about the
/// first of `createdAt`, `currencyFrom`, `currencyTo` and `amountFrom` that
/// is missing or holds something else than it should. Other members are
/// passed over.
pub open spec fn spec_body(fields: Map<Seq<char>, JsonValue>) -> Result<BodyDataView, Seq<char>> {
    match spec_time_field(fields, "createdAt"@) {
        Err(complaint) => Err(complaint),
        Ok(created_at) => match spec_text_field(fields, "currencyFrom"@) {
            Err(complaint) => Err(complaint),
            Ok(currency_from) => match spec_text_field(fields, "currencyTo"@) {
                Err(complaint) => Err(complaint),
                Ok(currency_to) => match spec_number_field(fields, "amountFrom"@) {
                    Err(complaint) => Err(complaint),
                    Ok(amount_from) => Ok(
                        BodyDataView { created_at, currency_from, currency_to, amount_from },
                    ),
                },
            },
        },
    }
}

fn missing(name: &str) -> (r: String)
    ensures
        r@ == missing_field(name@),
{
    String::from_str("missing field `").concat(name).concat("`")
}

fn invalid(name: &str) -> (r: String)
    ensures
        r@ == invalid_field(name@),
{
    String::from_str("invalid value for field `").concat(name).concat("`")
}

fn text_field<'a>(fields: &'a StringHashMap<JsonValue>, name: &str) -> (r: Result<&'a String, String>)
    ensures
        result_view(r) == spec_text_field(fields@, name@),
{
    match fields.get(name) {
        None => Err(missing(name)),
        Some(JsonValue::Text(text)) => Ok(text),
        Some(_) => Err(invalid(name)),
    }
}

fn number_field(fields: &StringHashMap<JsonValue>, name: &str) -> (r: Result<Decimal, String>)
    ensures
        match r {
            Ok(number) => spec_number_field(fields@, name@) == Ok::<Decimal, Seq<char>>(number)
                && number.wf(),
            Err(complaint) => spec_number_field(fields@, name@) == Err::<Decimal, Seq<char>>(
                complaint@,
            ),
        },
{
    match fields.get(name) {
        None => Err(missing(name)),
        Some(JsonValue::Number(digits)) => match from_text(digits.as_str()) {
            Some(number) => Ok(number),
            None => Err(invalid(name)),
        },
        Some(_) => Err(invalid(name)),
    }
}

fn time_field(fields: &StringHashMap<JsonValue>, name: &str) -> (r: Result<Timestamp, String>)
    ensures
        match r {
            Ok(at) => spec_time_field(fields@, name@) == Ok::<Timestamp, Seq<char>>(at),
            Err(complaint) => spec_time_field(fields@, name@) == Err::<Timestamp, Seq<char>>(
                complaint@,
            ),
        },
{
    match text_field(fields, name) {
        Err(complaint) => Err(complaint),
        Ok(text) => match Timestamp::parse(text.as_str()) {
            Some(at) => Ok(at),
            None => Err(invalid(name)),
        },
    }
}

impl BodyData {
    /// Reads the request out of the members of a JSON object.
    pub fn from_fields(fields: &StringHashMap<JsonValue>) -> (r: Result<BodyData, String>)
        ensures
            result_view(r) == spec_body(fields@),
            r matches Ok(body) ==> body.amount_from.wf(),
            r matches Err(complaint) ==> complaint@.len() > 0,
    {
        proof {
            lemma_complaints_say_something();
        }
        let created_at = match time_field(fields, "createdAt") {
            Ok(at) => at,
            Err(complaint) => return Err(complaint),
        };
        let currency_from = match text_field(fields, "currencyFrom") {
            Ok(text) => text.clone(),
            Err(complaint) => return Err(complaint),
        };
        let currency_to = match text_field(fields, "currencyTo") {
            Ok(text) => text.clone(),
            Err(complaint) => return Err(complaint),
        };
        let amount_from = match number_field(fields, "amountFrom") {
            Ok(number) => number,
            Err(complaint) => return Err(complaint),
        };
        Ok(BodyData { created_at, currency_from, currency_to, amount_from })
    }
}

/// A complaint about a member is never the empty text.
pub proof fn lemma_complaints_say_something()
    ensures
        forall|name: Seq<char>| #[trigger] missing_field(name).len() > 0,
        forall|name: Seq<char>| #[trigger] invalid_field(name).len() > 0,
{
    reveal_strlit("`");
}

/// What `std` says of bytes that are no UTF-8 text.
pub uninterp spec fn utf8_error(bytes: Seq<u8>) -> Seq<char>;

/// `std::str::from_utf8`, with the error in its own words. Trusted: the
/// bytes are taken exactly when they are valid UTF-8, and the text that
/// comes back is made of them; where they are not taken, the error's words
/// are a function of the bytes and not empty.
#[verifier::external_body]
fn from_utf8(bytes: &[u8]) -> (r: Result<&str, String>)
    ensures
        r is Ok <==> valid_utf8(bytes@),
        r matches Ok(text) ==> text.spec_bytes() == bytes@,
        r matches Err(complaint) ==> complaint@ == utf8_error(bytes@) && complaint@.len() > 0,
{
    std::str::from_utf8(bytes).map_err(|e| e.to_string())
}

/// The request that the bytes of a body stand for, or the rejection of the
/// body: with 1020 where the bytes are no text, with 1030 where the text is
/// not the JSON object that is asked for.
pub open spec fn spec_decode(bytes: Seq<u8>) -> Result<BodyDataView, RejectionView> {
    if !valid_utf8(bytes) {
        Err(spec_format_error(BODY_NOT_TEXT, utf8_error(bytes)))
    } else {
        match json_object(decode_utf8(bytes)) {
            Err(complaint) => Err(spec_format_error(BODY_NOT_DECODED, complaint)),
            Ok(fields) => match spec_body(fields) {
                Err(complaint) => Err(spec_format_error(BODY_NOT_DECODED, complaint)),
                Ok(body) => Ok(body),
            },
        }
    }
}

/// Decodes the body of a request. A body that is turned down is turned
/// down with a text that is not empty.
pub fn decode(bytes: &[u8]) -> (r: Result<BodyData, Rejection>)
    ensures
        result_view(r) == spec_decode(bytes@),
        r matches Ok(body) ==> body.amount_from.wf(),
        r matches Err(rejection) ==> rejection.error is Some && rejection.error->0.message@.len()
            > 0,
{
    let text = match from_utf8(bytes) {
        Ok(text) => text,
        Err(complaint) => return Err(format_error(BODY_NOT_TEXT, complaint.as_str())),
    };
    proof {
        vstd::utf8::encode_utf8_decode_utf8(text@);
    }
    let fields = match parse_object(text) {
        Ok(fields) => fields,
        Err(complaint) => return Err(format_error(BODY_NOT_DECODED, complaint.as_str())),
    };
    match BodyData::from_fields(&fields) {
        Ok(body) => Ok(body),
        Err(complaint) => Err(format_error(BODY_NOT_DECODED, complaint.as_str())),
    }
}

/// What is sent back to the client.
#[derive(Clone, Debug, PartialEq)]
pub struct Response {
    pub status: u16,
    pub body: Body,
}

#[derive(Clone, Debug, PartialEq)]
pub enum Body {
    Empty,
    /// A record, with its amounts as a client is shown them.
    Exchange(Exchange),
    /// A failure: a text, and the number of the stage where there is one.
    Error { message: String, internal_code: Option<u16> },
}

pub struct ResponseView {
    pub status: u16,
    pub body: BodyView,
}

pub enum BodyView {
    Empty,
    Exchange(ExchangeView),
    Error { message: Seq<char>, internal_code: Option<u16> },
}

impl View for Body {
    type V = BodyView;

    open spec fn view(&self) -> BodyView {
        match self {
            Body::Empty => BodyView::Empty,
            Body::Exchange(exchange) => BodyView::Exchange(exchange@),
            Body::Error { message, internal_code } => BodyView::Error {
                message: message@,
                internal_code: *internal_code,
            },
        }
    }
}

impl View for Response {
    type V = ResponseView;

    open spec fn view(&self) -> ResponseView {
        ResponseView { status: self.status, body: self.body@ }
    }
}

/// The answer to a health check, given what the store said when it was
/// pinged.
pub open spec fn spec_status(ping: Result<(), Seq<char>>) -> Result<ResponseView, RejectionView> {
    match ping {
        Ok(_) => Ok(ResponseView { status: OK, body: BodyView::Empty }),
        Err(complaint) => Err(spec_format_error(PING_FAILED, complaint)),
    }
}

/// Answers a health check: 200 and nothing else where the store answered,
/// a rejection with 1001 where it did not.
pub fn status(ping: Result<(), String>) -> (r: Result<Response, Rejection>)
    ensures
        result_view(r) == spec_status(
            match ping {
                Ok(_) => Ok(()),
                Err(complaint) => Err(complaint@),
            },
        ),
{
    match ping {
        Ok(_) => Ok(Response { status: OK, body: Body::Empty }),
        Err(complaint) => Err(format_error(PING_FAILED, complaint.as_str())),
    }
}

/// The phrase of a status that a failure is answered with.
pub open spec fn spec_phrase(status: u16) -> Seq<char> {
    if status == NOT_FOUND {
        "Not Found"@
    } else if status == METHOD_NOT_ALLOWED {
        "Method Not Allowed"@
    } else if status == INTERNAL_SERVER_ERROR {
        "Internal Server Error"@
    } else {
        Seq::<char>::empty()
    }
}

/// The answer to a request that was turned down. What the pipeline
/// reported is passed on as it stands, with its own text and the number of
/// the stage; every other failure is answered with the phrase of its status
/// and nothing more. Every report that this crate makes bears a number; one
/// that a caller built without a number is passed on without one.
pub open spec fn spec_handle_rejection(err: RejectionView) -> ResponseView {
    match spec_resolve_rejection(err) {
        HttpErrorView::BadRequest(status, error) => ResponseView {
            status,
            body: BodyView::Error { message: error.message, internal_code: error.internal_code },
        },
        other => ResponseView {
            status: other.status(),
            body: BodyView::Error { message: spec_phrase(other.status()), internal_code: None },
        },
    }
}

fn reason(status: u16) -> (r: String)
    requires
        status == NOT_FOUND || status == METHOD_NOT_ALLOWED || status == INTERNAL_SERVER_ERROR,
    ensures
        r@ == spec_phrase(status),
{
    match canonical_reason(status) {
        Some(phrase) => phrase.to_owned(),
        None => String::new(),
    }
}

/// Answers a request that was turned down.
pub fn handle_rejection(err: &Rejection) -> (r: Response)
    ensures
        r@ == spec_handle_rejection(err@),
{
    match HttpError::resolve_rejection(err) {
        HttpError::NotFound(status)
        | HttpError::InternalServerError(status)
        | HttpError::MethodNotAllowed(status) => Response {
            status,
            body: Body::Error { message: reason(status), internal_code: None },
        },
        HttpError::BadRequest(status, e) => Response {
            status,
            body: Body::Error { message: e.message.clone(), internal_code: e.internal_code },
        },
    }
}

/// A request that was turned down is never answered as a success. The
/// answer is a failure with a text: what a stage reported is passed on as
/// it is, every other failure has the phrase of its status. The number of a
/// stage goes only with 400 Bad Request.
pub proof fn lemma_rejections_fail(err: RejectionView)
    ensures
        ({
            let response = spec_handle_rejection(err);
            &&& response.status == NOT_FOUND || response.status == BAD_REQUEST || response.status
                == METHOD_NOT_ALLOWED || response.status == INTERNAL_SERVER_ERROR
            &&& !(200 <= response.status < 300)
            &&& response.body matches BodyView::Error { message, internal_code }
            &&& response.status != BAD_REQUEST ==> internal_code is None && message.len() > 0
            &&& response.status == BAD_REQUEST ==> (err.error matches Some(error) && message
                == error.message && internal_code == error.internal_code)
        }),
{
    reveal_strlit("Not Found");
    reveal_strlit("Method Not Allowed");
    reveal_strlit("Internal Server Error");
}

/// The failure of a stage is sorted as a bad request that holds the
/// error's own text and the number of the stage, and it is answered with
/// 400 Bad Request, that text and that number.
pub proof fn lemma_stage_failure_is_bad_request(code: u16, complaint: Seq<char>)
    ensures
        spec_resolve_rejection(spec_format_error(code, complaint)) == HttpErrorView::BadRequest(
            BAD_REQUEST,
            ErrorMessageView { code: None, message: complaint, internal_code: Some(code) },
        ),
        spec_handle_rejection(spec_format_error(code, complaint)) == (ResponseView {
            status: BAD_REQUEST,
            body: BodyView::Error { message: complaint, internal_code: Some(code) },
        }),
{
}

/// The health check is answered with 200 if the store answered, and else
/// with a failure that is no success: 400 Bad Request, what the store said,
/// and the number 1001.
pub proof fn lemma_health_check(ping: Result<(), Seq<char>>)
    ensures
        ping is Ok ==> (spec_status(ping) matches Ok(response) && response.status == 200
            && response.body is Empty),
        ping matches Err(complaint) ==> (spec_status(ping) matches Err(rejection)
            && spec_handle_rejection(rejection) == (ResponseView {
            status: 400,
            body: BodyView::Error { message: complaint, internal_code: Some(PING_FAILED) },
        })),
{
}

/// How far the creation of one exchange has come.
#[derive(Clone, Debug, PartialEq)]
pub enum Pipeline {
    /// Nothing has happened yet: the body of the request is awaited.
    Start,
    /// The request is decoded, and a rate has been asked for.
    AwaitRate(BodyData),
    /// The amount is converted, and the store has been handed the record.
    AwaitStore,
    /// The client has its answer.
    Finished,
}

/// What happened outside.
#[derive(Debug, PartialEq)]
pub enum Event {
    /// The body of the request came in.
    Body(Vec<u8>),
    /// The rate source answered: with a rate, or with what went wrong.
    Rate(Result<Decimal, String>),
    /// The store answered: with the record as it stands there, or with what
    /// went wrong.
    Stored(Result<Exchange, String>),
}

/// What is to be done outside.
#[derive(Clone, Debug, PartialEq)]
pub enum Action {
    /// Ask the rate source for the rate of a pair on a date.
    GetRate { from: String, to: String, date: String },
    /// Hand the store a request and the amount that was made of it.
    AddExchange { body: BodyData, amount: Decimal },
    /// Send the client a response.
    Reply(Response),
    /// Turn the request down.
    Reject(Rejection),
}

pub enum PipelineView {
    Start,
    AwaitRate(BodyDataView),
    AwaitStore,
    Finished,
}

pub enum EventView {
    Body(Seq<u8>),
    Rate(Result<Decimal, Seq<char>>),
    Stored(Result<ExchangeView, Seq<char>>),
}

pub enum ActionView {
    GetRate { from: Seq<char>, to: Seq<char>, date: Seq<char> },
    AddExchange { body: BodyDataView, amount: Decimal },
    Reply(ResponseView),
    Reject(RejectionView),
}

impl View for Pipeline {
    type V = PipelineView;

    open spec fn view(&self) -> PipelineView {
        match self {
            Pipeline::Start => PipelineView::Start,
            Pipeline::AwaitRate(body) => PipelineView::AwaitRate(body@),
            Pipeline::AwaitStore => PipelineView::AwaitStore,
            Pipeline::Finished => PipelineView::Finished,
        }
    }
}

impl View for Event {
    type V = EventView;

    open spec fn view(&self) -> EventView {
        match self {
            Event::Body(bytes) => EventView::Body(bytes@),
            Event::Rate(Ok(rate)) => EventView::Rate(Ok(*rate)),
            Event::Rate(Err(complaint)) => EventView::Rate(Err(complaint@)),
            Event::Stored(Ok(exchange)) => EventView::Stored(Ok(exchange@)),
            Event::Stored(Err(complaint)) => EventView::Stored(Err(complaint@)),
        }
    }
}

impl View for Action {
    type V = ActionView;

    open spec fn view(&self) -> ActionView {
        match self {
            Action::GetRate { from, to, date } => ActionView::GetRate {
                from: from@,
                to: to@,
                date: date@,
            },
            Action::AddExchange { body, amount } => ActionView::AddExchange {
                body: body@,
                amount: *amount,
            },
            Action::Reply(response) => ActionView::Reply(response@),
            Action::Reject(rejection) => ActionView::Reject(rejection@),
        }
    }
}

/// The rejection of what this crate has no name for.
pub open spec fn spec_unrecognized() -> RejectionView {
    RejectionView { not_found: false, error: None, method_not_allowed: false }
}

/// One step of the creation of an exchange: the state that follows, and
/// what is to be done outside.
///
/// The body is decoded, and the latest rate of its pair asked for. The rate
/// that comes back is applied to the amount, and the store handed the
/// result. What the store hands back is sent to the client with 201
/// Created. A stage that fails ends the run with a rejection that carries
/// its number: 1020 or 1030 for the body, 1040 for the rate, 1050 for the
/// conversion, 1060 for the store. An event that the state does not await
/// ends the run with a rejection that nothing is known of.
pub open spec fn spec_new_exchange(state: PipelineView, event: EventView) -> (
    PipelineView,
    ActionView,
) {
    match (state, event) {
        (PipelineView::Start, EventView::Body(bytes)) => match spec_decode(bytes) {
            Ok(body) => (
                PipelineView::AwaitRate(body),
                ActionView::GetRate {
                    from: body.currency_from,
                    to: body.currency_to,
                    date: "latest"@,
                },
            ),
            Err(rejection) => (PipelineView::Finished, ActionView::Reject(rejection)),
        },
        (PipelineView::AwaitRate(body), EventView::Rate(Ok(rate))) => match spec_exchange(
            body.currency_from,
            body.currency_to,
            body.amount_from,
            rate,
        ) {
            Ok(amount) => (PipelineView::AwaitStore, ActionView::AddExchange { body, amount }),
            Err(e) => (
                PipelineView::Finished,
                ActionView::Reject(spec_format_error(EXCHANGE_FAILED, e.spec_description())),
            ),
        },
        (PipelineView::AwaitRate(_), EventView::Rate(Err(complaint))) => (
            PipelineView::Finished,
            ActionView::Reject(spec_format_error(RATE_FAILED, complaint)),
        ),
        (PipelineView::AwaitStore, EventView::Stored(Ok(exchange))) => (
            PipelineView::Finished,
            ActionView::Reply(
                ResponseView { status: CREATED, body: BodyView::Exchange(exchange.serialized()) },
            ),
        ),
        (PipelineView::AwaitStore, EventView::Stored(Err(complaint))) => (
            PipelineView::Finished,
            ActionView::Reject(spec_format_error(STORE_FAILED, complaint)),
        ),
        _ => (PipelineView::Finished, ActionView::Reject(spec_unrecognized())),
    }
}

fn unrecognized() -> (r: (Pipeline, Action))
    ensures
        r.0@ == PipelineView::Finished,
        r.1@ == ActionView::Reject(spec_unrecognized()),
{
    (
        Pipeline::Finished,
        Action::Reject(Rejection { not_found: false, error: None, method_not_allowed: false }),
    )
}

/// Takes the creation of an exchange one step further.
pub fn new_exchange(state: Pipeline, event: Event) -> (r: (Pipeline, Action))
    ensures
        (r.0@, r.1@) == spec_new_exchange(state@, event@),
        r.1 matches Action::AddExchange { body, amount } ==> amount.wf(),
        state is Start && event is Body ==> (r.1 matches Action::Reject(rejection)
            ==> rejection.error is Some && rejection.error->0.message@.len() > 0),
{
    match state {
        Pipeline::Start => match event {
            Event::Body(bytes) => match decode(bytes.as_slice()) {
                Ok(body) => {
                    let from = body.currency_from.clone();
                    let to = body.currency_to.clone();
                    let date = "latest".to_owned();
                    (Pipeline::AwaitRate(body), Action::GetRate { from, to, date })
                },
                Err(rejection) => (Pipeline::Finished, Action::Reject(rejection)),
            },
            _ => unrecognized(),
        },
        Pipeline::AwaitRate(body) => match event {
            Event::Rate(Ok(rate)) => match exchange(
                body.currency_from.as_str(),
                body.currency_to.as_str(),
                body.amount_from,
                rate,
            ) {
                Ok(amount) => (Pipeline::AwaitStore, Action::AddExchange { body, amount }),
                Err(e) => (
                    Pipeline::Finished,
                    Action::Reject(format_error(EXCHANGE_FAILED, e.description())),
                ),
            },
            Event::Rate(Err(complaint)) => (
                Pipeline::Finished,
                Action::Reject(format_error(RATE_FAILED, complaint.as_str())),
            ),
            _ => unrecognized(),
        },
        Pipeline::AwaitStore => match event {
            Event::Stored(Ok(exchange)) => (
                Pipeline::Finished,
                Action::Reply(
                    Response { status: CREATED, body: Body::Exchange(exchange.serialize()) },
                ),
            ),
            Event::Stored(Err(complaint)) => (
                Pipeline::Finished,
                Action::Reject(format_error(STORE_FAILED, complaint.as_str())),
            ),
            _ => unrecognized(),
        },
        Pipeline::Finished => unrecognized(),
    }
}

/// A body that cannot be decoded ends the run at once: the client is
/// answered with 400 Bad Request and 1020 or 1030; and whatever happens
/// later, neither the rate source nor the store is asked for anything.
pub proof fn lemma_malformed_body_ends_the_run(bytes: Seq<u8>, later: EventView)
    requires
        spec_decode(bytes) is Err,
    ensures
        ({
            let first = spec_new_exchange(PipelineView::Start, EventView::Body(bytes));
            let second = spec_new_exchange(first.0, later);
            &&& first.0 is Finished
            &&& first.1 matches ActionView::Reject(rejection)
            &&& spec_handle_rejection(rejection).status == 400
            &&& spec_handle_rejection(rejection).body matches BodyView::Error {
                message,
                internal_code,
            }
            &&& rejection.error matches Some(error)
            &&& message == error.message
            &&& internal_code == Some(BODY_NOT_TEXT) || internal_code == Some(BODY_NOT_DECODED)
            &&& second.0 is Finished
            &&& second.1 is Reject
        }),
{
}

/// How many stages a run has behind it.
pub open spec fn spec_stage(state: PipelineView) -> nat {
    match state {
        PipelineView::Start => 0,
        PipelineView::AwaitRate(_) => 1,
        PipelineView::AwaitStore => 2,
        PipelineView::Finished => 3,
    }
}

/// A run is one attempt in a line: every step takes it one stage further or
/// ends it, no stage is gone through twice, and the run has ended exactly
/// when the client is answered or the request turned down.
pub proof fn lemma_every_step_advances(state: PipelineView, event: EventView)
    ensures
        ({
            let (next, action) = spec_new_exchange(state, event);
            &&& next is Finished || spec_stage(next) == spec_stage(state) + 1
            &&& next is Finished <==> (action is Reply || action is Reject)
            &&& action is Reply ==> state is AwaitStore
        }),
{
}

/// The number that a rejection carries tells the stage that failed: 1020 and
/// 1030 the decoding of the body, 1040 the rate source, 1050 the conversion,
/// 1060 the store.
pub proof fn lemma_number_tells_the_stage(state: PipelineView, event: EventView)
    ensures
        spec_new_exchange(state, event).1 matches ActionView::Reject(rejection) ==> ({
            let number = match rejection.error {
                Some(error) => error.internal_code,
                None => None,
            };
            &&& number is None <==> rejection == spec_unrecognized()
            &&& (number == Some(BODY_NOT_TEXT) || number == Some(BODY_NOT_DECODED)) <==> (state
                is Start && event is Body)
            &&& number == Some(RATE_FAILED) <==> (state is AwaitRate && event is Rate
                && event->Rate_0 is Err)
            &&& number == Some(EXCHANGE_FAILED) <==> (state is AwaitRate && event is Rate
                && event->Rate_0 is Ok)
            &&& number == Some(STORE_FAILED) <==> (state is AwaitStore && event is Stored
                && event->Stored_0 is Err)
        }),
{
}

/// Nothing is asked of the store before the body is decoded, a rate has
/// come and the amount is converted at it; and what the store is handed is
/// looked over: both codes are listed, the amount is a valid decimal, and
/// so is what was made of it at a rate above zero.
pub proof fn lemma_store_is_asked_last(state: PipelineView, event: EventView)
    ensures
        spec_new_exchange(state, event).1 matches ActionView::AddExchange { body, amount } ==> ({
            &&& state == PipelineView::AwaitRate(body)
            &&& event matches EventView::Rate(Ok(rate))
            &&& spec_exchange(body.currency_from, body.currency_to, body.amount_from, rate) == Ok::<
                Decimal,
                ConversionError,
            >(amount)
            &&& iso_currency(body.currency_from)
            &&& iso_currency(body.currency_to)
            &&& body.amount_from.wf()
            &&& rate.is_rate()
        }),
{
}

/// A request that decodes, a rate at which its amount converts and a store
/// that takes the record lead to 201 Created, with the record as the store
/// holds it and its amounts rounded to two fractional digits.
pub proof fn lemma_run_to_created(bytes: Seq<u8>, rate: Decimal, stored: ExchangeView)
    requires
        spec_decode(bytes) matches Ok(body) && spec_exchange(
            body.currency_from,
            body.currency_to,
            body.amount_from,
            rate,
        ) is Ok,
    ensures
        ({
            let first = spec_new_exchange(PipelineView::Start, EventView::Body(bytes));
            let second = spec_new_exchange(first.0, EventView::Rate(Ok(rate)));
            let third = spec_new_exchange(second.0, EventView::Stored(Ok(stored)));
            &&& first.1 is GetRate
            &&& second.1 is AddExchange
            &&& third.0 is Finished
            &&& third.1 == ActionView::Reply(
                ResponseView { status: 201, body: BodyView::Exchange(stored.serialized()) },
            )
        }),
{
}

} // verus!
