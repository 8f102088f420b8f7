//! The three requests of the rate service: where each one is sent, and what
//! its answer means.

use vstd::prelude::*;
use crate::amount::Amount;
use crate::error::{Failure, RequestError};
use crate::document::{
    integer_at, is_rate_table, member_at, number_at, rate_table, read_integer, read_member,
    read_number, read_text, text_at,
};
use crate::json::{json_document, json_view, parse_document, Json};

verus! {

/// The address under which the service answers.
pub const BASE_API_URL: &'static str = "https://v6.exchangerate-api.com/v6";

/// The address that lists every rate of `base`.
pub open spec fn all_rates_address(api_key: Seq<char>, base: Seq<char>) -> Seq<char> {
    BASE_API_URL@ + "/"@ + api_key + "/latest/"@ + base
}

/// The address that gives the rate from `from` to `to`.
pub open spec fn pair_address(api_key: Seq<char>, from: Seq<char>, to: Seq<char>) -> Seq<char> {
    BASE_API_URL@ + "/"@ + api_key + "/pair/"@ + from + "/"@ + to
}

/// The address that converts `amount` from `from` to `to`.
pub open spec fn conversion_address(
    api_key: Seq<char>,
    from: Seq<char>,
    to: Seq<char>,
    amount: Seq<char>,
) -> Seq<char> {
    pair_address(api_key, from, to) + "/"@ + amount
}

/// Builds the address that lists every rate of `base_currency`.
pub fn all_rates_url(api_key: &str, base_currency: &str) -> (url: String)
    ensures
        url@ == all_rates_address(api_key@, base_currency@),
{
    let mut url = String::from_str(BASE_API_URL);
    url.append("/");
    url.append(api_key);
    url.append("/latest/");
    url.append(base_currency);
    url
}

/// Builds the address that gives the rate from `from` to `to`.
pub fn pair_url(api_key: &str, from: &str, to: &str) -> (url: String)
    ensures
        url@ == pair_address(api_key@, from@, to@),
{
    let mut url = String::from_str(BASE_API_URL);
    url.append("/");
    url.append(api_key);
    url.append("/pair/");
    url.append(from);
    url.append("/");
    url.append(to);
    url
}

/// Builds the address that converts `amount` from `from` to `to`. The
/// amount stands in the address as its numeral, digit for digit.
pub fn conversion_url(api_key: &str, from: &str, to: &str, amount: &Amount) -> (url: String)
    ensures
        url@ == conversion_address(api_key@, from@, to@, amount@),
{
    let mut url = pair_url(api_key, from, to);
    url.append("/");
    url.append(amount.as_str());
    url
}

/// Whether an HTTP status reports success: the codes from 200 to 299.
pub open spec fn is_success_status(status: u16) -> bool {
    200 <= status <= 299
}

/// Whether an HTTP status reports success.
pub fn is_success(status: u16) -> (success: bool)
    ensures
        success == is_success_status(status),
{
    200 <= status && status <= 299
}

/// The envelope in which the service reports a refusal.
#[derive(Debug, Clone, PartialEq, Eq)]
pub struct ErrorResponse {
    pub result: String,
    pub error_type: String,
}

/// What an error envelope holds.
pub struct ErrorResponseView {
    pub result: Seq<char>,
    pub error_type: Seq<char>,
}

impl View for ErrorResponse {
    type V = ErrorResponseView;

    open spec fn view(&self) -> ErrorResponseView {
        ErrorResponseView { result: self.result@, error_type: self.error_type@ }
    }
}

/// The envelope that `document` carries: a string under `result` and a
/// string under `error-type`.
pub open spec fn envelope_of(document: Json) -> Option<ErrorResponseView> {
    match (text_at(document, "result"@), text_at(document, "error-type"@)) {
        (Some(result), Some(error_type)) => Some(ErrorResponseView { result, error_type }),
        _ => None,
    }
}

impl ErrorResponse {
    /// Reads the envelope out of a document, where the document carries one.
    pub fn from_document(document: &serde_json::Value) -> (envelope: Option<ErrorResponse>)
        ensures
            envelope is Some <==> envelope_of(json_view(*document)) is Some,
            envelope matches Some(read) ==> envelope_of(json_view(*document)) == Some(read@),
    {
        let result = read_text(document, "result")?;
        let error_type = read_text(document, "error-type")?;
        Some(ErrorResponse { result, error_type })
    }

    /// The kind of refusal that this envelope reports.
    pub fn kind(&self) -> (kind: RequestError)
        ensures
            kind == RequestError::for_code(self@.error_type),
    {
        RequestError::from_code(self.error_type.as_str())
    }
}

/// What every successful answer of the service holds besides its rates.
#[derive(Debug, Clone, PartialEq, Eq)]
pub struct Heading {
    pub result: String,
    pub documentation: String,
    pub terms_of_use: String,
    pub time_last_update_unix: i64,
    pub time_last_update_utc: String,
    pub time_next_update_unix: i64,
    pub time_next_update_utc: String,
    pub base_code: String,
}

/// What a heading holds.
pub struct HeadingView {
    pub result: Seq<char>,
    pub documentation: Seq<char>,
    pub terms_of_use: Seq<char>,
    pub time_last_update_unix: i64,
    pub time_last_update_utc: Seq<char>,
    pub time_next_update_unix: i64,
    pub time_next_update_utc: Seq<char>,
    pub base_code: Seq<char>,
}

impl View for Heading {
    type V = HeadingView;

    open spec fn view(&self) -> HeadingView {
        HeadingView {
            result: self.result@,
            documentation: self.documentation@,
            terms_of_use: self.terms_of_use@,
            time_last_update_unix: self.time_last_update_unix,
            time_last_update_utc: self.time_last_update_utc@,
            time_next_update_unix: self.time_next_update_unix,
            time_next_update_utc: self.time_next_update_utc@,
            base_code: self.base_code@,
        }
    }
}

/// Whether `document` carries every field of a heading, each of its type.
pub open spec fn has_heading(document: Json) -> bool {
    &&& text_at(document, "result"@) is Some
    &&& text_at(document, "documentation"@) is Some
    &&& text_at(document, "terms_of_use"@) is Some
    &&& integer_at(document, "time_last_update_unix"@) is Some
    &&& text_at(document, "time_last_update_utc"@) is Some
    &&& integer_at(document, "time_next_update_unix"@) is Some
    &&& text_at(document, "time_next_update_utc"@) is Some
    &&& text_at(document, "base_code"@) is Some
}

/// The heading that `document` carries.
pub open spec fn heading_of(document: Json) -> Option<HeadingView> {
    if has_heading(document) {
        Some(
            HeadingView {
                result: text_at(document, "result"@)->0,
                documentation: text_at(document, "documentation"@)->0,
                terms_of_use: text_at(document, "terms_of_use"@)->0,
                time_last_update_unix: integer_at(document, "time_last_update_unix"@)->0,
                time_last_update_utc: text_at(document, "time_last_update_utc"@)->0,
                time_next_update_unix: integer_at(document, "time_next_update_unix"@)->0,
                time_next_update_utc: text_at(document, "time_next_update_utc"@)->0,
                base_code: text_at(document, "base_code"@)->0,
            },
        )
    } else {
        None
    }
}

impl Heading {
    /// Reads the heading out of a document, where the document carries one.
    pub fn from_document(document: &serde_json::Value) -> (heading: Option<Heading>)
        ensures
            heading is Some <==> heading_of(json_view(*document)) is Some,
            heading matches Some(read) ==> heading_of(json_view(*document)) == Some(read@),
    {
        let result = read_text(document, "result")?;
        let documentation = read_text(document, "documentation")?;
        let terms_of_use = read_text(document, "terms_of_use")?;
        let time_last_update_unix: i64 = read_integer(document, "time_last_update_unix")?;
        let time_last_update_utc = read_text(document, "time_last_update_utc")?;
        let time_next_update_unix: i64 = read_integer(document, "time_next_update_unix")?;
        let time_next_update_utc = read_text(document, "time_next_update_utc")?;
        let base_code = read_text(document, "base_code")?;
        Some(
            Heading {
                result,
                documentation,
                terms_of_use,
                time_last_update_unix,
                time_last_update_utc,
                time_next_update_unix,
                time_next_update_utc,
                base_code,
            },
        )
    }
}

/// The answer to a request for every rate of a base currency.
#[derive(Debug, Clone, PartialEq)]
pub struct ApiMultirateResponse {
    pub result: String,
    pub documentation: String,
    pub terms_of_use: String,
    pub time_last_update_unix: i64,
    pub time_last_update_utc: String,
    pub time_next_update_unix: i64,
    pub time_next_update_utc: String,
    pub base_code: String,
    /// The rates as the service sent them: an object that holds, under each
    /// currency code, the rate of that currency as a number.
    pub conversion_rates: serde_json::Value,
}

/// What an answer with every rate holds.
pub struct MultirateView {
    pub heading: HeadingView,
    pub conversion_rates: Json,
}

impl View for ApiMultirateResponse {
    type V = MultirateView;

    open spec fn view(&self) -> MultirateView {
        MultirateView {
            heading: HeadingView {
                result: self.result@,
                documentation: self.documentation@,
                terms_of_use: self.terms_of_use@,
                time_last_update_unix: self.time_last_update_unix,
                time_last_update_utc: self.time_last_update_utc@,
                time_next_update_unix: self.time_next_update_unix,
                time_next_update_utc: self.time_next_update_utc@,
                base_code: self.base_code@,
            },
            conversion_rates: json_view(self.conversion_rates),
        }
    }
}

/// The table of rates that `document` carries under `conversion_rates`:
/// the member of that name, where it is an object whose every member is a
/// number.
pub open spec fn rates_at(document: Json) -> Option<Json> {
    match member_at(document, "conversion_rates"@) {
        Some(rates) => if is_rate_table(rates) {
            Some(rates)
        } else {
            None
        },
        None => None,
    }
}

/// The answer with every rate that `document` carries: a heading, and a
/// table of rates under `conversion_rates`. A document whose
/// `conversion_rates` is anything but such a table carries no answer.
pub open spec fn multirate_of(document: Json) -> Option<MultirateView> {
    match (heading_of(document), rates_at(document)) {
        (Some(heading), Some(conversion_rates)) => Some(
            MultirateView { heading, conversion_rates },
        ),
        _ => None,
    }
}

impl ApiMultirateResponse {
    /// Reads the answer out of a document, where the document carries one.
    pub fn from_document(document: &serde_json::Value) -> (answer: Option<ApiMultirateResponse>)
        ensures
            answer is Some <==> multirate_of(json_view(*document)) is Some,
            answer matches Some(read) ==> multirate_of(json_view(*document)) == Some(read@),
    {
        let heading = Heading::from_document(document)?;
        let rates = read_member(document, "conversion_rates")?;
        if !rate_table(rates) {
            return None;
        }
        let conversion_rates = rates.clone();
        Some(
            ApiMultirateResponse {
                result: heading.result,
                documentation: heading.documentation,
                terms_of_use: heading.terms_of_use,
                time_last_update_unix: heading.time_last_update_unix,
                time_last_update_utc: heading.time_last_update_utc,
                time_next_update_unix: heading.time_next_update_unix,
                time_next_update_utc: heading.time_next_update_utc,
                base_code: heading.base_code,
                conversion_rates,
            },
        )
    }
}

/// The answer to a request for the rate of one pair of currencies.
#[derive(Debug, Clone, PartialEq)]
pub struct ApiRateResponse {
    pub result: String,
    pub documentation: String,
    pub terms_of_use: String,
    pub time_last_update_unix: i64,
    pub time_last_update_utc: String,
    pub time_next_update_unix: i64,
    pub time_next_update_utc: String,
    pub base_code: String,
    pub target_code: String,
    /// The rate as the JSON number that the service sent.
    pub conversion_rate: serde_json::Number,
}

/// What an answer with the rate of one pair holds.
pub struct RateView {
    pub heading: HeadingView,
    pub target_code: Seq<char>,
    pub conversion_rate: serde_json::Number,
}

impl View for ApiRateResponse {
    type V = RateView;

    open spec fn view(&self) -> RateView {
        RateView {
            heading: HeadingView {
                result: self.result@,
                documentation: self.documentation@,
                terms_of_use: self.terms_of_use@,
                time_last_update_unix: self.time_last_update_unix,
                time_last_update_utc: self.time_last_update_utc@,
                time_next_update_unix: self.time_next_update_unix,
                time_next_update_utc: self.time_next_update_utc@,
                base_code: self.base_code@,
            },
            target_code: self.target_code@,
            conversion_rate: self.conversion_rate,
        }
    }
}

/// The answer with the rate of one pair that `document` carries: a heading,
/// a string under `target_code` and a number under `conversion_rate`.
pub open spec fn rate_of(document: Json) -> Option<RateView> {
    match (
        heading_of(document),
        text_at(document, "target_code"@),
        number_at(document, "conversion_rate"@),
    ) {
        (Some(heading), Some(target_code), Some(conversion_rate)) => Some(
            RateView { heading, target_code, conversion_rate },
        ),
        _ => None,
    }
}

impl ApiRateResponse {
    /// Reads the answer out of a document, where the document carries one.
    pub fn from_document(document: &serde_json::Value) -> (answer: Option<ApiRateResponse>)
        ensures
            answer is Some <==> rate_of(json_view(*document)) is Some,
            answer matches Some(read) ==> rate_of(json_view(*document)) == Some(read@),
    {
        let heading = Heading::from_document(document)?;
        let target_code = read_text(document, "target_code")?;
        let conversion_rate = read_number(document, "conversion_rate")?;
        Some(
            ApiRateResponse {
                result: heading.result,
                documentation: heading.documentation,
                terms_of_use: heading.terms_of_use,
                time_last_update_unix: heading.time_last_update_unix,
                time_last_update_utc: heading.time_last_update_utc,
                time_next_update_unix: heading.time_next_update_unix,
                time_next_update_utc: heading.time_next_update_utc,
                base_code: heading.base_code,
                target_code,
                conversion_rate,
            },
        )
    }
}

/// The answer to a request for the conversion of an amount.
#[derive(Debug, Clone, PartialEq)]
pub struct ApiConversionResponse {
    pub result: String,
    pub documentation: String,
    pub terms_of_use: String,
    pub time_last_update_unix: i64,
    pub time_last_update_utc: String,
    pub time_next_update_unix: i64,
    pub time_next_update_utc: String,
    pub base_code: String,
    pub target_code: String,
    /// The rate as the JSON number that the service sent.
    pub conversion_rate: serde_json::Number,
    /// The converted amount as the JSON number that the service sent.
    pub conversion_result: serde_json::Number,
}

/// What an answer with a converted amount holds.
pub struct ConversionView {
    pub heading: HeadingView,
    pub target_code: Seq<char>,
    pub conversion_rate: serde_json::Number,
    pub conversion_result: serde_json::Number,
}

impl View for ApiConversionResponse {
    type V = ConversionView;

    open spec fn view(&self) -> ConversionView {
        ConversionView {
            heading: HeadingView {
                result: self.result@,
                documentation: self.documentation@,
                terms_of_use: self.terms_of_use@,
                time_last_update_unix: self.time_last_update_unix,
                time_last_update_utc: self.time_last_update_utc@,
                time_next_update_unix: self.time_next_update_unix,
                time_next_update_utc: self.time_next_update_utc@,
                base_code: self.base_code@,
            },
            target_code: self.target_code@,
            conversion_rate: self.conversion_rate,
            conversion_result: self.conversion_result,
        }
    }
}

/// The answer with a converted amount that `document` carries: a heading, a
/// string under `target_code`, and a number under each of `conversion_rate`
/// and `conversion_result`.
pub open spec fn conversion_of(document: Json) -> Option<ConversionView> {
    match (
        heading_of(document),
        text_at(document, "target_code"@),
        number_at(document, "conversion_rate"@),
        number_at(document, "conversion_result"@),
    ) {
        (Some(heading), Some(target_code), Some(conversion_rate), Some(conversion_result)) => Some(
            ConversionView { heading, target_code, conversion_rate, conversion_result },
        ),
        _ => None,
    }
}

impl ApiConversionResponse {
    /// Reads the answer out of a document, where the document carries one.
    pub fn from_document(document: &serde_json::Value) -> (answer: Option<
        ApiConversionResponse,
    >)
        ensures
            answer is Some <==> conversion_of(json_view(*document)) is Some,
            answer matches Some(read) ==> conversion_of(json_view(*document)) == Some(read@),
    {
        let heading = Heading::from_document(document)?;
        let target_code = read_text(document, "target_code")?;
        let conversion_rate = read_number(document, "conversion_rate")?;
        let conversion_result = read_number(document, "conversion_result")?;
        Some(
            ApiConversionResponse {
                result: heading.result,
                documentation: heading.documentation,
                terms_of_use: heading.terms_of_use,
                time_last_update_unix: heading.time_last_update_unix,
                time_last_update_utc: heading.time_last_update_utc,
                time_next_update_unix: heading.time_next_update_unix,
                time_next_update_utc: heading.time_next_update_utc,
                base_code: heading.base_code,
                target_code,
                conversion_rate,
                conversion_result,
            },
        )
    }
}

/// An outcome with its answer replaced by what the answer holds.
pub open spec fn viewed<T: View>(outcome: Result<T, Failure>) -> Result<T::V, Failure> {
    match outcome {
        Ok(answer) => Ok(answer@),
        Err(failure) => Err(failure),
    }
}

/// What a body that came with a status outside 200 to 299 means: the
/// refusal named in its error envelope, or a transport failure where the
/// body holds no envelope.
pub open spec fn refusal(body: Seq<u8>) -> Failure {
    match json_document(body) {
        Some(document) => match envelope_of(document) {
            Some(envelope) => Failure::Request(RequestError::for_code(envelope.error_type)),
            None => Failure::Transport,
        },
        None => Failure::Transport,
    }
}

/// What the service's answer to a request for every rate means.
pub open spec fn all_rates_outcome(status: u16, body: Seq<u8>) -> Result<MultirateView, Failure> {
    if !is_success_status(status) {
        Err(refusal(body))
    } else {
        match json_document(body) {
            Some(document) => match multirate_of(document) {
                Some(answer) => Ok(answer),
                None => Err(Failure::Transport),
            },
            None => Err(Failure::Transport),
        }
    }
}

/// What the service's answer to a request for the rate of a pair means.
pub open spec fn pair_outcome(status: u16, body: Seq<u8>) -> Result<RateView, Failure> {
    if !is_success_status(status) {
        Err(refusal(body))
    } else {
        match json_document(body) {
            Some(document) => match rate_of(document) {
                Some(answer) => Ok(answer),
                None => Err(Failure::Transport),
            },
            None => Err(Failure::Transport),
        }
    }
}

/// What the service's answer to a request for a conversion means.
pub open spec fn conversion_outcome(status: u16, body: Seq<u8>) -> Result<
    ConversionView,
    Failure,
> {
    if !is_success_status(status) {
        Err(refusal(body))
    } else {
        match json_document(body) {
            Some(document) => match conversion_of(document) {
                Some(answer) => Ok(answer),
                None => Err(Failure::Transport),
            },
            None => Err(Failure::Transport),
        }
    }
}

/// Reads the refusal out of a body that came with a status outside 200 to
/// 299.
pub fn read_refusal(body: &[u8]) -> (failure: Failure)
    ensures
        failure == refusal(body@),
{
    match parse_document(body) {
        Ok(document) => match ErrorResponse::from_document(&document) {
            Some(envelope) => Failure::Request(envelope.kind()),
            None => Failure::Transport,
        },
        Err(_) => Failure::Transport,
    }
}

/// Reads the service's answer to a request for every rate of a base
/// currency, sent to the address of `all_rates_url`: `status` is the HTTP
/// status of the answer and `body` its body.
pub fn get_all_exchange_rates(status: u16, body: &[u8]) -> (outcome: Result<
    ApiMultirateResponse,
    Failure,
>)
    ensures
        viewed(outcome) == all_rates_outcome(status, body@),
{
    if !is_success(status) {
        return Err(read_refusal(body));
    }
    match parse_document(body) {
        Ok(document) => match ApiMultirateResponse::from_document(&document) {
            Some(answer) => Ok(answer),
            None => Err(Failure::Transport),
        },
        Err(_) => Err(Failure::Transport),
    }
}

/// Reads the service's answer to a request for the rate of one pair of
/// currencies, sent to the address of `pair_url`.
pub fn get_exchange_rate(status: u16, body: &[u8]) -> (outcome: Result<ApiRateResponse, Failure>)
    ensures
        viewed(outcome) == pair_outcome(status, body@),
{
    if !is_success(status) {
        return Err(read_refusal(body));
    }
    match parse_document(body) {
        Ok(document) => match ApiRateResponse::from_document(&document) {
            Some(answer) => Ok(answer),
            None => Err(Failure::Transport),
        },
        Err(_) => Err(Failure::Transport),
    }
}

/// Reads the service's answer to a request for the conversion of an amount,
/// sent to the address of `conversion_url`.
pub fn convert(status: u16, body: &[u8]) -> (outcome: Result<ApiConversionResponse, Failure>)
    ensures
        viewed(outcome) == conversion_outcome(status, body@),
{
    if !is_success(status) {
        return Err(read_refusal(body));
    }
    match parse_document(body) {
        Ok(document) => match ApiConversionResponse::from_document(&document) {
            Some(answer) => Ok(answer),
            None => Err(Failure::Transport),
        },
        Err(_) => Err(Failure::Transport),
    }
}

/// Whether `status` and `body` are a successful answer that the service
/// gives to a request for every rate of `base`: the body carries every field
/// and names `base` as its base code.
pub open spec fn answers_all_rates(status: u16, body: Seq<u8>, base: Seq<char>) -> bool {
    &&& is_success_status(status)
    &&& json_document(body) matches Some(document) && multirate_of(document) is Some && text_at(
        document,
        "base_code"@,
    ) == Some(base)
}

/// Whether `status` and `body` are a successful answer that the service
/// gives to a request for the rate from `from` to `to`.
pub open spec fn answers_pair(status: u16, body: Seq<u8>, from: Seq<char>, to: Seq<char>) -> bool {
    &&& is_success_status(status)
    &&& json_document(body) matches Some(document) && rate_of(document) is Some && text_at(
        document,
        "base_code"@,
    ) == Some(from) && text_at(document, "target_code"@) == Some(to)
}

/// Whether `status` and `body` are a successful answer that the service
/// gives to a request for a conversion from `from` to `to`.
pub open spec fn answers_conversion(
    status: u16,
    body: Seq<u8>,
    from: Seq<char>,
    to: Seq<char>,
) -> bool {
    &&& is_success_status(status)
    &&& json_document(body) matches Some(document) && conversion_of(document) is Some
        && text_at(document, "base_code"@) == Some(from) && text_at(document, "target_code"@)
        == Some(to)
}

/// Whether `status` and `body` are the service's refusal of a request with
/// the code `code`.
pub open spec fn refuses_with(status: u16, body: Seq<u8>, code: Seq<char>) -> bool {
    &&& !is_success_status(status)
    &&& json_document(body) matches Some(document) && envelope_of(document) matches Some(
        envelope,
    ) && envelope.error_type == code
}

/// Whether `body` is a document whose member `conversion_rates` is no
/// table of rates: a string, an array, or an object with a member that is
/// no number.
pub open spec fn holds_other_rates(body: Seq<u8>) -> bool {
    json_document(body) matches Some(document) && member_at(document, "conversion_rates"@)
        matches Some(rates) && !is_rate_table(rates)
}

/// Every result of a request for every rate holds a table of rates: an
/// object with a number under each of its names. An answer whose
/// `conversion_rates` is anything else gives no result, whatever else it
/// holds.
pub proof fn lemma_rates_are_a_table(status: u16, body: Seq<u8>)
    ensures
        all_rates_outcome(status, body) matches Ok(answer) ==> is_rate_table(
            answer.conversion_rates,
        ),
        is_success_status(status) && holds_other_rates(body) ==> all_rates_outcome(status, body)
            == Err::<MultirateView, Failure>(Failure::Transport),
{
}

/// A successful answer to a request for every rate of `base` gives a result
/// whose base code is `base`.
pub proof fn lemma_all_rates_keep_base(status: u16, body: Seq<u8>, base: Seq<char>)
    requires
        answers_all_rates(status, body, base),
    ensures
        all_rates_outcome(status, body) matches Ok(answer) && answer.heading.base_code == base,
{
}

/// A successful answer to a request for the rate from `from` to `to` gives
/// a result that names both codes.
pub proof fn lemma_pair_keeps_codes(status: u16, body: Seq<u8>, from: Seq<char>, to: Seq<char>)
    requires
        answers_pair(status, body, from, to),
    ensures
        pair_outcome(status, body) matches Ok(answer) && answer.heading.base_code == from
            && answer.target_code == to,
{
}

/// A successful answer to a request for a conversion from `from` to `to`
/// gives a result that names both codes.
pub proof fn lemma_conversion_keeps_codes(
    status: u16,
    body: Seq<u8>,
    from: Seq<char>,
    to: Seq<char>,
)
    requires
        answers_conversion(status, body, from, to),
    ensures
        conversion_outcome(status, body) matches Ok(answer) && answer.heading.base_code == from
            && answer.target_code == to,
{
}

/// Where the service refuses a request with the code `unsupported-code`,
/// each of the three requests fails with an unsupported currency.
pub proof fn lemma_unsupported_code_fails(status: u16, body: Seq<u8>)
    requires
        refuses_with(status, body, "unsupported-code"@),
    ensures
        all_rates_outcome(status, body) == Err::<MultirateView, Failure>(
            Failure::Request(RequestError::UnsupportedCurrency),
        ),
        pair_outcome(status, body) == Err::<RateView, Failure>(
            Failure::Request(RequestError::UnsupportedCurrency),
        ),
        conversion_outcome(status, body) == Err::<ConversionView, Failure>(
            Failure::Request(RequestError::UnsupportedCurrency),
        ),
{
}

/// A refusal never leaves the five kinds: whatever code the envelope holds,
/// each of the three requests fails with the kind of that code, and with a
/// malformed request where the code is none of the service's vocabulary.
pub proof fn lemma_refusal_has_a_kind(status: u16, body: Seq<u8>, code: Seq<char>)
    requires
        refuses_with(status, body, code),
    ensures
        all_rates_outcome(status, body) == Err::<MultirateView, Failure>(
            Failure::Request(RequestError::for_code(code)),
        ),
        pair_outcome(status, body) == Err::<RateView, Failure>(
            Failure::Request(RequestError::for_code(code)),
        ),
        conversion_outcome(status, body) == Err::<ConversionView, Failure>(
            Failure::Request(RequestError::for_code(code)),
        ),
        code != "unsupported-code"@ && code != "invalid-key"@ && code != "inactive-account"@
            && code != "quota-reached"@ ==> RequestError::for_code(code)
            == RequestError::MalformedRequest,
{
}

/// Asking twice for every rate of `base` gives two results with the same
/// base code, whatever else the two answers hold.
pub proof fn lemma_all_rates_twice(first: (u16, Seq<u8>), second: (u16, Seq<u8>), base: Seq<char>)
    requires
        answers_all_rates(first.0, first.1, base),
        answers_all_rates(second.0, second.1, base),
    ensures
        all_rates_outcome(first.0, first.1) matches Ok(one) && all_rates_outcome(
            second.0,
            second.1,
        ) matches Ok(other) && one.heading.base_code == other.heading.base_code,
{
}

/// Asking twice for the rate from `from` to `to` gives two results with the
/// same base and target codes, whatever rates the two answers hold.
pub proof fn lemma_pair_twice(
    first: (u16, Seq<u8>),
    second: (u16, Seq<u8>),
    from: Seq<char>,
    to: Seq<char>,
)
    requires
        answers_pair(first.0, first.1, from, to),
        answers_pair(second.0, second.1, from, to),
    ensures
        pair_outcome(first.0, first.1) matches Ok(one) && pair_outcome(
            second.0,
            second.1,
        ) matches Ok(other) && one.heading.base_code == other.heading.base_code
            && one.target_code == other.target_code,
{
}

/// Asking twice for a conversion from `from` to `to` gives two results with
/// the same base and target codes, whatever amounts the two answers hold.
pub proof fn lemma_conversion_twice(
    first: (u16, Seq<u8>),
    second: (u16, Seq<u8>),
    from: Seq<char>,
    to: Seq<char>,
)
    requires
        answers_conversion(first.0, first.1, from, to),
        answers_conversion(second.0, second.1, from, to),
    ensures
        conversion_outcome(first.0, first.1) matches Ok(one) && conversion_outcome(
            second.0,
            second.1,
        ) matches Ok(other) && one.heading.base_code == other.heading.base_code
            && one.target_code == other.target_code,
{
}

} // verus!
