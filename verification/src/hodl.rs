//! The Crypto.com Exchange public market-data API: response envelopes, the
//! error type, reference models and the query strings of each endpoint.
use vstd::prelude::*;
use crate::text::{concat_str, decimal, push_str, signed_decimal, string_from_chars, u64_to_string};

verus! {

/// Base URL of the Crypto.com Exchange REST API.
pub const BASE_URL: &'static str = "https://api.crypto.com/exchange/v1";

#[verifier::external_type_specification]
#[verifier::external_body]
pub struct ExReqwestError(reqwest::Error);

/// Errors that can occur when using the exchange client.
#[derive(Debug)]
pub enum HodlError {
    /// An HTTP or network-level error from `reqwest`.
    Http(reqwest::Error),
    /// The API returned a non-zero error code.
    Api { code: i64, message: String },
}

/// Convenience alias for `Result<T, HodlError>`.
pub type Result<T> = core::result::Result<T, HodlError>;

impl From<reqwest::Error> for HodlError {
    fn from(e: reqwest::Error) -> (r: HodlError) {
        HodlError::Http(e)
    }
}

impl vstd::std_specs::convert::FromSpecImpl<reqwest::Error> for HodlError {
    open spec fn obeys_from_spec() -> bool {
        true
    }

    open spec fn from_spec(e: reqwest::Error) -> HodlError {
        HodlError::Http(e)
    }
}

/// What the `Display` impl of `reqwest::Error` writes for `e`: a fixed
/// phrase for the error's kind, then its URL and status where it has them.
pub uninterp spec fn reqwest_text(e: reqwest::Error) -> Seq<char>;

/// Formats `e` with its `Display` impl; the text, a function of the error
/// alone, is named `reqwest_text` and not restated.
#[verifier::external_body]
fn reqwest_error_text(e: &reqwest::Error) -> (r: String)
    ensures
        r@ == reqwest_text(*e),
{
    format!("{}", e)
}

/// The message of an API error: `api error {code}: {message}`.
pub open spec fn api_error_text(code: int, message: Seq<char>) -> Seq<char> {
    "api error "@ + signed_decimal(code) + ": "@ + message
}

impl HodlError {
    /// The human-readable description of the error.
    pub fn to_string(&self) -> (s: String)
        ensures
            match self {
                HodlError::Api { code, message } => s@ == api_error_text(*code as int, message@),
                HodlError::Http(e) => s@ == "http error: "@ + reqwest_text(*e),
            },
    {
        match self {
            HodlError::Api { code, message } => {
                let mut buf: Vec<char> = Vec::new();
                push_str(&mut buf, "api error ");
                let digits = crate::text::i64_to_string(*code);
                push_str(&mut buf, digits.as_str());
                push_str(&mut buf, ": ");
                push_str(&mut buf, message.as_str());
                string_from_chars(&buf)
            },
            HodlError::Http(e) => {
                let text = reqwest_error_text(e);
                concat_str("http error: ", text.as_str())
            },
        }
    }
}

// ── Response envelope ─────────────────────────────────────────────────────────

/// The envelope every endpoint answers with: a status code, an optional
/// message, and the result when the code is 0.
pub struct Envelope<T> {
    pub code: i64,
    pub message: Option<String>,
    pub result: Option<T>,
}

/// The message of an envelope, empty when absent.
pub open spec fn message_or_empty(message: Option<String>) -> Seq<char> {
    match message {
        Some(m) => m@,
        None => Seq::empty(),
    }
}

impl<T> Envelope<T> {
    /// The result of a successful response, or the API error that a non-zero
    /// code reports.
    pub fn into_result(self) -> (r: Result<T>)
        requires
            self.code == 0 ==> self.result is Some,
        ensures
            self.code == 0 ==> r == Ok::<T, HodlError>(self.result->0),
            self.code != 0 ==> (r matches Err(HodlError::Api { code, message }) && code
                == self.code && message@ == message_or_empty(self.message)),
    {
        if self.code != 0 {
            let message = match self.message {
                Some(m) => m,
                None => String::new(),
            };
            return Err(HodlError::Api { code: self.code, message });
        }
        match self.result {
            Some(v) => Ok(v),
            None => {
                assert(false);
                Err(HodlError::Api { code: 0, message: String::new() })
            },
        }
    }
}

// ── Reference and market models ───────────────────────────────────────────────

/// Metadata for a single tradable instrument on the exchange.
#[derive(Debug, Clone)]
pub struct Instrument {
    /// Instrument symbol, e.g. `"BTC_USDT"` or `"BTCUSD-PERP"`.
    pub symbol: Option<String>,
    /// Instrument type, e.g. `"CCY_PAIR"`, `"PERPETUAL_SWAP"`, `"FUTURE"`.
    pub inst_type: Option<String>,
    /// Human-readable display name.
    pub display_name: Option<String>,
    /// Base currency, e.g. `"BTC"`.
    pub base_ccy: Option<String>,
    /// Quote currency, e.g. `"USDT"`.
    pub quote_ccy: Option<String>,
    /// Minimum price increment (tick size).
    pub price_tick_size: Option<String>,
    /// Minimum quantity increment.
    pub qty_tick_size: Option<String>,
    /// Maximum leverage allowed, e.g. `"50"`.
    pub max_leverage: Option<String>,
    /// Whether the instrument is currently tradable.
    pub tradable: Option<bool>,
    /// Expiry timestamp in milliseconds (futures only).
    pub expiry_timestamp_ms: Option<i64>,
    /// Underlying symbol for derivatives.
    pub underlying_symbol: Option<String>,
}

/// Ticker summary for one instrument.
#[derive(Debug, Clone)]
pub struct Ticker {
    /// Instrument name.
    pub instrument_name: Option<String>,
    /// 24-hour high.
    pub h: Option<String>,
    /// 24-hour low.
    pub l: Option<String>,
    /// Best ask price.
    pub a: Option<String>,
    /// Best bid price.
    pub b: Option<String>,
    /// Last traded price.
    pub c: Option<String>,
    /// 24-hour volume in base currency.
    pub v: Option<String>,
    /// 24-hour volume in USD.
    pub vv: Option<String>,
    /// Open interest (derivatives).
    pub oi: Option<String>,
    /// Instrument kind, e.g. `"SPOT"`, `"PERPETUAL_SWAP"`.
    pub k: Option<String>,
    /// Timestamp in milliseconds.
    pub t: Option<i64>,
}

/// A single valuation data point (index price, mark price, funding rate, ...).
#[derive(Debug, Clone)]
pub struct Valuation {
    /// The valuation value.
    pub v: Option<String>,
    /// Unix timestamp in milliseconds.
    pub t: Option<i64>,
}

// ── Requests ──────────────────────────────────────────────────────────────────

/// The views of a list of query parameters.
pub open spec fn query_view(q: Seq<(String, String)>) -> Seq<(Seq<char>, Seq<char>)> {
    q.map_values(|p: (String, String)| (p.0@, p.1@))
}

/// The URL of the public endpoint `method` under `base_url`.
pub open spec fn endpoint_text(base_url: Seq<char>, method: Seq<char>) -> Seq<char> {
    base_url + "/public/"@ + method
}

/// The URL of the public endpoint `method` (e.g. `"get-book"`) under
/// `base_url`.
pub fn endpoint(base_url: &str, method: &str) -> (url: String)
    ensures
        url@ == endpoint_text(base_url@, method@),
{
    let mut buf: Vec<char> = Vec::new();
    push_str(&mut buf, base_url);
    push_str(&mut buf, "/public/");
    push_str(&mut buf, method);
    string_from_chars(&buf)
}

/// A query parameter with an owned value.
fn param(key: &str, value: &str) -> (p: (String, String))
    ensures
        p.0@ == key@,
        p.1@ == value@,
{
    (key.to_owned(), value.to_owned())
}

fn push_param(q: &mut Vec<(String, String)>, key: &str, value: &str)
    ensures
        query_view(final(q)@) == query_view(old(q)@).push((key@, value@)),
{
    let ghost before = q@;
    q.push(param(key, value));
    assert(query_view(q@) =~= query_view(before).push((key@, value@)));
}

fn push_count(q: &mut Vec<(String, String)>, count: Option<u32>)
    ensures
        query_view(final(q)@) == query_view(old(q)@) + count_param(count),
{
    match count {
        Some(n) => {
            let text = u64_to_string(n as u64);
            push_param(q, "count", text.as_str());
            assert(query_view(q@) =~= query_view(old(q)@) + count_param(count));
        },
        None => {
            assert(query_view(q@) =~= query_view(old(q)@) + count_param(count));
        },
    }
}

/// The `count` parameter, when a count is given.
pub open spec fn count_param(count: Option<u32>) -> Seq<(Seq<char>, Seq<char>)> {
    match count {
        Some(n) => seq![("count"@, decimal(n as nat))],
        None => Seq::empty(),
    }
}

/// The query of `get-book`: the instrument and the depth.
pub fn book_query(instrument_name: &str, depth: u32) -> (q: Vec<(String, String)>)
    ensures
        query_view(q@) == seq![("instrument_name"@, instrument_name@), ("depth"@, decimal(depth as nat))],
{
    let mut q: Vec<(String, String)> = Vec::new();
    push_param(&mut q, "instrument_name", instrument_name);
    let depth_text = u64_to_string(depth as u64);
    push_param(&mut q, "depth", depth_text.as_str());
    assert(query_view(q@) =~= seq![("instrument_name"@, instrument_name@), ("depth"@, decimal(depth as nat))]);
    q
}

/// The query of `get-candlestick`: the instrument, then the timeframe and the
/// count when given.
pub fn candlestick_query(instrument_name: &str, timeframe: Option<&str>, count: Option<u32>) -> (q: Vec<
    (String, String),
>)
    ensures
        query_view(q@) == seq![("instrument_name"@, instrument_name@)] + match timeframe {
            Some(tf) => seq![("timeframe"@, tf@)],
            None => Seq::empty(),
        } + count_param(count),
{
    let mut q: Vec<(String, String)> = Vec::new();
    push_param(&mut q, "instrument_name", instrument_name);
    let ghost first = query_view(q@);
    if let Some(tf) = timeframe {
        push_param(&mut q, "timeframe", tf);
    }
    let ghost second = query_view(q@);
    push_count(&mut q, count);
    assert(query_view(q@) =~= seq![("instrument_name"@, instrument_name@)] + match timeframe {
        Some(tf) => seq![("timeframe"@, tf@)],
        None => Seq::empty(),
    } + count_param(count));
    q
}

/// The query of `get-trades`: the instrument, then the count when given.
pub fn trades_query(instrument_name: &str, count: Option<u32>) -> (q: Vec<(String, String)>)
    ensures
        query_view(q@) == seq![("instrument_name"@, instrument_name@)] + count_param(count),
{
    let mut q: Vec<(String, String)> = Vec::new();
    push_param(&mut q, "instrument_name", instrument_name);
    push_count(&mut q, count);
    q
}

/// The query of `get-tickers`: the instrument when one is asked for, else
/// nothing (all tickers).
pub fn tickers_query(instrument_name: Option<&str>) -> (q: Vec<(String, String)>)
    ensures
        query_view(q@) == match instrument_name {
            Some(name) => seq![("instrument_name"@, name@)],
            None => Seq::empty(),
        },
{
    let mut q: Vec<(String, String)> = Vec::new();
    assert(query_view(q@) =~= Seq::empty());
    if let Some(name) = instrument_name {
        push_param(&mut q, "instrument_name", name);
        assert(query_view(q@) =~= seq![("instrument_name"@, name@)]);
    }
    q
}

/// The query of `get-valuations`: the instrument and the valuation type,
/// then the count when given.
pub fn valuations_query(instrument_name: &str, valuation_type: &str, count: Option<u32>) -> (q: Vec<
    (String, String),
>)
    ensures
        query_view(q@) == seq![
            ("instrument_name"@, instrument_name@),
            ("valuation_type"@, valuation_type@),
        ] + count_param(count),
{
    let mut q: Vec<(String, String)> = Vec::new();
    push_param(&mut q, "instrument_name", instrument_name);
    push_param(&mut q, "valuation_type", valuation_type);
    push_count(&mut q, count);
    assert(query_view(q@) =~= seq![
        ("instrument_name"@, instrument_name@),
        ("valuation_type"@, valuation_type@),
    ] + count_param(count));
    q
}

} // verus!
