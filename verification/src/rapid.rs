//! The economic-calendar API on RapidAPI: where a request goes and which
//! date filter it carries, and the events it returns.
use vstd::prelude::*;
use crate::hodl::query_view;
use crate::text::{push_str, string_from_chars};

verus! {

/// RapidAPI host of the economic calendar.
pub const HOST: &'static str = "ultimate-economic-calendar.p.rapidapi.com";

/// Endpoint of the economic calendar.
pub const BASE_URL: &'static str =
    "https://ultimate-economic-calendar.p.rapidapi.com/economic-events/tradingview";

/// A single economic calendar event. Its actual, forecast and previous values
/// are amounts that the dashboard only displays; they are kept beside the
/// event by the display layer.
#[derive(Debug, Clone)]
pub struct EconEvent {
    /// Additional commentary or notes from the source.
    pub comment: Option<String>,
    /// ISO country code the event belongs to (e.g. `"US"`).
    pub country: Option<String>,
    /// Currency relevant to the indicator (e.g. `"USD"`).
    pub currency: Option<String>,
    /// Scheduled release date and time (ISO 8601).
    pub date: Option<String>,
    /// Unique identifier assigned by the upstream API.
    pub id: Option<String>,
    /// Importance tier: `1` = low, `2` = medium, `3` = high.
    pub importance: Option<i64>,
    /// Short indicator code (e.g. `"NFP"` for Non-Farm Payrolls).
    pub indicator: Option<String>,
    /// URL to the source page for more detail.
    pub link: Option<String>,
    /// Reference period the data covers (e.g. `"Jan 2024"`).
    pub period: Option<String>,
    /// Unit scale multiplier (e.g. `"K"` for thousands, `"B"` for billions).
    pub scale: Option<String>,
    /// Organisation or agency that publishes this indicator.
    pub source: Option<String>,
    /// Human-readable event title (e.g. `"Initial Jobless Claims"`).
    pub title: Option<String>,
    /// Unit of the reported value (e.g. `"%"`, `"USD"`).
    pub unit: Option<String>,
}

/// The calendar URL: the endpoint, followed by `/` and the country when one
/// is given.
pub open spec fn calendar_url_text(country: Option<Seq<char>>) -> Seq<char> {
    match country {
        Some(c) => BASE_URL@ + "/"@ + c,
        None => BASE_URL@,
    }
}

/// The URL of a calendar request for `country` (all countries when `None`).
pub fn calendar_url(country: Option<&str>) -> (url: String)
    ensures
        url@ == calendar_url_text(
            match country {
                Some(c) => Some(c@),
                None => None,
            },
        ),
{
    let mut buf: Vec<char> = Vec::new();
    push_str(&mut buf, BASE_URL);
    if let Some(c) = country {
        push_str(&mut buf, "/");
        push_str(&mut buf, c);
    }
    string_from_chars(&buf)
}

/// The query of a calendar request: the date range when both ends are
/// given, else no filter at all.
pub fn calendar_query(from: Option<&str>, to: Option<&str>) -> (q: Vec<(String, String)>)
    ensures
        query_view(q@) == match (from, to) {
            (Some(f), Some(t)) => seq![("from"@, f@), ("to"@, t@)],
            _ => Seq::empty(),
        },
{
    let mut q: Vec<(String, String)> = Vec::new();
    if let (Some(f), Some(t)) = (from, to) {
        q.push(("from".to_owned(), f.to_owned()));
        q.push(("to".to_owned(), t.to_owned()));
        assert(query_view(q@) =~= seq![("from"@, f@), ("to"@, t@)]);
    } else {
        assert(query_view(q@) =~= Seq::empty());
    }
    q
}

} // verus!
