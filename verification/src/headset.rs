//! Finnhub news and filing models, and the news categories the dashboard
//! shows.
use vstd::prelude::*;

verus! {

/// A single market-wide news article.
#[derive(Debug, Clone)]
pub struct MarketNews {
    /// Finnhub news category (e.g. `"general"`, `"forex"`).
    pub category: String,
    /// Publication time as a Unix timestamp.
    pub datetime: i64,
    /// Article headline.
    pub headline: String,
    /// Unique Finnhub article ID.
    pub id: i64,
    /// URL of the article's thumbnail image.
    pub image: String,
    /// Ticker or topic the article relates to.
    pub related: String,
    /// Name of the publishing outlet.
    pub source: String,
    /// Short summary of the article.
    pub summary: String,
    /// Canonical URL of the article.
    pub url: String,
}

/// A company-specific news article.
#[derive(Debug, Clone)]
pub struct CompanyNews {
    /// Finnhub news category.
    pub category: String,
    /// Publication time as a Unix timestamp.
    pub datetime: i64,
    /// Article headline.
    pub headline: String,
    /// Unique Finnhub article ID.
    pub id: i64,
    /// URL of the article's thumbnail image.
    pub image: String,
    /// Ticker the article relates to.
    pub related: String,
    /// Name of the publishing outlet.
    pub source: String,
    /// Short summary of the article.
    pub summary: String,
    /// Canonical URL of the article.
    pub url: String,
}

/// A single SEC filing entry.
#[derive(Debug, Clone)]
pub struct FilingEntry {
    /// Form type, e.g. `"10-K"` or `"8-K"`.
    pub form: Option<String>,
    /// Date the filing was submitted, in `YYYY-MM-DD` format.
    pub filed_date: Option<String>,
    /// Direct URL to the human-readable report on SEC EDGAR.
    pub report_url: Option<String>,
    /// URL to the raw filing index on SEC EDGAR.
    pub filing_url: Option<String>,
}

/// The link a filing opens: its report when there is one, else its filing
/// index.
pub open spec fn filing_link(f: FilingEntry) -> Option<Seq<char>> {
    match f.report_url {
        Some(u) => Some(u@),
        None => match f.filing_url {
            Some(u) => Some(u@),
            None => None,
        },
    }
}

impl FilingEntry {
    /// The report URL, or else the filing URL.
    pub fn link(&self) -> (r: Option<&str>)
        ensures
            r is Some == filing_link(*self) is Some,
            r matches Some(s) ==> s@ == filing_link(*self)->0,
    {
        match &self.report_url {
            Some(u) => Some(u.as_str()),
            None => match &self.filing_url {
                Some(u) => Some(u.as_str()),
                None => None,
            },
        }
    }
}

/// Finnhub market news categories, in the order of the news sub-tabs.
#[derive(Debug, Clone, Copy, PartialEq, Eq, Structural)]
pub enum NewsCategory {
    General,
    Forex,
    Crypto,
    Merger,
}

/// The category shown on news sub-tab `tab`; tabs past the third show merger
/// news.
pub open spec fn tab_category(tab: nat) -> NewsCategory {
    if tab == 0 {
        NewsCategory::General
    } else if tab == 1 {
        NewsCategory::Forex
    } else if tab == 2 {
        NewsCategory::Crypto
    } else {
        NewsCategory::Merger
    }
}

/// The news category of news sub-tab `tab`.
pub fn news_tab_to_category(tab: usize) -> (c: NewsCategory)
    ensures
        c == tab_category(tab as nat),
{
    match tab {
        0 => NewsCategory::General,
        1 => NewsCategory::Forex,
        2 => NewsCategory::Crypto,
        _ => NewsCategory::Merger,
    }
}

} // verus!
