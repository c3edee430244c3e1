//! Brokerage portfolios as the dashboard navigates them: named lists of
//! positions identified by ticker.
use vstd::prelude::*;

verus! {

/// A brokerage portfolio.
#[derive(Debug, Clone)]
pub struct Portfolio {
    /// Display name of the portfolio (e.g. the brokerage).
    pub portfolio_name: String,
    /// The positions held, in display order.
    pub positions: Vec<Position>,
}

/// A position of a portfolio. Its quantity and cost basis are amounts that
/// the dashboard only displays; they are kept beside the position by the
/// display layer.
#[derive(Debug, Clone)]
pub struct Position {
    /// Ticker symbol of the holding.
    pub ticker: String,
    /// Purchase date as written in the portfolio file.
    pub purchase_date: String,
    /// Currency of the holding, when stated.
    pub currency: Option<String>,
}

} // verus!
