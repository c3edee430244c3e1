//! The error type of historical quote requests to Yahoo Finance.
use vstd::prelude::*;
use crate::text::concat_str;

verus! {

#[verifier::external_type_specification]
#[verifier::external_body]
pub struct ExYahooError(yahoo_finance_api::YahooError);

/// Errors that can occur when fetching historical quotes.
#[derive(Debug)]
pub enum YDataError {
    /// An error returned by the Yahoo Finance API.
    Yahoo(yahoo_finance_api::YahooError),
}

/// Convenience alias for `Result<T, YDataError>`.
pub type Result<T> = core::result::Result<T, YDataError>;

impl From<yahoo_finance_api::YahooError> for YDataError {
    fn from(e: yahoo_finance_api::YahooError) -> (r: YDataError) {
        YDataError::Yahoo(e)
    }
}

impl vstd::std_specs::convert::FromSpecImpl<yahoo_finance_api::YahooError> for YDataError {
    open spec fn obeys_from_spec() -> bool {
        true
    }

    open spec fn from_spec(e: yahoo_finance_api::YahooError) -> YDataError {
        YDataError::Yahoo(e)
    }
}

/// What the `Display` impl of `YahooError` writes for `e`: the message of
/// its variant, with the fields that variant carries.
pub uninterp spec fn yahoo_text(e: yahoo_finance_api::YahooError) -> Seq<char>;

/// Formats `e` with its `Display` impl; the text, a function of the error
/// alone, is named `yahoo_text` and not restated.
#[verifier::external_body]
fn yahoo_error_text(e: &yahoo_finance_api::YahooError) -> (r: String)
    ensures
        r@ == yahoo_text(*e),
{
    format!("{}", e)
}

impl YDataError {
    /// The human-readable description of the error: `yahoo finance error: `
    /// followed by the upstream description.
    pub fn to_string(&self) -> (s: String)
        ensures
            match self {
                YDataError::Yahoo(e) => s@ == "yahoo finance error: "@ + yahoo_text(*e),
            },
    {
        match self {
            YDataError::Yahoo(e) => {
                let text = yahoo_error_text(e);
                concat_str("yahoo finance error: ", text.as_str())
            },
        }
    }
}

} // verus!
