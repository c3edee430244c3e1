use cerebro::headset::{news_tab_to_category, NewsCategory};
use cerebro::hodl::{
    book_query, candlestick_query, endpoint, tickers_query, trades_query, valuations_query, Envelope,
    HodlError, BASE_URL,
};
use cerebro::rapid::{calendar_query, calendar_url, BASE_URL as CALENDAR_URL};
use cerebro::ydata::YDataError;

fn pairs(q: &[(String, String)]) -> Vec<(&str, &str)> {
    q.iter().map(|(k, v)| (k.as_str(), v.as_str())).collect()
}

#[test]
fn news_tabs_map_to_categories() {
    assert_eq!(news_tab_to_category(0), NewsCategory::General);
    assert_eq!(news_tab_to_category(1), NewsCategory::Forex);
    assert_eq!(news_tab_to_category(2), NewsCategory::Crypto);
    assert_eq!(news_tab_to_category(3), NewsCategory::Merger);
    assert_eq!(news_tab_to_category(99), NewsCategory::Merger);
}

#[test]
fn envelope_success_and_api_error() {
    let ok: Envelope<u32> = Envelope { code: 0, message: None, result: Some(7) };
    assert_eq!(ok.into_result().unwrap(), 7);
    let err: Envelope<u32> = Envelope { code: 40101, message: Some("bad".to_string()), result: None };
    match err.into_result() {
        Err(HodlError::Api { code, message }) => {
            assert_eq!(code, 40101);
            assert_eq!(message, "bad");
        }
        other => panic!("unexpected {:?}", other),
    }
    let bare: Envelope<u32> = Envelope { code: -1, message: None, result: Some(1) };
    match bare.into_result() {
        Err(e) => assert_eq!(e.to_string(), "api error -1: "),
        Ok(v) => panic!("unexpected {}", v),
    }
}

#[test]
fn endpoints_and_queries() {
    assert_eq!(endpoint(BASE_URL, "get-book"), "https://api.crypto.com/exchange/v1/public/get-book");
    assert_eq!(pairs(&book_query("BTC_USDT", 10)), vec![("instrument_name", "BTC_USDT"), ("depth", "10")]);
    assert_eq!(
        pairs(&candlestick_query("BTC_USDT", Some("1h"), Some(24))),
        vec![("instrument_name", "BTC_USDT"), ("timeframe", "1h"), ("count", "24")]
    );
    assert_eq!(pairs(&candlestick_query("ETH_USDT", None, None)), vec![("instrument_name", "ETH_USDT")]);
    assert_eq!(
        pairs(&trades_query("BTC_USDT", Some(10))),
        vec![("instrument_name", "BTC_USDT"), ("count", "10")]
    );
    assert!(tickers_query(None).is_empty());
    assert_eq!(pairs(&tickers_query(Some("BTC_USDT"))), vec![("instrument_name", "BTC_USDT")]);
    assert_eq!(
        pairs(&valuations_query("BTCUSD-INDEX", "index_price", None)),
        vec![("instrument_name", "BTCUSD-INDEX"), ("valuation_type", "index_price")]
    );
}

#[test]
fn calendar_requests() {
    assert_eq!(calendar_url(None), CALENDAR_URL);
    assert_eq!(calendar_url(Some("US")), format!("{}/US", CALENDAR_URL));
    assert_eq!(
        pairs(&calendar_query(Some("2024-01-01"), Some("2024-01-31"))),
        vec![("from", "2024-01-01"), ("to", "2024-01-31")]
    );
    assert!(calendar_query(Some("2024-01-01"), None).is_empty());
    assert!(calendar_query(None, None).is_empty());
}

#[test]
fn yahoo_error_text() {
    let e = YDataError::Yahoo(yahoo_finance_api::YahooError::NoQuotes);
    assert_eq!(e.to_string(), "yahoo finance error: yahoo! finance returned no quotes");
    let e: YDataError = yahoo_finance_api::YahooError::EmptyResponse.into();
    assert_eq!(e.to_string(), "yahoo finance error: yahoo! finance returned an empty response body");
    let e = YDataError::Yahoo(yahoo_finance_api::YahooError::FetchFailed("timeout".to_string()));
    assert_eq!(e.to_string(), "yahoo finance error: fetching the data from yahoo! finance failed: timeout");
}

#[test]
fn http_error_text() {
    let err = reqwest::Client::new()
        .get("not a url")
        .build()
        .expect_err("an invalid URL is refused");
    let expected = format!("http error: {}", err);
    let e = HodlError::from(err);
    assert!(matches!(e, HodlError::Http(_)));
    let text = e.to_string();
    assert_eq!(text, expected);
    assert!(text.len() > "http error: ".len());
}
