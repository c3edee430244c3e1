use cerebro::app::{App, ResearchMode, MAIN_TABS, NEWS_TABS, RESEARCH_SUB_TABS, TAB_TITLES};
use cerebro::headset::{FilingEntry, MarketNews};
use cerebro::portfolio::{Portfolio, Position};
use cerebro::rapid::EconEvent;

fn article(url: &str) -> MarketNews {
    MarketNews {
        category: "general".to_string(),
        datetime: 0,
        headline: "h".to_string(),
        id: 1,
        image: String::new(),
        related: String::new(),
        source: "s".to_string(),
        summary: String::new(),
        url: url.to_string(),
    }
}

fn position(ticker: &str) -> Position {
    Position {
        ticker: ticker.to_string(),
        purchase_date: "2024-01-02".to_string(),
        currency: None,
    }
}

fn event() -> EconEvent {
    EconEvent {
        comment: None,
        country: Some("US".to_string()),
        currency: None,
        date: None,
        id: None,
        importance: Some(3),
        indicator: None,
        link: None,
        period: None,
        scale: None,
        source: None,
        title: None,
        unit: None,
    }
}

#[test]
fn new_app_starts_on_first_tabs() {
    let app = App::new();
    assert_eq!(app.main_tab, 0);
    assert_eq!(app.active_tab, 0);
    assert_eq!(app.news_tab, 0);
    assert_eq!(app.news_articles.len(), NEWS_TABS.len());
    assert!(app.loading);
    assert!(!app.should_quit);
    assert!(matches!(app.research_mode, ResearchMode::Idle));
    assert_eq!(app.portfolio_focus, [None, None]);
    assert_eq!(MAIN_TABS, ["Markets Overview", "Portfolios", "News", "Research", "Calendar"]);
    assert!(app.market_sizes.is_empty());
    assert_eq!(app.markets_col, 0);
    assert!(app.markets_row.is_empty());
    assert_eq!(TAB_TITLES.len(), 3);
    assert_eq!(RESEARCH_SUB_TABS.len(), 3);
}

#[test]
fn main_tabs_wrap_both_ways() {
    let mut app = App::new();
    app.prev_main_tab();
    assert_eq!(app.main_tab, 4);
    app.next_main_tab();
    assert_eq!(app.main_tab, 0);
    for _ in 0..3 {
        app.next_main_tab();
    }
    assert_eq!(app.main_tab, 3);
    app.next_main_tab();
    assert_eq!(app.main_tab, 4);
    app.prev_main_tab();
    app.next_main_tab();
    assert_eq!(app.main_tab, 4);
    app.next_main_tab();
    assert_eq!(app.main_tab, 0);
    for _ in 0..5 {
        app.next_main_tab();
    }
    assert_eq!(app.main_tab, 0);
}

#[test]
fn sub_tabs_wrap_and_news_focus_resets() {
    let mut app = App::new();
    app.prev_tab();
    assert_eq!(app.active_tab, 2);
    app.next_tab();
    assert_eq!(app.active_tab, 0);
    app.prev_research_sub_tab();
    assert_eq!(app.research_sub_tab, 2);
    app.next_research_sub_tab();
    assert_eq!(app.research_sub_tab, 0);
    app.load_news(0, vec![article("a"), article("b")]);
    app.news_focus_next();
    assert_eq!(app.news_focus, 1);
    app.next_news_tab();
    assert_eq!(app.news_tab, 1);
    assert_eq!(app.news_focus, 0);
    app.prev_news_tab();
    app.prev_news_tab();
    assert_eq!(app.news_tab, 3);
}

#[test]
fn news_focus_stays_within_articles() {
    let mut app = App::new();
    app.news_focus_next();
    assert_eq!(app.news_focus, 0);
    app.load_news(0, vec![article("https://a"), article("https://b"), article("https://c")]);
    for _ in 0..5 {
        app.news_focus_next();
    }
    assert_eq!(app.news_focus, 2);
    assert_eq!(app.focused_news_url(), Some("https://c"));
    app.news_focus_prev();
    assert_eq!(app.focused_news_url(), Some("https://b"));
    for _ in 0..5 {
        app.news_focus_prev();
    }
    assert_eq!(app.news_focus, 0);
}

#[test]
fn palette_typing_and_submit() {
    let mut app = App::new();
    assert!(!app.is_research_inputting());
    app.research_input_push('x');
    assert_eq!(app.research_input_text(), "");
    app.research_start_input();
    assert!(app.is_research_inputting());
    for c in " aapl ".chars() {
        app.research_input_push(c);
    }
    app.research_input_push('z');
    app.research_input_pop();
    assert_eq!(app.research_input_text(), " aapl ");
    assert_eq!(app.research_submit(), Some("AAPL".to_string()));
    assert_eq!(app.research_symbol, Some("AAPL".to_string()));
    assert!(!app.is_research_inputting());
    assert_eq!(app.research_submit(), None);
}

#[test]
fn palette_empty_submit_and_cancel() {
    let mut app = App::new();
    app.research_start_input();
    app.research_input_pop();
    app.research_input_push(' ');
    assert_eq!(app.research_submit(), None);
    assert_eq!(app.research_symbol, None);
    app.research_start_input();
    app.research_input_push('m');
    app.research_cancel();
    assert!(!app.is_research_inputting());
    assert_eq!(app.research_submit(), None);
}

#[test]
fn research_focus_and_filing_links() {
    let mut app = App::new();
    let filings = vec![
        FilingEntry {
            form: Some("10-K".to_string()),
            filed_date: None,
            report_url: Some("https://report".to_string()),
            filing_url: Some("https://filing".to_string()),
        },
        FilingEntry {
            form: None,
            filed_date: None,
            report_url: None,
            filing_url: Some("https://index".to_string()),
        },
        FilingEntry { form: None, filed_date: None, report_url: None, filing_url: None },
    ];
    app.load_research(filings, vec!["MSFT".to_string(), "GOOG".to_string()]);
    assert_eq!(app.focused_filing_url(), Some("https://report"));
    app.research_focus_next();
    assert_eq!(app.research_filings_focus, 0);
    app.next_research_sub_tab();
    app.research_focus_next();
    assert_eq!(app.focused_filing_url(), Some("https://index"));
    app.research_focus_next();
    app.research_focus_next();
    assert_eq!(app.research_filings_focus, 2);
    assert_eq!(app.focused_filing_url(), None);
    app.next_research_sub_tab();
    app.research_focus_next();
    app.research_focus_next();
    assert_eq!(app.research_peers_focus, 1);
    app.research_focus_prev();
    app.research_focus_prev();
    assert_eq!(app.research_peers_focus, 0);
    assert_eq!(app.research_filings_focus, 2);
}

#[test]
fn portfolio_focus_on_portfolios_section() {
    let mut app = App::new();
    app.next_main_tab();
    app.load_portfolios(vec![
        Portfolio { portfolio_name: "Schwab".to_string(), positions: vec![position("AAPL"), position("MSFT")] },
        Portfolio { portfolio_name: "Robinhood".to_string(), positions: vec![] },
    ]);
    // The indices sub-tab has no positions.
    app.focus_next();
    assert_eq!(app.portfolio_focus, [None, None]);
    app.next_tab();
    assert_eq!(app.focused_ticker(), None);
    app.focus_next();
    assert_eq!(app.focused_ticker(), Some("AAPL"));
    app.focus_next();
    app.focus_next();
    assert_eq!(app.focused_ticker(), Some("MSFT"));
    app.focus_prev();
    app.focus_prev();
    assert_eq!(app.portfolio_focus, [None, None]);
    app.next_tab();
    app.focus_next();
    assert_eq!(app.portfolio_focus[1], None);
    // Away from the portfolios section there is no position focus.
    app.prev_tab();
    app.focus_next();
    app.next_main_tab();
    assert_eq!(app.focused_ticker(), None);
}

#[test]
fn portfolio_focus_absent_on_markets_overview() {
    let mut app = App::new();
    app.load_portfolios(vec![
        Portfolio { portfolio_name: "Schwab".to_string(), positions: vec![position("AAPL")] },
        Portfolio { portfolio_name: "Robinhood".to_string(), positions: vec![] },
    ]);
    app.next_tab();
    app.focus_next();
    assert_eq!(app.portfolio_focus, [None, None]);
    assert_eq!(app.focused_ticker(), None);
}

#[test]
fn markets_columns_and_rows() {
    let mut app = App::new();
    app.markets_col_next();
    app.markets_row_next();
    assert_eq!(app.markets_col, 0);
    assert!(app.markets_row.is_empty());
    app.load_markets(vec![3, 11, 0]);
    assert_eq!(app.markets_row, vec![0, 0, 0]);
    app.markets_row_next();
    app.markets_row_next();
    app.markets_row_next();
    assert_eq!(app.markets_row, vec![2, 0, 0]);
    app.markets_col_next();
    assert_eq!(app.markets_col, 1);
    app.markets_row_next();
    assert_eq!(app.markets_row, vec![2, 1, 0]);
    app.markets_row_prev();
    app.markets_row_prev();
    assert_eq!(app.markets_row, vec![2, 0, 0]);
    app.markets_col_next();
    app.markets_row_next();
    assert_eq!(app.markets_row, vec![2, 0, 0]);
    app.markets_col_next();
    assert_eq!(app.markets_col, 0);
    app.markets_col_prev();
    assert_eq!(app.markets_col, 2);
    app.load_markets(vec![4]);
    assert_eq!(app.markets_col, 0);
    assert_eq!(app.markets_row, vec![0]);
}

#[test]
fn calendar_focus_bounds() {
    let mut app = App::new();
    app.calendar_focus_next();
    assert_eq!(app.calendar_focus, 0);
    app.load_calendar(vec![event(), event()]);
    app.calendar_focus_next();
    app.calendar_focus_next();
    assert_eq!(app.calendar_focus, 1);
    app.calendar_focus_prev();
    app.calendar_focus_prev();
    assert_eq!(app.calendar_focus, 0);
}

#[test]
fn palette_accepts_any_non_blank_symbol() {
    let mut app = App::new();
    app.research_start_input();
    for c in "\u{2003}msft\u{3000}".chars() {
        app.research_input_push(c);
    }
    assert_eq!(app.research_submit().as_deref(), Some("MSFT"));
    app.research_start_input();
    app.research_input_push('\u{3000}');
    app.research_input_push('\u{85}');
    assert_eq!(app.research_submit(), None);
}
