use cerebro::app::App;
use cerebro::controls::{quote_page, to_ascii_uppercase, Action, Key};
use cerebro::headset::{FilingEntry, MarketNews};
use cerebro::portfolio::{Portfolio, Position};

fn article(url: &str) -> MarketNews {
    MarketNews {
        category: "general".to_string(),
        datetime: 0,
        headline: "h".to_string(),
        id: 1,
        image: String::new(),
        related: String::new(),
        source: "s".to_string(),
        summary: String::new(),
        url: url.to_string(),
    }
}

fn is_nothing(a: &Action) -> bool {
    matches!(a, Action::Nothing)
}

#[test]
fn ascii_uppercase() {
    assert_eq!(to_ascii_uppercase('a'), 'A');
    assert_eq!(to_ascii_uppercase('z'), 'Z');
    assert_eq!(to_ascii_uppercase('A'), 'A');
    assert_eq!(to_ascii_uppercase('1'), '1');
    assert_eq!(to_ascii_uppercase('\u{e9}'), '\u{e9}');
}

#[test]
fn quote_page_url() {
    assert_eq!(quote_page("AAPL"), "https://finance.yahoo.com/quote/AAPL/");
}

#[test]
fn quit_and_section_keys() {
    let mut app = App::new();
    assert!(is_nothing(&app.handle_key(Key::Right)));
    assert_eq!(app.main_tab, 1);
    app.handle_key(Key::Left);
    app.handle_key(Key::Left);
    assert_eq!(app.main_tab, 4);
    app.handle_key(Key::Other);
    assert_eq!(app.main_tab, 4);
    app.handle_key(Key::Right);
    assert_eq!(app.main_tab, 0);
    app.handle_key(Key::Char('q'));
    assert!(app.should_quit);
}

#[test]
fn sub_tab_keys_by_section() {
    let mut app = App::new();
    app.handle_key(Key::Char(']'));
    assert_eq!(app.active_tab, 0);
    app.handle_key(Key::Right);
    app.handle_key(Key::Char(']'));
    assert_eq!(app.active_tab, 1);
    app.handle_key(Key::Char('['));
    app.handle_key(Key::Char('['));
    assert_eq!(app.active_tab, 2);
    app.handle_key(Key::Right);
    app.handle_key(Key::Char(']'));
    assert_eq!(app.news_tab, 1);
    app.handle_key(Key::Right);
    app.handle_key(Key::Char('['));
    assert_eq!(app.research_sub_tab, 2);
}

#[test]
fn palette_flow_returns_fetch() {
    let mut app = App::new();
    app.handle_key(Key::Char(':'));
    assert!(!app.is_research_inputting());
    app.handle_key(Key::Left);
    app.handle_key(Key::Left);
    assert_eq!(app.main_tab, 3);
    app.handle_key(Key::Char(':'));
    assert!(app.is_research_inputting());
    for c in "msfx".chars() {
        app.handle_key(Key::Char(c));
    }
    app.handle_key(Key::Backspace);
    app.handle_key(Key::Char('t'));
    app.handle_key(Key::Down);
    assert_eq!(app.research_input_text(), "MSFT");
    match app.handle_key(Key::Enter) {
        Action::FetchResearch(symbol) => assert_eq!(symbol, "MSFT"),
        other => panic!("unexpected action {:?}", other),
    }
    assert!(!app.is_research_inputting());
    assert_eq!(app.research_symbol, Some("MSFT".to_string()));
    // While the palette is open, 'q' is typed, not quit.
    app.handle_key(Key::Char(':'));
    app.handle_key(Key::Char('q'));
    assert!(!app.should_quit);
    assert!(is_nothing(&app.handle_key(Key::Esc)));
    assert!(!app.is_research_inputting());
    assert_eq!(app.main_tab, 3);
}

#[test]
fn empty_palette_submit_fetches_nothing() {
    let mut app = App::new();
    app.handle_key(Key::Left);
    app.handle_key(Key::Left);
    app.handle_key(Key::Char(':'));
    assert!(app.is_research_inputting());
    app.handle_key(Key::Char(' '));
    assert!(is_nothing(&app.handle_key(Key::Enter)));
    assert!(!app.is_research_inputting());
}

#[test]
fn news_keys_open_and_refresh() {
    let mut app = App::new();
    app.load_news(0, vec![article("https://one"), article("https://two")]);
    app.handle_key(Key::Right);
    app.handle_key(Key::Right);
    assert_eq!(app.main_tab, 2);
    app.handle_key(Key::Down);
    match app.handle_key(Key::Char('o')) {
        Action::OpenUrl(url) => assert_eq!(url, "https://two"),
        other => panic!("unexpected action {:?}", other),
    }
    app.handle_key(Key::Up);
    assert_eq!(app.news_focus, 0);
    match app.handle_key(Key::Char('r')) {
        Action::RefreshNews(tab) => assert_eq!(tab, 0),
        other => panic!("unexpected action {:?}", other),
    }
}

#[test]
fn research_keys_open_filing() {
    let mut app = App::new();
    app.load_research(
        vec![FilingEntry {
            form: Some("8-K".to_string()),
            filed_date: None,
            report_url: None,
            filing_url: Some("https://sec.gov/x".to_string()),
        }],
        vec![],
    );
    app.handle_key(Key::Left);
    app.handle_key(Key::Left);
    assert_eq!(app.main_tab, 3);
    match app.handle_key(Key::Char('o')) {
        Action::OpenUrl(url) => assert_eq!(url, "https://sec.gov/x"),
        other => panic!("unexpected action {:?}", other),
    }
    app.handle_key(Key::Char(']'));
    app.handle_key(Key::Down);
    assert_eq!(app.research_filings_focus, 0);
}

#[test]
fn enter_opens_focused_position_quote_page() {
    let mut app = App::new();
    app.load_portfolios(vec![
        Portfolio {
            portfolio_name: "Schwab".to_string(),
            positions: vec![Position {
                ticker: "NVDA".to_string(),
                purchase_date: "2024-01-02".to_string(),
                currency: None,
            }],
        },
        Portfolio { portfolio_name: "Robinhood".to_string(), positions: vec![] },
    ]);
    assert!(is_nothing(&app.handle_key(Key::Enter)));
    app.handle_key(Key::Right);
    assert!(is_nothing(&app.handle_key(Key::Enter)));
    app.handle_key(Key::Char(']'));
    app.handle_key(Key::Down);
    match app.handle_key(Key::Enter) {
        Action::OpenUrl(url) => assert_eq!(url, "https://finance.yahoo.com/quote/NVDA/"),
        other => panic!("unexpected action {:?}", other),
    }
    // Up and down on another section do not reach the position focus.
    app.handle_key(Key::Right);
    app.handle_key(Key::Up);
    app.handle_key(Key::Left);
    assert_eq!(app.focused_ticker(), Some("NVDA"));
}

#[test]
fn markets_keys_move_column_and_row() {
    let mut app = App::new();
    app.load_markets(vec![3, 11, 11]);
    assert!(is_nothing(&app.handle_key(Key::Char(']'))));
    assert_eq!(app.markets_col, 1);
    app.handle_key(Key::Down);
    app.handle_key(Key::Down);
    assert_eq!(app.markets_row, vec![0, 2, 0]);
    app.handle_key(Key::Up);
    assert_eq!(app.markets_row, vec![0, 1, 0]);
    app.handle_key(Key::Char('['));
    app.handle_key(Key::Char('['));
    assert_eq!(app.markets_col, 2);
    app.handle_key(Key::Down);
    assert_eq!(app.markets_row, vec![0, 1, 1]);
    // The same keys on the portfolios section leave the markets focus alone.
    app.handle_key(Key::Right);
    app.handle_key(Key::Down);
    app.handle_key(Key::Char(']'));
    assert_eq!(app.markets_col, 2);
    assert_eq!(app.markets_row, vec![0, 1, 1]);
    assert_eq!(app.active_tab, 1);
}
