use cerebro::app::App;
use cerebro::headset::FilingEntry;
use cerebro::view::{
    category_badge, content_view, date_display, filing_display, has_sub_tabs, importance_label,
    status_hints, ContentView, Hint,
};

fn render(hints: &[Hint]) -> String {
    hints
        .iter()
        .map(|h| match h {
            Hint::Key(k) => format!("<{}>", k),
            Hint::Text(t) => t.to_string(),
        })
        .collect()
}

#[test]
fn content_follows_section_and_sub_tab() {
    let mut app = App::new();
    assert_eq!(content_view(&app), ContentView::Loading);
    app.loading = false;
    assert_eq!(content_view(&app), ContentView::MarketsOverview);
    assert!(!has_sub_tabs(&app));
    app.next_main_tab();
    assert!(has_sub_tabs(&app));
    assert_eq!(content_view(&app), ContentView::Indices);
    app.next_tab();
    assert_eq!(content_view(&app), ContentView::Portfolio(0));
    app.next_tab();
    assert_eq!(content_view(&app), ContentView::Portfolio(1));
    app.next_main_tab();
    assert_eq!(content_view(&app), ContentView::News);
    app.next_main_tab();
    assert_eq!(content_view(&app), ContentView::Research);
    assert!(!has_sub_tabs(&app));
}

#[test]
fn status_bar_hints() {
    let mut app = App::new();
    assert_eq!(
        render(&status_hints(&app, false)),
        "<q>quit  <\u{2190} \u{2192}>section  <[ ]>column  <\u{2191} \u{2193}>navigate"
    );
    app.next_main_tab();
    assert_eq!(render(&status_hints(&app, false)), "<q>quit  <\u{2190} \u{2192}>section  <[ ]>sub-tab");
    app.next_tab();
    assert!(render(&status_hints(&app, false)).ends_with("<Enter>open in browser"));
    app.next_main_tab();
    assert!(render(&status_hints(&app, false)).ends_with("<r>refresh"));
    app.next_main_tab();
    assert!(render(&status_hints(&app, false)).ends_with("<:>search"));
    app.next_research_sub_tab();
    assert!(render(&status_hints(&app, true)).ends_with("<[ ]>sub-tab  <\u{2191} \u{2193}>navigate  <o>open"));
    app.research_start_input();
    assert_eq!(render(&status_hints(&app, true)), "<Enter>search  <Esc>cancel");
}

#[test]
fn importance_labels() {
    assert_eq!(importance_label(Some(3)), "High");
    assert_eq!(importance_label(Some(2)), "Medium");
    assert_eq!(importance_label(Some(1)), "Low");
    assert_eq!(importance_label(Some(0)), "\u{2014}");
    assert_eq!(importance_label(None), "\u{2014}");
}

#[test]
fn category_badges() {
    assert_eq!(category_badge("top news"), "");
    assert_eq!(category_badge("forex"), " [forex]");
}

#[test]
fn calendar_dates() {
    assert_eq!(date_display("2024-01-31T13:30:00.000Z"), "2024-01-31");
    assert_eq!(date_display("2024-01-31"), "2024-01-31");
    assert_eq!(date_display("Jan 2024"), "Jan 2024");
    // The tenth byte falls inside a two-byte character: the whole text shows.
    assert_eq!(date_display("2024-01-3\u{e9}x"), "2024-01-3\u{e9}x");
    assert_eq!(date_display("2024-01-\u{e9}x"), "2024-01-\u{e9}");
}

#[test]
fn filing_rows() {
    let f = FilingEntry {
        form: Some("10-Q".to_string()),
        filed_date: Some("2024-05-03".to_string()),
        report_url: Some("https://www.sec.gov/a".to_string()),
        filing_url: Some("http://www.sec.gov/b".to_string()),
    };
    assert_eq!(
        filing_display(&f),
        ("10-Q".to_string(), "2024-05-03".to_string(), "www.sec.gov/a".to_string())
    );
    let g = FilingEntry { form: None, filed_date: None, report_url: None, filing_url: None };
    assert_eq!(
        filing_display(&g),
        ("\u{2014}".to_string(), "\u{2014}".to_string(), String::new())
    );
}
