//! What the screen shows for a given state: which pane fills the content
//! area, the key hints of the status bar, and the text of list rows.
use vstd::prelude::*;
use crate::app::{App, input_text, MAIN_TABS, MAIN_TAB_COUNT, TAB_COUNT};
use crate::headset::{filing_link, FilingEntry};
use crate::text::{
    char_utf8_width, chars_of, push_str, scheme_stripped, string_from_chars, strip_scheme, utf8_len,
};

verus! {

// ── Layout ────────────────────────────────────────────────────────────────────

/// The pane that fills the content area.
#[derive(Debug, Clone, Copy, PartialEq, Eq, Structural)]
pub enum ContentView {
    /// "Loading data..." while the first fetch runs.
    Loading,
    /// The markets overview of the first section.
    MarketsOverview,
    /// Index quotes and the earnings calendar.
    Indices,
    /// The positions of portfolio `n`.
    Portfolio(usize),
    /// Headlines and the focused article.
    News,
    /// Symbol search results.
    Research,
    /// Economic calendar.
    Calendar,
    /// The "coming soon" placeholder of a section without content.
    Placeholder,
    /// Nothing (a portfolio sub-tab past the last).
    Blank,
}

/// The pane shown for a state: loading until the first fetch is done, then
/// by section (and, on the portfolio section, by sub-tab).
pub open spec fn spec_content_view(loading: bool, main_tab: nat, active_tab: nat) -> ContentView {
    if loading {
        ContentView::Loading
    } else if main_tab == 0 {
        ContentView::MarketsOverview
    } else if main_tab == 1 {
        if active_tab == 0 {
            ContentView::Indices
        } else if active_tab == 1 {
            ContentView::Portfolio(0)
        } else if active_tab == 2 {
            ContentView::Portfolio(1)
        } else {
            ContentView::Blank
        }
    } else if main_tab == 2 {
        ContentView::News
    } else if main_tab == 3 {
        ContentView::Research
    } else if main_tab == 4 {
        ContentView::Calendar
    } else {
        ContentView::Placeholder
    }
}

/// The pane that fills the content area.
pub fn content_view(app: &App) -> (v: ContentView)
    ensures
        v == spec_content_view(app.loading, app.main_tab as nat, app.active_tab as nat),
{
    if app.loading {
        ContentView::Loading
    } else {
        match app.main_tab {
            0 => ContentView::MarketsOverview,
            1 => match app.active_tab {
                0 => ContentView::Indices,
                1 => ContentView::Portfolio(0),
                2 => ContentView::Portfolio(1),
                _ => ContentView::Blank,
            },
            2 => ContentView::News,
            3 => ContentView::Research,
            4 => ContentView::Calendar,
            _ => ContentView::Placeholder,
        }
    }
}

/// The title of the section a pane belongs to (empty for the panes of no
/// section).
pub open spec fn pane_section_title(v: ContentView) -> Seq<char> {
    match v {
        ContentView::MarketsOverview => "Markets Overview"@,
        ContentView::Indices => "Portfolios"@,
        ContentView::Portfolio(_) => "Portfolios"@,
        ContentView::News => "News"@,
        ContentView::Research => "Research"@,
        ContentView::Calendar => "Calendar"@,
        _ => Seq::empty(),
    }
}

/// Law: once loaded, every section shows its own content: on each of the
/// sections of `MAIN_TABS` (with a sub-tab of the portfolio row) the pane is
/// neither the loading screen, the placeholder nor blank, and it belongs to
/// the section whose title is shown selected. The portfolio sub-tabs after
/// the first show the portfolios in order.
pub proof fn lemma_content_follows_section(loading: bool, main_tab: nat, active_tab: nat)
    requires
        !loading,
        main_tab < MAIN_TAB_COUNT,
        active_tab < TAB_COUNT,
    ensures
        !(spec_content_view(loading, main_tab, active_tab) is Placeholder),
        !(spec_content_view(loading, main_tab, active_tab) is Blank),
        !(spec_content_view(loading, main_tab, active_tab) is Loading),
        pane_section_title(spec_content_view(loading, main_tab, active_tab)) == MAIN_TABS@[main_tab as int]@,
        main_tab == 1 && active_tab > 0 ==> spec_content_view(loading, main_tab, active_tab)
            == ContentView::Portfolio((active_tab - 1) as usize),
{
    reveal_strlit("Markets Overview");
    reveal_strlit("Portfolios");
    reveal_strlit("News");
    reveal_strlit("Research");
    reveal_strlit("Calendar");
}

/// Whether a row of sub-tabs sits between the main navigation and the
/// content: on the portfolio and news sections.
pub fn has_sub_tabs(app: &App) -> (r: bool)
    ensures
        r == (app.main_tab == 1 || app.main_tab == 2),
{
    app.main_tab == 1 || app.main_tab == 2
}

// ── Status bar ────────────────────────────────────────────────────────────────

/// A piece of the status bar: a highlighted key, or plain text.
#[derive(Debug, Clone, Copy)]
pub enum Hint {
    Key(&'static str),
    Text(&'static str),
}

/// A hint as (is a key, its text).
pub open spec fn hint_view(h: Hint) -> (bool, Seq<char>) {
    match h {
        Hint::Key(s) => (true, s@),
        Hint::Text(s) => (false, s@),
    }
}

/// The views of a list of hints.
pub open spec fn hints_view(hs: Seq<Hint>) -> Seq<(bool, Seq<char>)> {
    hs.map_values(|h: Hint| hint_view(h))
}

/// A highlighted key.
pub open spec fn key_hint(s: &str) -> (bool, Seq<char>) {
    (true, s@)
}

/// Plain text.
pub open spec fn text_hint(s: &str) -> (bool, Seq<char>) {
    (false, s@)
}

/// The hints of the status bar: the palette's keys while it is open, else
/// quitting and switching sections, followed by the keys of the shown
/// section (with selection on a portfolio sub-tab, and on the research
/// section sub-tab keys once a quote is shown, plus list keys on the filings
/// and peers sub-tabs).
pub open spec fn spec_status_hints(
    inputting: bool,
    main_tab: nat,
    active_tab: nat,
    research_sub_tab: nat,
    has_research_quote: bool,
) -> Seq<(bool, Seq<char>)> {
    let arrows = "\u{2191} \u{2193}";
    if inputting {
        seq![key_hint("Enter"), text_hint("search  "), key_hint("Esc"), text_hint("cancel")]
    } else {
        let common = seq![
            key_hint("q"),
            text_hint("quit  "),
            key_hint("\u{2190} \u{2192}"),
            text_hint("section"),
        ];
        common + if main_tab == 0 {
            seq![
                text_hint("  "),
                key_hint("[ ]"),
                text_hint("column  "),
                key_hint(arrows),
                text_hint("navigate"),
            ]
        } else if main_tab == 1 {
            seq![text_hint("  "), key_hint("[ ]"), text_hint("sub-tab")] + if active_tab > 0 {
                seq![
                    text_hint("  "),
                    key_hint(arrows),
                    text_hint("select  "),
                    key_hint("Enter"),
                    text_hint("open in browser"),
                ]
            } else {
                Seq::empty()
            }
        } else if main_tab == 2 {
            seq![
                text_hint("  "),
                key_hint("[ ]"),
                text_hint("sub-tab  "),
                key_hint(arrows),
                text_hint("navigate  "),
                key_hint("o"),
                text_hint("open  "),
                key_hint("r"),
                text_hint("refresh"),
            ]
        } else if main_tab == 3 {
            seq![text_hint("  "), key_hint(":"), text_hint("search")] + if has_research_quote {
                seq![text_hint("  "), key_hint("[ ]"), text_hint("sub-tab")] + if research_sub_tab
                    == 1 {
                    seq![
                        text_hint("  "),
                        key_hint(arrows),
                        text_hint("navigate  "),
                        key_hint("o"),
                        text_hint("open"),
                    ]
                } else if research_sub_tab == 2 {
                    seq![text_hint("  "), key_hint(arrows), text_hint("navigate")]
                } else {
                    Seq::empty()
                }
            } else {
                Seq::empty()
            }
        } else if main_tab == 4 {
            seq![text_hint("  "), key_hint(arrows), text_hint("navigate")]
        } else {
            Seq::empty()
        }
    }
}

fn push_hint(hs: &mut Vec<Hint>, h: Hint)
    ensures
        hints_view(final(hs)@) == hints_view(old(hs)@).push(hint_view(h)),
{
    let ghost before = hs@;
    hs.push(h);
    assert(hints_view(hs@) =~= hints_view(before).push(hint_view(h)));
}

/// The hints of the status bar for `app`; `has_research_quote` tells whether
/// the research section shows a quote.
pub fn status_hints(app: &App, has_research_quote: bool) -> (hs: Vec<Hint>)
    ensures
        hints_view(hs@) == spec_status_hints(
            input_text(app.research_mode) is Some,
            app.main_tab as nat,
            app.active_tab as nat,
            app.research_sub_tab as nat,
            has_research_quote,
        ),
{
    let mut hs: Vec<Hint> = Vec::new();
    if app.is_research_inputting() {
        push_hint(&mut hs, Hint::Key("Enter"));
        push_hint(&mut hs, Hint::Text("search  "));
        push_hint(&mut hs, Hint::Key("Esc"));
        push_hint(&mut hs, Hint::Text("cancel"));
    } else {
        push_hint(&mut hs, Hint::Key("q"));
        push_hint(&mut hs, Hint::Text("quit  "));
        push_hint(&mut hs, Hint::Key("\u{2190} \u{2192}"));
        push_hint(&mut hs, Hint::Text("section"));
        match app.main_tab {
            0 => {
                push_hint(&mut hs, Hint::Text("  "));
                push_hint(&mut hs, Hint::Key("[ ]"));
                push_hint(&mut hs, Hint::Text("column  "));
                push_hint(&mut hs, Hint::Key("\u{2191} \u{2193}"));
                push_hint(&mut hs, Hint::Text("navigate"));
            },
            1 => {
                push_hint(&mut hs, Hint::Text("  "));
                push_hint(&mut hs, Hint::Key("[ ]"));
                push_hint(&mut hs, Hint::Text("sub-tab"));
                if app.active_tab > 0 {
                    push_hint(&mut hs, Hint::Text("  "));
                    push_hint(&mut hs, Hint::Key("\u{2191} \u{2193}"));
                    push_hint(&mut hs, Hint::Text("select  "));
                    push_hint(&mut hs, Hint::Key("Enter"));
                    push_hint(&mut hs, Hint::Text("open in browser"));
                }
            },
            2 => {
                push_hint(&mut hs, Hint::Text("  "));
                push_hint(&mut hs, Hint::Key("[ ]"));
                push_hint(&mut hs, Hint::Text("sub-tab  "));
                push_hint(&mut hs, Hint::Key("\u{2191} \u{2193}"));
                push_hint(&mut hs, Hint::Text("navigate  "));
                push_hint(&mut hs, Hint::Key("o"));
                push_hint(&mut hs, Hint::Text("open  "));
                push_hint(&mut hs, Hint::Key("r"));
                push_hint(&mut hs, Hint::Text("refresh"));
            },
            3 => {
                push_hint(&mut hs, Hint::Text("  "));
                push_hint(&mut hs, Hint::Key(":"));
                push_hint(&mut hs, Hint::Text("search"));
                if has_research_quote {
                    push_hint(&mut hs, Hint::Text("  "));
                    push_hint(&mut hs, Hint::Key("[ ]"));
                    push_hint(&mut hs, Hint::Text("sub-tab"));
                    match app.research_sub_tab {
                        1 => {
                            push_hint(&mut hs, Hint::Text("  "));
                            push_hint(&mut hs, Hint::Key("\u{2191} \u{2193}"));
                            push_hint(&mut hs, Hint::Text("navigate  "));
                            push_hint(&mut hs, Hint::Key("o"));
                            push_hint(&mut hs, Hint::Text("open"));
                        },
                        2 => {
                            push_hint(&mut hs, Hint::Text("  "));
                            push_hint(&mut hs, Hint::Key("\u{2191} \u{2193}"));
                            push_hint(&mut hs, Hint::Text("navigate"));
                        },
                        _ => {},
                    }
                }
            },
            4 => {
                push_hint(&mut hs, Hint::Text("  "));
                push_hint(&mut hs, Hint::Key("\u{2191} \u{2193}"));
                push_hint(&mut hs, Hint::Text("navigate"));
            },
            _ => {},
        }
    }
    assert(hints_view(hs@) =~= spec_status_hints(
        input_text(app.research_mode) is Some,
        app.main_tab as nat,
        app.active_tab as nat,
        app.research_sub_tab as nat,
        has_research_quote,
    ));
    hs
}

// ── Rows ──────────────────────────────────────────────────────────────────────

/// How an importance tier reads: 3 high, 2 medium, 1 low, otherwise a dash.
pub open spec fn spec_importance_label(importance: Option<i64>) -> Seq<char> {
    match importance {
        Some(3) => "High"@,
        Some(2) => "Medium"@,
        Some(1) => "Low"@,
        _ => "\u{2014}"@,
    }
}

/// How an importance tier reads in the event detail.
pub fn importance_label(importance: Option<i64>) -> (s: &'static str)
    ensures
        s@ == spec_importance_label(importance),
{
    match importance {
        Some(3) => "High",
        Some(2) => "Medium",
        Some(1) => "Low",
        _ => "\u{2014}",
    }
}

/// The badge after a headline: ` [category]`, except for top news.
pub open spec fn spec_category_badge(category: Seq<char>) -> Seq<char> {
    if category != "top news"@ {
        " ["@ + category + "]"@
    } else {
        Seq::empty()
    }
}

/// The badge after a headline naming its category, empty for top news.
pub fn category_badge(category: &str) -> (s: String)
    ensures
        s@ == spec_category_badge(category@),
{
    let top = "top news".to_owned();
    let cat = category.to_owned();
    if cat != top {
        let mut buf: Vec<char> = Vec::new();
        push_str(&mut buf, " [");
        push_str(&mut buf, category);
        push_str(&mut buf, "]");
        string_from_chars(&buf)
    } else {
        let buf: Vec<char> = Vec::new();
        assert(buf@ =~= Seq::<char>::empty());
        string_from_chars(&buf)
    }
}

/// The first `count` characters of `s` when they take exactly `bytes` bytes
/// of UTF-8.
pub open spec fn byte_prefix_at(s: Seq<char>, bytes: nat, count: int) -> bool {
    0 <= count <= s.len() && utf8_len(s.take(count)) == bytes
}

/// What a calendar row shows of an event date: its first ten bytes when
/// they end on a character boundary (`str::get(..10)`), else the whole date.
pub open spec fn spec_date_display(date: Seq<char>) -> Seq<char> {
    if exists|count: int| byte_prefix_at(date, 10, count) {
        date.take(choose|count: int| byte_prefix_at(date, 10, count))
    } else {
        date
    }
}

/// Prefix lengths grow strictly with the prefix, so a byte length is reached
/// by at most one prefix.
proof fn lemma_utf8_prefix_strict(s: Seq<char>, a: int, b: int)
    requires
        0 <= a < b <= s.len(),
    ensures
        utf8_len(s.take(a)) < utf8_len(s.take(b)),
    decreases b - a,
{
    assert(s.take(b).drop_last() =~= s.take(b - 1));
    if a < b - 1 {
        lemma_utf8_prefix_strict(s, a, b - 1);
    }
}

/// The date of a calendar row: the first ten bytes of `date` (date and time
/// to the minute of an ISO 8601 stamp are its first ten characters), or the
/// whole of it when those bytes do not end on a character.
pub fn date_display(date: &str) -> (s: String)
    ensures
        s@ == spec_date_display(date@),
{
    let v = chars_of(date);
    let mut count: usize = 0;
    let mut bytes: u64 = 0;
    assert(v@.take(0) =~= Seq::<char>::empty());
    while count < v.len() && bytes < 10
        invariant
            count <= v.len(),
            v@ == date@,
            bytes == utf8_len(v@.take(count as int)),
            bytes <= 13,
            forall|c: int| 0 <= c < count ==> utf8_len(#[trigger] v@.take(c)) < 10,
        decreases v.len() - count,
    {
        assert(v@.take(count + 1).drop_last() =~= v@.take(count as int));
        bytes = bytes + char_utf8_width(v[count]) as u64;
        count = count + 1;
    }
    if bytes == 10 {
        proof {
            assert(byte_prefix_at(date@, 10, count as int));
            let c = choose|c: int| byte_prefix_at(date@, 10, c);
            if c < count {
                lemma_utf8_prefix_strict(date@, c, count as int);
            } else if c > count {
                lemma_utf8_prefix_strict(date@, count as int, c);
            }
        }
        let mut out: Vec<char> = Vec::new();
        let mut i: usize = 0;
        while i < count
            invariant
                i <= count <= v.len(),
                out@ == v@.take(i as int),
            decreases count - i,
        {
            out.push(v[i]);
            i = i + 1;
            assert(out@ =~= v@.take(i as int));
        }
        string_from_chars(&out)
    } else {
        proof {
            assert forall|c: int| !byte_prefix_at(date@, 10, c) by {
                if 0 <= c <= date@.len() && utf8_len(date@.take(c)) == 10 {
                    if c < count {
                    } else if c > count {
                        lemma_utf8_prefix_strict(date@, count as int, c);
                        if count == v.len() {
                        }
                    }
                }
            }
        }
        let out = chars_of(date);
        string_from_chars(&out)
    }
}

/// The three lines of a filing row: the form type and the filing date
/// (a dash when unknown), and the link without its scheme (empty when
/// there is none).
pub open spec fn spec_filing_display(f: FilingEntry) -> (Seq<char>, Seq<char>, Seq<char>) {
    (
        match f.form {
            Some(s) => s@,
            None => "\u{2014}"@,
        },
        match f.filed_date {
            Some(s) => s@,
            None => "\u{2014}"@,
        },
        match filing_link(f) {
            Some(u) => scheme_stripped(u),
            None => scheme_stripped(Seq::empty()),
        },
    )
}

/// The text of a filing row.
pub fn filing_display(f: &FilingEntry) -> (r: (String, String, String))
    ensures
        (r.0@, r.1@, r.2@) == spec_filing_display(*f),
{
    let form = match &f.form {
        Some(s) => s.clone(),
        None => "\u{2014}".to_owned(),
    };
    let date = match &f.filed_date {
        Some(s) => s.clone(),
        None => "\u{2014}".to_owned(),
    };
    let url = match f.link() {
        Some(u) => strip_scheme(u),
        None => {
            proof {
                reveal_strlit("");
            }
            strip_scheme("")
        },
    };
    (form, date, url)
}

} // verus!
