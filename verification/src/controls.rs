//! What each key press does to the dashboard, and what the caller has to do
//! outside it (fetch data, open a link).
use vstd::prelude::*;
use crate::app::{
    focus_down, focus_up, input_after_pop, input_text, next_index, prev_index, submitted_symbol, App,
    ResearchMode, MAIN_TAB_COUNT, NEWS_TAB_COUNT, RESEARCH_SUB_TAB_COUNT, TAB_COUNT,
};
use crate::headset::filing_link;
use crate::text::{push_str, string_from_chars, trim};

verus! {

/// The keys the dashboard reacts to.
#[derive(Debug, Clone, Copy, PartialEq, Eq, Structural)]
pub enum Key {
    Char(char),
    Esc,
    Backspace,
    Enter,
    Left,
    Right,
    Up,
    Down,
    Other,
}

/// Work a key press leaves to the caller.
#[derive(Debug, Clone)]
pub enum Action {
    /// Nothing to do.
    Nothing,
    /// Fetch quote, financials, filings and peers for this symbol, then
    /// show them with `App::load_research`.
    FetchResearch(String),
    /// Open this URL in the browser.
    OpenUrl(String),
    /// Fetch the articles of this news tab again, then show them with
    /// `App::load_news`.
    RefreshNews(usize),
}

/// `c` with ASCII `a` to `z` mapped to `A` to `Z` (`char::to_ascii_uppercase`).
pub open spec fn ascii_upper(c: char) -> char {
    if 'a' as u32 <= c as u32 <= 'z' as u32 {
        ((c as u32) - 32) as char
    } else {
        c
    }
}

/// Maps ASCII lowercase letters to uppercase, leaving every other character
/// as it is.
pub fn to_ascii_uppercase(c: char) -> (r: char)
    ensures
        r == ascii_upper(c),
{
    if 'a' <= c && c <= 'z' {
        ((c as u8) - 32) as char
    } else {
        c
    }
}

/// The Yahoo Finance page of `ticker`.
pub open spec fn quote_url(ticker: Seq<char>) -> Seq<char> {
    "https://finance.yahoo.com/quote/"@ + ticker + "/"@
}

/// The Yahoo Finance page of `ticker`.
pub fn quote_page(ticker: &str) -> (url: String)
    ensures
        url@ == quote_url(ticker@),
{
    let mut buf: Vec<char> = Vec::new();
    push_str(&mut buf, "https://finance.yahoo.com/quote/");
    push_str(&mut buf, ticker);
    push_str(&mut buf, "/");
    string_from_chars(&buf)
}

/// The URL of the focused article of the shown news tab, if any.
pub open spec fn focused_article_url(a: App) -> Option<Seq<char>> {
    if a.news_tab < a.news_articles@.len() && a.news_focus < a.news_articles@[a.news_tab as int]@.len() {
        Some(a.news_articles@[a.news_tab as int]@[a.news_focus as int].url@)
    } else {
        None
    }
}

/// The link of the focused filing, if any.
pub open spec fn focused_filing_link(a: App) -> Option<Seq<char>> {
    if a.research_filings_focus < a.research_filings@.len() {
        filing_link(a.research_filings@[a.research_filings_focus as int])
    } else {
        None
    }
}

/// The navigation state after `key` while the palette is closed (the palette
/// itself is opened by `:` on the research section, see `opens_palette`).
/// The focused row of each markets column is given by `rows_after_key`.
pub open spec fn after_key(a: App, key: Key) -> App {
    if key == Key::Char('q') {
        App { should_quit: true, ..a }
    } else if key == Key::Right {
        App { main_tab: next_index(a.main_tab as nat, MAIN_TAB_COUNT as nat) as usize, ..a }
    } else if key == Key::Left {
        App { main_tab: prev_index(a.main_tab as nat, MAIN_TAB_COUNT as nat) as usize, ..a }
    } else if key == Key::Char(':') && a.main_tab == 3 {
        a
    } else if key == Key::Char(']') {
        if a.main_tab == 0 {
            App { markets_col: a.markets_col_after_next() as usize, ..a }
        } else if a.main_tab == 1 {
            App { active_tab: next_index(a.active_tab as nat, TAB_COUNT as nat) as usize, ..a }
        } else if a.main_tab == 2 {
            App {
                news_tab: next_index(a.news_tab as nat, NEWS_TAB_COUNT as nat) as usize,
                news_focus: 0,
                ..a
            }
        } else if a.main_tab == 3 {
            App {
                research_sub_tab: next_index(
                    a.research_sub_tab as nat,
                    RESEARCH_SUB_TAB_COUNT as nat,
                ) as usize,
                ..a
            }
        } else {
            a
        }
    } else if key == Key::Char('[') {
        if a.main_tab == 0 {
            App { markets_col: a.markets_col_after_prev() as usize, ..a }
        } else if a.main_tab == 1 {
            App { active_tab: prev_index(a.active_tab as nat, TAB_COUNT as nat) as usize, ..a }
        } else if a.main_tab == 2 {
            App {
                news_tab: prev_index(a.news_tab as nat, NEWS_TAB_COUNT as nat) as usize,
                news_focus: 0,
                ..a
            }
        } else if a.main_tab == 3 {
            App {
                research_sub_tab: prev_index(
                    a.research_sub_tab as nat,
                    RESEARCH_SUB_TAB_COUNT as nat,
                ) as usize,
                ..a
            }
        } else {
            a
        }
    } else if key == Key::Down {
        if a.main_tab == 1 {
            a.after_focus_next()
        } else if a.main_tab == 2 {
            App {
                news_focus: focus_down(
                    a.news_focus as nat,
                    a.news_articles@[a.news_tab as int]@.len(),
                ) as usize,
                ..a
            }
        } else if a.main_tab == 3 {
            a.after_research_focus_next()
        } else if a.main_tab == 4 {
            App {
                calendar_focus: focus_down(a.calendar_focus as nat, a.calendar_events@.len())
                    as usize,
                ..a
            }
        } else {
            a
        }
    } else if key == Key::Up {
        if a.main_tab == 1 {
            a.after_focus_prev()
        } else if a.main_tab == 2 {
            App { news_focus: focus_up(a.news_focus as nat) as usize, ..a }
        } else if a.main_tab == 3 {
            a.after_research_focus_prev()
        } else if a.main_tab == 4 {
            App { calendar_focus: focus_up(a.calendar_focus as nat) as usize, ..a }
        } else {
            a
        }
    } else {
        a
    }
}

/// The focused row of each markets column after `key` while the palette is
/// closed: up and down on the markets overview move the focus of the focused
/// column.
pub open spec fn rows_after_key(a: App, key: Key) -> Seq<usize> {
    if key == Key::Down && a.main_tab == 0 {
        a.markets_rows_after_next()
    } else if key == Key::Up && a.main_tab == 0 {
        a.markets_rows_after_prev()
    } else {
        a.markets_row@
    }
}

/// Whether `key` opens the symbol-search palette (`:` on the research
/// section, while it is closed).
pub open spec fn opens_palette(a: App, key: Key) -> bool {
    key != Key::Char('q') && key == Key::Char(':') && a.main_tab == 3
}

/// Whether `action` is what `key` asks of the caller while the palette is
/// closed: opening the focused position's quote page on enter, the focused
/// article (news section) or filing (research section) on `o`, refreshing
/// the shown news tab on `r` (news section), else nothing.
pub open spec fn key_action(a: App, key: Key, action: Action) -> bool {
    if key == Key::Enter {
        match a.focused_position() {
            Some(t) => action matches Action::OpenUrl(u) && u@ == quote_url(t),
            None => action is Nothing,
        }
    } else if key == Key::Char('o') && a.main_tab == 2 {
        match focused_article_url(a) {
            Some(url) => action matches Action::OpenUrl(u) && u@ == url,
            None => action is Nothing,
        }
    } else if key == Key::Char('o') && a.main_tab == 3 {
        match focused_filing_link(a) {
            Some(url) => action matches Action::OpenUrl(u) && u@ == url,
            None => action is Nothing,
        }
    } else if key == Key::Char('r') && a.main_tab == 2 {
        action == Action::RefreshNews(a.news_tab)
    } else {
        action is Nothing
    }
}

/// Whether `action` is what `key` asks of the caller while the palette is
/// open: a fetch for the submitted symbol on enter when it is not empty,
/// else nothing.
pub open spec fn palette_action(text: Seq<char>, key: Key, action: Action) -> bool {
    if key == Key::Enter && submitted_symbol(text).len() > 0 {
        action matches Action::FetchResearch(s) && s@ == submitted_symbol(text)
    } else {
        action is Nothing
    }
}

/// The palette text after `key` while it is open (`None` when `key` closes
/// it).
pub open spec fn palette_after_key(text: Seq<char>, key: Key) -> Option<Seq<char>> {
    match key {
        Key::Esc => None,
        Key::Enter => None,
        Key::Backspace => input_after_pop(Some(text)),
        Key::Char(c) => Some(text.push(ascii_upper(c))),
        _ => Some(text),
    }
}

/// Law: `r` on the news section asks to refresh the news tab that is shown,
/// whichever it is, and changes nothing itself; on another section it asks
/// for nothing.
pub proof fn lemma_refresh_shown_news_tab(a: App, action: Action)
    requires
        key_action(a, Key::Char('r'), action),
    ensures
        a.main_tab == 2 ==> action == Action::RefreshNews(a.news_tab),
        a.main_tab != 2 ==> action is Nothing,
        after_key(a, Key::Char('r')) == a,
        rows_after_key(a, Key::Char('r')) == a.markets_row@,
{
}

impl App {
    /// What `key` asks of the caller while the palette is closed.
    fn idle_key_action(&self, key: Key) -> (action: Action)
        requires
            self.wf(),
        ensures
            key_action(*self, key, action),
    {
        match key {
            Key::Enter => match self.focused_ticker() {
                Some(ticker) => Action::OpenUrl(quote_page(ticker)),
                None => Action::Nothing,
            },
            Key::Char('o') if self.main_tab == 2 => match self.focused_news_url() {
                Some(url) => Action::OpenUrl(url.to_owned()),
                None => Action::Nothing,
            },
            Key::Char('o') if self.main_tab == 3 => match self.focused_filing_url() {
                Some(url) => Action::OpenUrl(url.to_owned()),
                None => Action::Nothing,
            },
            Key::Char('r') if self.main_tab == 2 => Action::RefreshNews(self.news_tab),
            _ => Action::Nothing,
        }
    }

    /// Applies `key` to the navigation state while the palette is closed.
    fn apply_idle_key(&mut self, key: Key)
        requires
            old(self).wf(),
            old(self).research_mode is Idle,
            key == Key::Down ==> old(self).shown_portfolio_loaded(),
        ensures
            final(self).wf(),
            *final(self) == (App {
                research_mode: final(self).research_mode,
                markets_row: final(self).markets_row,
                ..after_key(*old(self), key)
            }),
            final(self).markets_row@ == rows_after_key(*old(self), key),
            if opens_palette(*old(self), key) {
                input_text(final(self).research_mode) == Some(Seq::<char>::empty())
            } else {
                final(self).research_mode is Idle
            },
    {
        match key {
            Key::Char('q') => self.should_quit = true,
            Key::Right => self.next_main_tab(),
            Key::Left => self.prev_main_tab(),
            Key::Char(':') if self.main_tab == 3 => self.research_start_input(),
            Key::Char(']') => match self.main_tab {
                0 => {
                    assert(self.market_sizes@.len() == self.market_sizes.len());
                    self.markets_col_next()
                },
                1 => self.next_tab(),
                2 => self.next_news_tab(),
                3 => self.next_research_sub_tab(),
                _ => {},
            },
            Key::Char('[') => match self.main_tab {
                0 => self.markets_col_prev(),
                1 => self.prev_tab(),
                2 => self.prev_news_tab(),
                3 => self.prev_research_sub_tab(),
                _ => {},
            },
            Key::Down => match self.main_tab {
                0 => self.markets_row_next(),
                1 => self.focus_next(),
                2 => self.news_focus_next(),
                3 => self.research_focus_next(),
                4 => self.calendar_focus_next(),
                _ => {},
            },
            Key::Up => match self.main_tab {
                0 => self.markets_row_prev(),
                1 => self.focus_prev(),
                2 => self.news_focus_prev(),
                3 => self.research_focus_prev(),
                4 => self.calendar_focus_prev(),
                _ => {},
            },
            _ => {},
        }
    }

    /// Reacts to a key press: while the symbol-search palette is open, keys
    /// edit, submit (enter) or cancel (escape) the search; otherwise they
    /// quit (`q`), switch sections (left, right), sub-tabs (`[`, `]`), move
    /// the focus (up, down), open the palette (`:`), links (enter, `o`) or
    /// refresh the news (`r`). Returns what is left for the caller to do.
    pub fn handle_key(&mut self, key: Key) -> (action: Action)
        requires
            old(self).wf(),
            old(self).research_mode is Idle && key == Key::Down ==> old(self).shown_portfolio_loaded(),
        ensures
            final(self).wf(),
            old(self).research_mode matches ResearchMode::Inputting(s) ==> {
                &&& *final(self) == (App {
                    research_mode: final(self).research_mode,
                    research_symbol: final(self).research_symbol,
                    ..*old(self)
                })
                &&& input_text(final(self).research_mode) == palette_after_key(s@, key)
                &&& final(self).research_symbol == (if key == Key::Enter && submitted_symbol(s@).len() > 0 {
                    final(self).research_symbol
                } else {
                    old(self).research_symbol
                })
                &&& key == Key::Enter && submitted_symbol(s@).len() > 0 ==> (
                    final(self).research_symbol matches Some(t) && t@ == submitted_symbol(s@))
                &&& palette_action(s@, key, action)
                &&& key == Key::Enter ==> (action is FetchResearch <==> trim(s@).len() > 0)
            },
            old(self).research_mode is Idle ==> {
                &&& *final(self) == (App {
                    research_mode: final(self).research_mode,
                    markets_row: final(self).markets_row,
                    ..after_key(*old(self), key)
                })
                &&& final(self).markets_row@ == rows_after_key(*old(self), key)
                &&& if opens_palette(*old(self), key) {
                    input_text(final(self).research_mode) == Some(Seq::<char>::empty())
                } else {
                    final(self).research_mode is Idle
                }
                &&& key_action(*old(self), key, action)
                &&& key == Key::Char('r') && old(self).main_tab == 2 ==> action == Action::RefreshNews(
                    old(self).news_tab,
                )
            },
    {
        let action = if self.is_research_inputting() {
            match key {
                Key::Esc => {
                    self.research_cancel();
                    Action::Nothing
                },
                Key::Backspace => {
                    self.research_input_pop();
                    Action::Nothing
                },
                Key::Enter => match self.research_submit() {
                    Some(symbol) => Action::FetchResearch(symbol),
                    None => Action::Nothing,
                },
                Key::Char(c) => {
                    self.research_input_push(to_ascii_uppercase(c));
                    Action::Nothing
                },
                _ => Action::Nothing,
            }
        } else {
            let action = self.idle_key_action(key);
            self.apply_idle_key(key);
            action
        };
        action
    }
}

} // verus!
