//! The dashboard's navigation state: which section and sub-tab is shown,
//! which item of each list has the focus, and the symbol-search palette.
use vstd::prelude::*;
use crate::headset::{filing_link, FilingEntry, MarketNews};
use crate::portfolio::Portfolio;
use crate::rapid::EconEvent;
use crate::text::{chars_of, string_from_chars, trim, trim_str};

verus! {

/// Number of main sections.
pub const MAIN_TAB_COUNT: usize = 5;

/// Number of portfolio sub-tabs (the indices tab, then one per portfolio).
pub const TAB_COUNT: usize = 3;

/// Number of news sub-tabs.
pub const NEWS_TAB_COUNT: usize = 4;

/// Number of research sub-tabs.
pub const RESEARCH_SUB_TAB_COUNT: usize = 3;

/// Titles of the main sections.
pub const MAIN_TABS: [&'static str; MAIN_TAB_COUNT] = [
    "Markets Overview",
    "Portfolios",
    "News",
    "Research",
    "Calendar",
];

/// Titles of the portfolio sub-tabs.
pub const TAB_TITLES: [&'static str; TAB_COUNT] = ["Indices", "Schwab", "Robinhood"];

/// Titles of the news sub-tabs, in the order of the news categories.
pub const NEWS_TABS: [&'static str; NEWS_TAB_COUNT] = ["General", "Forex", "Crypto", "Merger"];

/// Titles of the research sub-tabs.
pub const RESEARCH_SUB_TABS: [&'static str; RESEARCH_SUB_TAB_COUNT] = [
    "Basic Financials",
    "Filings",
    "Company Peers",
];

/// Number of portfolios that keep a focused position.
pub const PORTFOLIO_COUNT: usize = 2;

// ── Outside behaviour ─────────────────────────────────────────────────────────

/// What `str::to_uppercase` returns for a string with the characters `s`.
pub uninterp spec fn uppercase(s: Seq<char>) -> Seq<char>;

/// Calls `str::to_uppercase`; its Unicode case mapping is not restated, the
/// result is named `uppercase` of the input. Each character maps to one or
/// more characters, so the result is at least as long as the input, and
/// empty only for an empty input.
#[verifier::external_body]
fn to_uppercase(s: &str) -> (r: String)
    ensures
        r@ == uppercase(s@),
        r@.len() >= s@.len(),
        s@.len() == 0 ==> r@.len() == 0,
{
    s.to_uppercase()
}

// ── Index arithmetic ──────────────────────────────────────────────────────────

/// The tab after `i` among `n`, wrapping to the first.
pub open spec fn next_index(i: nat, n: nat) -> nat {
    (i + 1) % n
}

/// The tab before `i` among `n`, wrapping to the last.
pub open spec fn prev_index(i: nat, n: nat) -> nat {
    if i == 0 {
        (n - 1) as nat
    } else {
        (i - 1) as nat
    }
}

/// The focus one row down a list of `len` rows, stopping at the last row;
/// unchanged on an empty list.
pub open spec fn focus_down(f: nat, len: nat) -> nat {
    if len == 0 {
        f
    } else if f + 1 <= len - 1 {
        f + 1
    } else {
        (len - 1) as nat
    }
}

/// The focus one row up, stopping at the first row.
pub open spec fn focus_up(f: nat) -> nat {
    if f == 0 {
        0
    } else {
        (f - 1) as nat
    }
}

/// A focus that is the first row or a row of a list of `len` rows.
pub open spec fn focus_in(f: nat, len: nat) -> bool {
    f == 0 || f < len
}

/// Law: among `n` tabs, moving to the next tab and back to the previous one
/// (or back and then forth) returns to the tab one started from.
pub proof fn lemma_tab_round_trip(i: nat, n: nat)
    requires
        i < n,
    ensures
        prev_index(next_index(i, n), n) == i,
        next_index(prev_index(i, n), n) == i,
{
    if i + 1 < n {
        assert((i + 1) % n == i + 1) by (nonlinear_arith)
            requires
                i + 1 < n,
        ;
    } else {
        assert((i + 1) % n == 0) by (nonlinear_arith)
            requires
                i + 1 == n,
        ;
    }
    if i == 0 {
        assert(((n - 1) as nat + 1) % n == 0) by (nonlinear_arith)
            requires
                n >= 1,
        ;
    } else {
        assert(i % n == i) by (nonlinear_arith)
            requires
                i < n,
        ;
    }
}

/// Law: moving to the next tab `n` times returns to the starting tab.
pub proof fn lemma_tab_cycle(i: nat, n: nat)
    requires
        i < n,
    ensures
        iterate_next(i, n, n) == i,
{
    lemma_iterate_next(i, n, n);
    assert((i + n) % n == i) by (nonlinear_arith)
        requires
            i < n,
    ;
}

/// The tab reached from `i` by moving to the next tab `k` times among `n`.
pub open spec fn iterate_next(i: nat, n: nat, k: nat) -> nat
    decreases k,
{
    if k == 0 {
        i
    } else {
        next_index(iterate_next(i, n, (k - 1) as nat), n)
    }
}

/// Moving to the next tab `k` times is adding `k` modulo `n`.
proof fn lemma_iterate_next(i: nat, n: nat, k: nat)
    requires
        i < n,
    ensures
        iterate_next(i, n, k) == (i + k) % n,
    decreases k,
{
    if k > 0 {
        lemma_iterate_next(i, n, (k - 1) as nat);
        let j = (i + k - 1) as nat;
        assert(iterate_next(i, n, (k - 1) as nat) == j % n);
        assert(((j % n) + 1) % n == (j + 1) % n) by (nonlinear_arith)
            requires
                n > 0,
        ;
        assert(j + 1 == i + k);
        assert(iterate_next(i, n, k) == ((j % n) + 1) % n);
    } else {
        assert(i % n == i) by (nonlinear_arith)
            requires
                i < n,
        ;
    }
}

/// Law: on a non-empty list, moving the focus down keeps it on a row of the
/// list, and so does moving it up from a row of the list.
pub proof fn lemma_focus_stays_in_list(f: nat, len: nat)
    requires
        len > 0,
    ensures
        focus_down(f, len) < len,
        f < len ==> focus_up(f) < len,
{
}

/// Law: away from the ends of a list, moving the focus down and then up (or
/// up and then down) returns to the same row.
pub proof fn lemma_focus_round_trip(f: nat, len: nat)
    ensures
        f + 1 < len ==> focus_up(focus_down(f, len)) == f,
        0 < f < len ==> focus_down(focus_up(f), len) == f,
{
}

// ── Research palette ──────────────────────────────────────────────────────────

/// Whether the symbol-search palette is open, and what has been typed.
#[derive(Debug, Clone)]
pub enum ResearchMode {
    Idle,
    Inputting(String),
}

/// The text typed into the palette, or `None` when it is closed.
pub open spec fn input_text(mode: ResearchMode) -> Option<Seq<char>> {
    match mode {
        ResearchMode::Idle => None,
        ResearchMode::Inputting(s) => Some(s@),
    }
}

/// The palette text after typing `c` (a closed palette ignores it).
pub open spec fn input_after_push(t: Option<Seq<char>>, c: char) -> Option<Seq<char>> {
    match t {
        Some(s) => Some(s.push(c)),
        None => None,
    }
}

/// The palette text after a backspace (nothing to erase leaves it as is).
pub open spec fn input_after_pop(t: Option<Seq<char>>) -> Option<Seq<char>> {
    match t {
        Some(s) => Some(
            if s.len() > 0 {
                s.drop_last()
            } else {
                s
            },
        ),
        None => None,
    }
}

/// The symbol that submitting the palette text `s` searches for.
pub open spec fn submitted_symbol(s: Seq<char>) -> Seq<char> {
    uppercase(trim(s))
}

/// Law: typing a character and erasing it leaves the palette text as it was.
pub proof fn lemma_push_pop_round_trip(t: Option<Seq<char>>, c: char)
    ensures
        input_after_pop(input_after_push(t, c)) == t,
{
    if let Some(s) = t {
        assert(s.push(c).drop_last() =~= s);
    }
}

// ── State ─────────────────────────────────────────────────────────────────────

/// The dashboard's navigation state, with the lists it moves over. Prices and
/// other amounts that are only displayed are kept beside it by the display
/// layer.
pub struct App {
    /// The portfolios shown on the portfolio sub-tabs after the first.
    pub portfolios: Vec<Portfolio>,
    /// The articles of each news sub-tab.
    pub news_articles: Vec<Vec<MarketNews>>,
    /// Whether the symbol-search palette is open, and its text.
    pub research_mode: ResearchMode,
    /// The symbol last searched for.
    pub research_symbol: Option<String>,
    /// The research sub-tab shown: financials, filings or peers.
    pub research_sub_tab: usize,
    /// The filings of the searched symbol.
    pub research_filings: Vec<FilingEntry>,
    /// The focused filing.
    pub research_filings_focus: usize,
    /// The peers of the searched symbol.
    pub research_peers: Vec<String>,
    /// The focused peer.
    pub research_peers_focus: usize,
    /// The economic calendar's events.
    pub calendar_events: Vec<EconEvent>,
    /// The focused event.
    pub calendar_focus: usize,
    /// Set once the user asked to quit.
    pub should_quit: bool,
    /// Set until the first fetch is done.
    pub loading: bool,
    /// The main section shown.
    pub main_tab: usize,
    /// The portfolio sub-tab shown.
    pub active_tab: usize,
    /// The news sub-tab shown.
    pub news_tab: usize,
    /// The focused article of the shown news sub-tab.
    pub news_focus: usize,
    /// The focused position of each portfolio, if any.
    pub portfolio_focus: [Option<usize>; PORTFOLIO_COUNT],
    /// The number of tickers in each column of the markets overview, in the
    /// order the columns are shown.
    pub market_sizes: Vec<usize>,
    /// The markets overview column that has the focus.
    pub markets_col: usize,
    /// The focused ticker row of each markets overview column.
    pub markets_row: Vec<usize>,
}

/// The portfolio whose positions the focus moves over: the portfolio of the
/// active sub-tab, when the portfolios section shows a portfolio sub-tab.
pub open spec fn portfolio_index(main_tab: nat, active_tab: nat) -> Option<nat> {
    if main_tab != 1 || active_tab == 0 {
        None
    } else {
        Some((active_tab - 1) as nat)
    }
}

impl App {
    /// The state that every operation keeps: tab indices within their tab
    /// rows, one article list per news tab, and every focus on the first row
    /// or a row of its list.
    pub open spec fn wf(&self) -> bool {
        &&& self.main_tab < MAIN_TAB_COUNT
        &&& self.active_tab < TAB_COUNT
        &&& self.news_tab < NEWS_TAB_COUNT
        &&& self.research_sub_tab < RESEARCH_SUB_TAB_COUNT
        &&& self.news_articles.len() == NEWS_TAB_COUNT
        &&& focus_in(self.news_focus as nat, self.news_articles@[self.news_tab as int]@.len())
        &&& focus_in(self.research_filings_focus as nat, self.research_filings@.len())
        &&& focus_in(self.research_peers_focus as nat, self.research_peers@.len())
        &&& focus_in(self.calendar_focus as nat, self.calendar_events@.len())
        &&& forall|i: int|
            0 <= i < PORTFOLIO_COUNT ==> (#[trigger] self.portfolio_focus[i] matches Some(p) ==> i
                < self.portfolios.len() && p < self.portfolios[i].positions.len())
        &&& self.markets_row@.len() == self.market_sizes@.len()
        &&& focus_in(self.markets_col as nat, self.market_sizes@.len())
        &&& forall|c: int|
            0 <= c < self.market_sizes@.len() ==> focus_in(
                #[trigger] self.markets_row@[c] as nat,
                self.market_sizes@[c] as nat,
            )
    }

    /// The positions list the portfolio focus moves over, if any.
    pub open spec fn focused_portfolio(&self) -> Option<nat> {
        portfolio_index(self.main_tab as nat, self.active_tab as nat)
    }

    /// A fresh dashboard: first section, first sub-tabs, nothing loaded yet.
    pub fn new() -> (app: App)
        ensures
            app.wf(),
            app.portfolios@.len() == 0,
            app.news_articles@.len() == NEWS_TAB_COUNT,
            forall|t: int| 0 <= t < NEWS_TAB_COUNT ==> (#[trigger] app.news_articles@[t])@.len() == 0,
            app.research_mode is Idle,
            app.research_symbol is None,
            app.research_sub_tab == 0,
            app.research_filings@.len() == 0,
            app.research_filings_focus == 0,
            app.research_peers@.len() == 0,
            app.research_peers_focus == 0,
            app.calendar_events@.len() == 0,
            app.calendar_focus == 0,
            !app.should_quit,
            app.loading,
            app.main_tab == 0,
            app.active_tab == 0,
            app.news_tab == 0,
            app.news_focus == 0,
            app.portfolio_focus@ == seq![None::<usize>, None::<usize>],
            app.market_sizes@.len() == 0,
            app.markets_col == 0,
            app.markets_row@.len() == 0,
    {
        let mut news_articles: Vec<Vec<MarketNews>> = Vec::new();
        let mut t: usize = 0;
        while t < NEWS_TAB_COUNT
            invariant
                t <= NEWS_TAB_COUNT,
                news_articles@.len() == t,
                forall|k: int| 0 <= k < t ==> (#[trigger] news_articles@[k])@.len() == 0,
            decreases NEWS_TAB_COUNT - t,
        {
            news_articles.push(Vec::new());
            t = t + 1;
        }
        let app = App {
            portfolios: Vec::new(),
            news_articles,
            research_mode: ResearchMode::Idle,
            research_symbol: None,
            research_sub_tab: 0,
            research_filings: Vec::new(),
            research_filings_focus: 0,
            research_peers: Vec::new(),
            research_peers_focus: 0,
            calendar_events: Vec::new(),
            calendar_focus: 0,
            should_quit: false,
            loading: true,
            main_tab: 0,
            active_tab: 0,
            news_tab: 0,
            news_focus: 0,
            portfolio_focus: [None, None],
            market_sizes: Vec::new(),
            markets_col: 0,
            markets_row: Vec::new(),
        };
        assert(app.portfolio_focus@ =~= seq![None::<usize>, None::<usize>]);
        app
    }

    // ── Research ──────────────────────────────────────────────────────────────

    /// Whether the symbol-search palette is open.
    pub fn is_research_inputting(&self) -> (r: bool)
        ensures
            r == (self.research_mode is Inputting),
    {
        match self.research_mode {
            ResearchMode::Inputting(_) => true,
            ResearchMode::Idle => false,
        }
    }

    /// Opens the palette with empty text.
    pub fn research_start_input(&mut self)
        ensures
            *final(self) == (App { research_mode: final(self).research_mode, ..*old(self) }),
            input_text(final(self).research_mode) == Some(Seq::<char>::empty()),
            old(self).wf() ==> final(self).wf(),
    {
        self.research_mode = ResearchMode::Inputting(String::new());
    }

    /// Types `c` into the open palette.
    pub fn research_input_push(&mut self, c: char)
        ensures
            *final(self) == (App { research_mode: final(self).research_mode, ..*old(self) }),
            input_text(final(self).research_mode) == input_after_push(
                input_text(old(self).research_mode),
                c,
            ),
            old(self).wf() ==> final(self).wf(),
    {
        match &self.research_mode {
            ResearchMode::Inputting(s) => {
                let mut v = chars_of(s.as_str());
                v.push(c);
                self.research_mode = ResearchMode::Inputting(string_from_chars(&v));
            },
            ResearchMode::Idle => {},
        }
    }

    /// Erases the last character typed into the open palette.
    pub fn research_input_pop(&mut self)
        ensures
            *final(self) == (App { research_mode: final(self).research_mode, ..*old(self) }),
            input_text(final(self).research_mode) == input_after_pop(input_text(old(self).research_mode)),
            old(self).wf() ==> final(self).wf(),
    {
        match &self.research_mode {
            ResearchMode::Inputting(s) => {
                let mut v = chars_of(s.as_str());
                if v.len() > 0 {
                    let ghost before = v@;
                    v.pop();
                    assert(v@ =~= before.drop_last());
                }
                self.research_mode = ResearchMode::Inputting(string_from_chars(&v));
            },
            ResearchMode::Idle => {},
        }
    }

    /// The text typed into the palette (empty when it is closed).
    pub fn research_input_text(&self) -> (r: &str)
        ensures
            r@ == match input_text(self.research_mode) {
                Some(s) => s,
                None => Seq::empty(),
            },
    {
        match &self.research_mode {
            ResearchMode::Inputting(s) => s.as_str(),
            ResearchMode::Idle => {
                proof {
                    reveal_strlit("");
                }
                ""
            },
        }
    }

    /// Closes the palette.
    pub fn research_cancel(&mut self)
        ensures
            *final(self) == (App { research_mode: ResearchMode::Idle, ..*old(self) }),
            old(self).wf() ==> final(self).wf(),
    {
        self.research_mode = ResearchMode::Idle;
    }

    /// Closes the palette on the search for `symbol` (the typed text, trimmed
    /// and uppercased): stores and returns it, or returns `None` when it is
    /// empty.
    pub fn research_accept_symbol(&mut self, symbol: String) -> (r: Option<String>)
        ensures
            final(self).research_mode is Idle,
            symbol@.len() == 0 ==> r is None && *final(self) == (App {
                research_mode: ResearchMode::Idle,
                ..*old(self)
            }),
            symbol@.len() > 0 ==> r == Some(symbol) && *final(self) == (App {
                research_mode: ResearchMode::Idle,
                research_symbol: Some(symbol),
                ..*old(self)
            }),
            old(self).wf() ==> final(self).wf(),
    {
        self.research_mode = ResearchMode::Idle;
        if symbol.as_str().is_empty() {
            return None;
        }
        self.research_symbol = Some(symbol.clone());
        Some(symbol)
    }

    /// Consumes the input, stores the uppercased symbol, and returns it for
    /// fetching. Returns `None` if the palette was closed or the input empty;
    /// any input with a non-whitespace character is accepted.
    pub fn research_submit(&mut self) -> (r: Option<String>)
        ensures
            old(self).research_mode is Idle ==> r is None && *final(self) == *old(self),
            old(self).research_mode matches ResearchMode::Inputting(s) ==> (r is Some <==> trim(
                s@,
            ).len() > 0),
            old(self).research_mode matches ResearchMode::Inputting(s) ==> {
                let sym = submitted_symbol(s@);
                &&& final(self).research_mode is Idle
                &&& sym.len() == 0 ==> r is None && *final(self) == (App {
                    research_mode: ResearchMode::Idle,
                    ..*old(self)
                })
                &&& sym.len() > 0 ==> (r matches Some(t) && t@ == sym && final(self).research_symbol == r
                    && *final(self) == (App {
                    research_mode: ResearchMode::Idle,
                    research_symbol: final(self).research_symbol,
                    ..*old(self)
                }))
            },
            old(self).wf() ==> final(self).wf(),
    {
        let symbol = match &self.research_mode {
            ResearchMode::Inputting(s) => {
                let trimmed = trim_str(s.as_str());
                let trimmed_text = string_from_chars(&trimmed);
                to_uppercase(trimmed_text.as_str())
            },
            ResearchMode::Idle => return None,
        };
        self.research_accept_symbol(symbol)
    }

    /// Moves to the next research sub-tab, wrapping around.
    pub fn next_research_sub_tab(&mut self)
        requires
            old(self).research_sub_tab < usize::MAX,
        ensures
            *final(self) == (App {
                research_sub_tab: next_index(
                    old(self).research_sub_tab as nat,
                    RESEARCH_SUB_TAB_COUNT as nat,
                ) as usize,
                ..*old(self)
            }),
            old(self).wf() ==> final(self).wf(),
    {
        self.research_sub_tab = (self.research_sub_tab + 1) % RESEARCH_SUB_TAB_COUNT;
    }

    /// Moves to the previous research sub-tab, wrapping around.
    pub fn prev_research_sub_tab(&mut self)
        ensures
            *final(self) == (App {
                research_sub_tab: prev_index(
                    old(self).research_sub_tab as nat,
                    RESEARCH_SUB_TAB_COUNT as nat,
                ) as usize,
                ..*old(self)
            }),
            old(self).wf() ==> final(self).wf(),
    {
        if self.research_sub_tab == 0 {
            self.research_sub_tab = RESEARCH_SUB_TAB_COUNT - 1;
        } else {
            self.research_sub_tab = self.research_sub_tab - 1;
        }
    }

    /// The state after moving the research focus one row down.
    pub open spec fn after_research_focus_next(self) -> App {
        if self.research_sub_tab == 1 {
            App {
                research_filings_focus: focus_down(
                    self.research_filings_focus as nat,
                    self.research_filings@.len(),
                ) as usize,
                ..self
            }
        } else if self.research_sub_tab == 2 {
            App {
                research_peers_focus: focus_down(
                    self.research_peers_focus as nat,
                    self.research_peers@.len(),
                ) as usize,
                ..self
            }
        } else {
            self
        }
    }

    /// Whether moving the research focus down stays within `usize`.
    pub open spec fn research_focus_next_fits(self) -> bool {
        &&& self.research_sub_tab == 1 && self.research_filings.len() > 0
            ==> self.research_filings_focus < usize::MAX
        &&& self.research_sub_tab == 2 && self.research_peers.len() > 0
            ==> self.research_peers_focus < usize::MAX
    }

    /// Moves the focus of the filings or peers list one row down.
    pub fn research_focus_next(&mut self)
        requires
            old(self).research_focus_next_fits(),
        ensures
            *final(self) == old(self).after_research_focus_next(),
            old(self).wf() ==> final(self).wf(),
    {
        match self.research_sub_tab {
            1 => {
                let len = self.research_filings.len();
                if len > 0 {
                    let next = self.research_filings_focus + 1;
                    self.research_filings_focus = if next < len - 1 { next } else { len - 1 };
                }
            },
            2 => {
                let len = self.research_peers.len();
                if len > 0 {
                    let next = self.research_peers_focus + 1;
                    self.research_peers_focus = if next < len - 1 { next } else { len - 1 };
                }
            },
            _ => {},
        }
    }

    /// The state after moving the research focus one row up.
    pub open spec fn after_research_focus_prev(self) -> App {
        if self.research_sub_tab == 1 {
            App { research_filings_focus: focus_up(self.research_filings_focus as nat) as usize, ..self }
        } else if self.research_sub_tab == 2 {
            App { research_peers_focus: focus_up(self.research_peers_focus as nat) as usize, ..self }
        } else {
            self
        }
    }

    /// Moves the focus of the filings or peers list one row up.
    pub fn research_focus_prev(&mut self)
        ensures
            *final(self) == old(self).after_research_focus_prev(),
            old(self).wf() ==> final(self).wf(),
    {
        match self.research_sub_tab {
            1 => self.research_filings_focus = self.research_filings_focus.saturating_sub(1),
            2 => self.research_peers_focus = self.research_peers_focus.saturating_sub(1),
            _ => {},
        }
    }

    /// The link of the focused filing: its report, or else its filing index.
    pub fn focused_filing_url(&self) -> (r: Option<&str>)
        ensures
            r is Some == (self.research_filings_focus < self.research_filings.len() && filing_link(
                self.research_filings[self.research_filings_focus as int],
            ) is Some),
            r matches Some(s) ==> s@ == filing_link(
                self.research_filings[self.research_filings_focus as int],
            )->0,
    {
        if self.research_filings_focus < self.research_filings.len() {
            self.research_filings[self.research_filings_focus].link()
        } else {
            None
        }
    }

    // ── Main nav ──────────────────────────────────────────────────────────────

    /// Moves to the next main section, wrapping around.
    pub fn next_main_tab(&mut self)
        requires
            old(self).main_tab < usize::MAX,
        ensures
            *final(self) == (App {
                main_tab: next_index(old(self).main_tab as nat, MAIN_TAB_COUNT as nat) as usize,
                ..*old(self)
            }),
            old(self).wf() ==> final(self).wf(),
    {
        self.main_tab = (self.main_tab + 1) % MAIN_TAB_COUNT;
    }

    /// Moves to the previous main section, wrapping around.
    pub fn prev_main_tab(&mut self)
        ensures
            *final(self) == (App {
                main_tab: prev_index(old(self).main_tab as nat, MAIN_TAB_COUNT as nat) as usize,
                ..*old(self)
            }),
            old(self).wf() ==> final(self).wf(),
    {
        if self.main_tab == 0 {
            self.main_tab = MAIN_TAB_COUNT - 1;
        } else {
            self.main_tab = self.main_tab - 1;
        }
    }

    // ── Portfolio sub-tabs ────────────────────────────────────────────────────

    /// Moves to the next portfolio sub-tab, wrapping around.
    pub fn next_tab(&mut self)
        requires
            old(self).active_tab < usize::MAX,
        ensures
            *final(self) == (App {
                active_tab: next_index(old(self).active_tab as nat, TAB_COUNT as nat) as usize,
                ..*old(self)
            }),
            old(self).wf() ==> final(self).wf(),
    {
        self.active_tab = (self.active_tab + 1) % TAB_COUNT;
    }

    /// Moves to the previous portfolio sub-tab, wrapping around.
    pub fn prev_tab(&mut self)
        ensures
            *final(self) == (App {
                active_tab: prev_index(old(self).active_tab as nat, TAB_COUNT as nat) as usize,
                ..*old(self)
            }),
            old(self).wf() ==> final(self).wf(),
    {
        if self.active_tab == 0 {
            self.active_tab = TAB_COUNT - 1;
        } else {
            self.active_tab = self.active_tab - 1;
        }
    }

    // ── News sub-tabs ─────────────────────────────────────────────────────────

    /// Moves to the next news sub-tab, wrapping around, with the focus back on
    /// the first article.
    pub fn next_news_tab(&mut self)
        requires
            old(self).news_tab < usize::MAX,
        ensures
            *final(self) == (App {
                news_tab: next_index(old(self).news_tab as nat, NEWS_TAB_COUNT as nat) as usize,
                news_focus: 0,
                ..*old(self)
            }),
            old(self).wf() ==> final(self).wf(),
    {
        self.news_tab = (self.news_tab + 1) % NEWS_TAB_COUNT;
        self.news_focus = 0;
    }

    /// Moves to the previous news sub-tab, wrapping around, with the focus
    /// back on the first article.
    pub fn prev_news_tab(&mut self)
        ensures
            *final(self) == (App {
                news_tab: prev_index(old(self).news_tab as nat, NEWS_TAB_COUNT as nat) as usize,
                news_focus: 0,
                ..*old(self)
            }),
            old(self).wf() ==> final(self).wf(),
    {
        if self.news_tab == 0 {
            self.news_tab = NEWS_TAB_COUNT - 1;
        } else {
            self.news_tab = self.news_tab - 1;
        }
        self.news_focus = 0;
    }

    /// Moves the article focus one row down.
    pub fn news_focus_next(&mut self)
        requires
            old(self).news_tab < old(self).news_articles.len(),
            old(self).news_articles[old(self).news_tab as int].len() > 0 ==> old(self).news_focus
                < usize::MAX,
        ensures
            *final(self) == (App {
                news_focus: focus_down(
                    old(self).news_focus as nat,
                    old(self).news_articles@[old(self).news_tab as int]@.len(),
                ) as usize,
                ..*old(self)
            }),
            old(self).wf() ==> final(self).wf(),
    {
        let len = self.news_articles[self.news_tab].len();
        if len == 0 {
            return;
        }
        let next = self.news_focus + 1;
        self.news_focus = if next < len - 1 { next } else { len - 1 };
    }

    /// Moves the article focus one row up.
    pub fn news_focus_prev(&mut self)
        ensures
            *final(self) == (App { news_focus: focus_up(old(self).news_focus as nat) as usize, ..*old(self) }),
            old(self).wf() ==> final(self).wf(),
    {
        self.news_focus = self.news_focus.saturating_sub(1);
    }

    /// The URL of the focused article of the shown news tab.
    pub fn focused_news_url(&self) -> (r: Option<&str>)
        ensures
            r is Some == (self.news_tab < self.news_articles.len() && self.news_focus
                < self.news_articles@[self.news_tab as int]@.len()),
            r matches Some(s) ==> s@ == self.news_articles[self.news_tab as int][self.news_focus as int].url@,
    {
        if self.news_tab < self.news_articles.len() {
            let articles = &self.news_articles[self.news_tab];
            if self.news_focus < articles.len() {
                return Some(articles[self.news_focus].url.as_str());
            }
        }
        None
    }

    // ── Portfolio position focus ──────────────────────────────────────────────

    fn portfolio_idx(&self) -> (r: Option<usize>)
        ensures
            r matches Some(i) ==> self.focused_portfolio() == Some(i as nat),
            r is None ==> self.focused_portfolio() is None,
    {
        if self.main_tab != 1 || self.active_tab == 0 {
            None
        } else {
            Some(self.active_tab - 1)
        }
    }

    /// The state after moving the position focus of the shown portfolio one
    /// row down: from no focus to the first row, else one row down stopping
    /// at the last row.
    pub open spec fn after_focus_next(self) -> App {
        match self.focused_portfolio() {
            None => self,
            Some(idx) => {
                let len = self.portfolios@[idx as int].positions@.len();
                if len == 0 {
                    self
                } else {
                    App {
                        portfolio_focus: vstd::array::spec_array_update(
                            self.portfolio_focus,
                            idx as int,
                            Some(
                                match self.portfolio_focus[idx as int] {
                                    None => 0,
                                    Some(i) => focus_down(i as nat, len) as usize,
                                },
                            ),
                        ),
                        ..self
                    }
                }
            },
        }
    }

    /// Whether the portfolio of the shown sub-tab, if any, has been loaded.
    pub open spec fn shown_portfolio_loaded(self) -> bool {
        self.focused_portfolio() matches Some(idx) ==> idx < self.portfolios.len()
    }

    /// Whether moving the position focus down is defined: the shown
    /// portfolio exists and the focus can move within `usize`.
    pub open spec fn focus_next_defined(self) -> bool {
        self.focused_portfolio() matches Some(idx) ==> {
            &&& idx < PORTFOLIO_COUNT
            &&& idx < self.portfolios.len()
            &&& self.portfolio_focus[idx as int] matches Some(i) ==> i < usize::MAX
        }
    }

    /// Moves the position focus of the shown portfolio one row down.
    pub fn focus_next(&mut self)
        requires
            old(self).focus_next_defined(),
        ensures
            *final(self) == old(self).after_focus_next(),
            old(self).wf() ==> final(self).wf(),
    {
        let idx = match self.portfolio_idx() {
            Some(idx) => idx,
            None => return,
        };
        let len = self.portfolios[idx].positions.len();
        if len == 0 {
            return;
        }
        let next = match self.portfolio_focus[idx] {
            None => 0,
            Some(i) => if i + 1 < len - 1 { i + 1 } else { len - 1 },
        };
        self.portfolio_focus[idx] = Some(next);
    }

    /// The state after moving the position focus of the shown portfolio one
    /// row up: from the first row to no focus.
    pub open spec fn after_focus_prev(self) -> App {
        match self.focused_portfolio() {
            None => self,
            Some(idx) => App {
                portfolio_focus: vstd::array::spec_array_update(
                    self.portfolio_focus,
                    idx as int,
                    match self.portfolio_focus[idx as int] {
                        None => None,
                        Some(i) => if i == 0 { None } else { Some((i - 1) as usize) },
                    },
                ),
                ..self
            },
        }
    }

    /// Law: on a portfolio sub-tab, moving the position focus up from row
    /// `i > 0` lands on row `i - 1` and only the first row loses the focus;
    /// moving down from a row that is not the last lands on the next row, and
    /// moving down then up returns to the row. The other portfolio's focus
    /// never changes.
    pub proof fn lemma_position_focus_moves(self, idx: nat, i: usize)
        requires
            self.focused_portfolio() == Some(idx),
            idx < PORTFOLIO_COUNT,
            idx < self.portfolios.len(),
            self.portfolio_focus[idx as int] == Some(i),
        ensures
            i > 0 ==> self.after_focus_prev().portfolio_focus[idx as int] == Some((i - 1) as usize),
            i == 0 ==> self.after_focus_prev().portfolio_focus[idx as int] is None,
            i + 1 < self.portfolios[idx as int].positions.len() ==> self.after_focus_next().portfolio_focus[idx as int]
                == Some((i + 1) as usize),
            i + 1 < self.portfolios[idx as int].positions.len()
                ==> self.after_focus_next().after_focus_prev().portfolio_focus[idx as int] == Some(i),
            forall|j: int|
                0 <= j < PORTFOLIO_COUNT && j != idx ==> #[trigger] self.after_focus_prev().portfolio_focus[j]
                    == self.portfolio_focus[j] && self.after_focus_next().portfolio_focus[j]
                    == self.portfolio_focus[j],
    {
    }

    /// Moves the position focus of the shown portfolio one row up.
    pub fn focus_prev(&mut self)
        requires
            old(self).focused_portfolio() matches Some(idx) ==> idx < PORTFOLIO_COUNT,
        ensures
            *final(self) == old(self).after_focus_prev(),
            match old(self).focused_portfolio() {
                Some(idx) => match old(self).portfolio_focus[idx as int] {
                    Some(i) => i > 0 ==> final(self).portfolio_focus[idx as int] == Some((i - 1) as usize),
                    None => true,
                },
                None => true,
            },
            old(self).wf() ==> final(self).wf(),
    {
        let idx = match self.portfolio_idx() {
            Some(idx) => idx,
            None => return,
        };
        self.portfolio_focus[idx] = match self.portfolio_focus[idx] {
            None => None,
            Some(i) => if i == 0 { None } else { Some(i - 1) },
        };
    }

    /// The ticker of the focused position of the shown portfolio, when that
    /// position exists.
    pub open spec fn focused_position(self) -> Option<Seq<char>> {
        match self.focused_portfolio() {
            None => None,
            Some(idx) => match self.portfolio_focus[idx as int] {
                None => None,
                Some(p) => if idx < self.portfolios.len() && p < self.portfolios[idx as int].positions.len() {
                    Some(self.portfolios[idx as int].positions[p as int].ticker@)
                } else {
                    None
                },
            },
        }
    }

    /// The ticker of the focused position of the shown portfolio.
    pub fn focused_ticker(&self) -> (r: Option<&str>)
        requires
            self.focused_portfolio() matches Some(idx) ==> idx < PORTFOLIO_COUNT,
        ensures
            r is Some == (self.focused_position() is Some),
            r matches Some(s) ==> s@ == self.focused_position()->0,
    {
        let idx = match self.portfolio_idx() {
            Some(idx) => idx,
            None => return None,
        };
        let pos_idx = match self.portfolio_focus[idx] {
            Some(p) => p,
            None => return None,
        };
        if idx < self.portfolios.len() {
            let positions = &self.portfolios[idx].positions;
            if pos_idx < positions.len() {
                return Some(positions[pos_idx].ticker.as_str());
            }
        }
        None
    }

    // ── Markets overview ──────────────────────────────────────────────────────

    /// The markets column after the focused one, wrapping to the first (the
    /// focus stays put when there are no columns).
    pub open spec fn markets_col_after_next(self) -> nat {
        if self.market_sizes@.len() == 0 {
            self.markets_col as nat
        } else {
            next_index(self.markets_col as nat, self.market_sizes@.len())
        }
    }

    /// The markets column before the focused one, wrapping to the last (the
    /// focus stays put when there are no columns).
    pub open spec fn markets_col_after_prev(self) -> nat {
        if self.market_sizes@.len() == 0 {
            self.markets_col as nat
        } else {
            prev_index(self.markets_col as nat, self.market_sizes@.len())
        }
    }

    /// Law: with at least one markets column, moving the column focus right
    /// and then left (or left and then right) returns to the focused column,
    /// and either move keeps the focus on a column.
    pub proof fn lemma_markets_col_round_trip(self)
        requires
            self.wf(),
            self.market_sizes@.len() > 0,
        ensures
            (App { markets_col: self.markets_col_after_next() as usize, ..self }).markets_col_after_prev()
                == self.markets_col,
            (App { markets_col: self.markets_col_after_prev() as usize, ..self }).markets_col_after_next()
                == self.markets_col,
            self.markets_col_after_next() < self.market_sizes@.len(),
            self.markets_col_after_prev() < self.market_sizes@.len(),
    {
        assert(self.market_sizes@.len() == self.market_sizes.len());
        lemma_tab_round_trip(self.markets_col as nat, self.market_sizes@.len());
        assert(next_index(self.markets_col as nat, self.market_sizes@.len()) < self.market_sizes@.len())
            by (nonlinear_arith)
            requires
                self.market_sizes@.len() > 0,
        ;
        let next = self.markets_col_after_next();
        let prev = self.markets_col_after_prev();
        assert(next as usize as nat == next);
        assert(prev as usize as nat == prev);
    }

    /// Moves the focus to the next markets overview column, wrapping around.
    pub fn markets_col_next(&mut self)
        requires
            old(self).markets_col < usize::MAX,
        ensures
            *final(self) == (App { markets_col: old(self).markets_col_after_next() as usize, ..*old(self) }),
            old(self).wf() ==> final(self).wf(),
    {
        let n = self.market_sizes.len();
        if n > 0 {
            self.markets_col = (self.markets_col + 1) % n;
        }
    }

    /// Moves the focus to the previous markets overview column, wrapping
    /// around.
    pub fn markets_col_prev(&mut self)
        ensures
            *final(self) == (App { markets_col: old(self).markets_col_after_prev() as usize, ..*old(self) }),
            old(self).wf() ==> final(self).wf(),
    {
        let n = self.market_sizes.len();
        if n > 0 {
            if self.markets_col == 0 {
                self.markets_col = n - 1;
            } else {
                self.markets_col = self.markets_col - 1;
            }
        }
    }

    /// Whether the focused markets column has a row entry and a size.
    pub open spec fn markets_col_known(self) -> bool {
        self.markets_col < self.markets_row@.len() && self.markets_col < self.market_sizes@.len()
    }

    /// The focused row of each markets column after moving the focus of the
    /// focused column one row down, stopping at its last ticker.
    pub open spec fn markets_rows_after_next(self) -> Seq<usize> {
        let c = self.markets_col as int;
        if self.markets_col_known() {
            self.markets_row@.update(
                c,
                focus_down(self.markets_row@[c] as nat, self.market_sizes@[c] as nat) as usize,
            )
        } else {
            self.markets_row@
        }
    }

    /// The focused row of each markets column after moving the focus of the
    /// focused column one row up, stopping at its first ticker.
    pub open spec fn markets_rows_after_prev(self) -> Seq<usize> {
        let c = self.markets_col as int;
        if self.markets_col_known() {
            self.markets_row@.update(c, focus_up(self.markets_row@[c] as nat) as usize)
        } else {
            self.markets_row@
        }
    }

    /// Moves the ticker focus of the focused markets column one row down.
    pub fn markets_row_next(&mut self)
        requires
            old(self).markets_col_known() && old(self).market_sizes@[old(self).markets_col as int] > 0
                ==> old(self).markets_row@[old(self).markets_col as int] < usize::MAX,
        ensures
            *final(self) == (App { markets_row: final(self).markets_row, ..*old(self) }),
            final(self).markets_row@ == old(self).markets_rows_after_next(),
            old(self).wf() ==> final(self).wf(),
    {
        let c = self.markets_col;
        if c < self.markets_row.len() && c < self.market_sizes.len() {
            let len = self.market_sizes[c];
            let row = self.markets_row[c];
            let v = if len == 0 {
                row
            } else if row + 1 < len - 1 {
                row + 1
            } else {
                len - 1
            };
            self.markets_row.set(c, v);
        }
        proof {
            if old(self).markets_col_known() && old(self).market_sizes@[c as int] == 0 {
                assert(old(self).markets_row@.update(c as int, old(self).markets_row@[c as int])
                    =~= old(self).markets_row@);
            }
        }
    }

    /// Moves the ticker focus of the focused markets column one row up.
    pub fn markets_row_prev(&mut self)
        ensures
            *final(self) == (App { markets_row: final(self).markets_row, ..*old(self) }),
            final(self).markets_row@ == old(self).markets_rows_after_prev(),
            old(self).wf() ==> final(self).wf(),
    {
        let c = self.markets_col;
        if c < self.markets_row.len() && c < self.market_sizes.len() {
            let row = self.markets_row[c];
            self.markets_row.set(c, row.saturating_sub(1));
        }
    }

    /// Shows markets columns of `sizes` tickers each, with the focus on the
    /// first ticker of the first column.
    pub fn load_markets(&mut self, sizes: Vec<usize>)
        ensures
            *final(self) == (App {
                market_sizes: sizes,
                markets_col: 0,
                markets_row: final(self).markets_row,
                ..*old(self)
            }),
            final(self).markets_row@ == Seq::new(sizes@.len(), |i: int| 0usize),
            old(self).wf() ==> final(self).wf(),
    {
        let mut rows: Vec<usize> = Vec::new();
        let mut i: usize = 0;
        while i < sizes.len()
            invariant
                i <= sizes@.len(),
                rows@ == Seq::new(i as nat, |k: int| 0usize),
            decreases sizes@.len() - i,
        {
            rows.push(0);
            i = i + 1;
            assert(rows@ =~= Seq::new(i as nat, |k: int| 0usize));
        }
        self.market_sizes = sizes;
        self.markets_col = 0;
        self.markets_row = rows;
    }

    // ── Calendar ──────────────────────────────────────────────────────────────

    /// Moves the calendar focus one row down.
    pub fn calendar_focus_next(&mut self)
        requires
            old(self).calendar_events.len() > 0 ==> old(self).calendar_focus < usize::MAX,
        ensures
            *final(self) == (App {
                calendar_focus: focus_down(
                    old(self).calendar_focus as nat,
                    old(self).calendar_events@.len(),
                ) as usize,
                ..*old(self)
            }),
            old(self).wf() ==> final(self).wf(),
    {
        let len = self.calendar_events.len();
        if len > 0 {
            let next = self.calendar_focus + 1;
            self.calendar_focus = if next < len - 1 { next } else { len - 1 };
        }
    }

    /// Moves the calendar focus one row up.
    pub fn calendar_focus_prev(&mut self)
        ensures
            *final(self) == (App {
                calendar_focus: focus_up(old(self).calendar_focus as nat) as usize,
                ..*old(self)
            }),
            old(self).wf() ==> final(self).wf(),
    {
        self.calendar_focus = self.calendar_focus.saturating_sub(1);
    }

    // ── Loading ───────────────────────────────────────────────────────────────

    /// Shows `portfolios`, with no position focused.
    pub fn load_portfolios(&mut self, portfolios: Vec<Portfolio>)
        ensures
            *final(self) == (App {
                portfolios,
                portfolio_focus: final(self).portfolio_focus,
                ..*old(self)
            }),
            final(self).portfolio_focus@ == seq![None::<usize>, None::<usize>],
            old(self).wf() ==> final(self).wf(),
    {
        self.portfolios = portfolios;
        self.portfolio_focus = [None, None];
        assert(self.portfolio_focus@ =~= seq![None::<usize>, None::<usize>]);
    }

    /// Shows `articles` on news tab `tab`, with the focus on the first
    /// article.
    pub fn load_news(&mut self, tab: usize, articles: Vec<MarketNews>)
        requires
            tab < old(self).news_articles.len(),
        ensures
            *final(self) == (App {
                news_articles: final(self).news_articles,
                news_focus: 0,
                ..*old(self)
            }),
            final(self).news_articles@ == old(self).news_articles@.update(tab as int, articles),
            old(self).wf() ==> final(self).wf(),
    {
        self.news_articles.set(tab, articles);
        self.news_focus = 0;
    }

    /// Shows the filings and peers of a freshly searched symbol, on the first
    /// research sub-tab with both lists focused on their first row.
    pub fn load_research(&mut self, filings: Vec<FilingEntry>, peers: Vec<String>)
        ensures
            *final(self) == (App {
                research_filings: filings,
                research_peers: peers,
                research_sub_tab: 0,
                research_filings_focus: 0,
                research_peers_focus: 0,
                ..*old(self)
            }),
            old(self).wf() ==> final(self).wf(),
    {
        self.research_filings = filings;
        self.research_peers = peers;
        self.research_sub_tab = 0;
        self.research_filings_focus = 0;
        self.research_peers_focus = 0;
    }

    /// Shows `events` on the calendar, with the focus on the first event.
    pub fn load_calendar(&mut self, events: Vec<EconEvent>)
        ensures
            *final(self) == (App { calendar_events: events, calendar_focus: 0, ..*old(self) }),
            old(self).wf() ==> final(self).wf(),
    {
        self.calendar_events = events;
        self.calendar_focus = 0;
    }
}

} // verus!
