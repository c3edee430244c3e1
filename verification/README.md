# cerebro

A terminal dashboard (ratatui) of brokerage portfolios, market news, company
research and the economic calendar, fed by Finnhub, Yahoo Finance, the
Crypto.com Exchange and an economic-calendar API on RapidAPI.

The library under `src/` is written in Verus and verified:

- `app` — the navigation state (`App`): sections, sub-tabs, the focus of
  every list, the symbol-search palette. Every operation keeps the state
  well formed (`App::wf`); laws on tab and focus movement.
- `controls` — what a key press does (`App::handle_key`) and what it leaves
  to the caller (`Action`: fetch research, open a link, refresh news).
- `view` — which pane is shown, the status-bar hints, and the text of list
  rows.
- `dates` — `YYYY-MM-DD` dates from the Unix clock, with proofs that every
  day number has exactly one calendar date.
- `text` — decimal rendering, trimming, truncation, URL scheme stripping,
  relative times and greedy word wrapping, with their laws.
- `hodl`, `headset`, `rapid`, `ydata`, `portfolio` — models, errors and the
  request URLs and queries of the data sources.

The program under `app/` runs the terminal and the network calls, keeps the
prices and other amounts that are only displayed (floating point), and draws
the screen.
