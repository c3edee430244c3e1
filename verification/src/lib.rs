//! CEREBRO, a terminal dashboard of portfolios, market news, company
//! research and the economic calendar: the verified core. Navigation state
//! and key handling, what each pane shows, calendar dates, text layout, and
//! the request and response shapes of the market-data APIs live here; the
//! terminal, the network and the display of prices live in the program
//! around it.
pub mod app;
pub mod controls;
pub mod dates;
pub mod headset;
pub mod hodl;
pub mod portfolio;
pub mod rapid;
pub mod text;
pub mod view;
pub mod ydata;
