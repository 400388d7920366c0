//! The rules behind Scrollr: live prices, live games and fantasy leagues.
//!
//! Three services share this library. The finance service ([`finance`]) queues the trades of a
//! price feed and writes them to a table in batches. The sports service ([`sports`]) turns the
//! scoreboards of leagues into rows of a table. The fantasy service ([`yahoo`] and [`backend`])
//! signs users in and shows them their leagues, standings, rosters and matchups.
//!
//! Each of them is written as steps from a state and an event to the next state and an action.
//! What waits, listens, sends, stores and reads the clock stands around the library, and hands it
//! plain values. The calls into other crates are gathered in [`outside`].

pub mod backend;
pub mod database;
pub mod finance;
pub mod number;
pub mod outside;
pub mod service;
pub mod sports;
pub mod text;
pub mod yahoo;
