//! Live games: which leagues are read, what a scoreboard comes to, what goes to the table.

pub mod games;
pub mod ingest;
pub mod leagues;
