//! The web pages of the fantasy service: signing in, and what each page answers.

pub mod auth;
pub mod reply;
pub mod roster;
