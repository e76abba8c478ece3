//! Verified core of the TikTok scraping command-line tool: argument models, request
//! construction, response and error interpretation, and account bookkeeping decisions.

pub mod error;
pub mod json;
pub mod text;
pub mod client;
pub mod cli;
pub mod commands;
pub mod readme;
pub mod account;
