//! A command-line client library for a news-aggregation web API: request
//! construction, configuration records, command dispatch and rendering.

pub mod articles;
pub mod cli;
pub mod config;
pub mod list;
pub mod output;
pub mod request;
pub mod text;
