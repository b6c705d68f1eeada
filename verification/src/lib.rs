//! Verified core of a client and command-line tool for the UniFi Protect
//! local integration API.

pub mod text;
pub mod time;
pub mod retry;
pub mod rate_limit;
pub mod env;
pub mod logging;
pub mod api_key;
pub mod config;
pub mod output;
pub mod models;
pub mod error;
pub mod cameras;
pub mod auth;
pub mod client;
pub mod commands;
pub mod json;
pub mod spec_rewrite;
