//! A terminal client library for an issue tracker: a resilient API layer
//! (rate limiting, retry with backoff, tolerant response parsing) and the
//! state machine that drives the interactive views.

pub mod adf;
pub mod cache;
pub mod client;
pub mod config;
pub mod connection;
pub mod error;
pub mod events;
pub mod json;
pub mod lists;
pub mod models;
pub mod parser;
pub mod rate_limiter;
pub mod requests;
pub mod retry;
pub mod services;
pub mod state;
pub mod text;
pub mod time;
pub mod ui;
pub mod validators;
