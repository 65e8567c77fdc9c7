//! Verified core of a command-line client for the Waldur REST API.

pub mod text;
pub mod json;
pub mod api;
pub mod request;
pub mod http;
pub mod filter;
pub mod config;
pub mod progress;
pub mod web;
pub mod query;
pub mod output;
pub mod batch;
pub mod order;
pub mod wait;
pub mod pagination;
pub mod cli_schema;
