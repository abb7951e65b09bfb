//! The logic of a stock-data service: crumb caching and extraction, request
//! pacing, HTTP request and response texts, routing, the addresses the
//! market-data clients ask, readers for their JSON answers, screener
//! criteria and orderings, portfolio-alert and option-chain rules, shell
//! commands, and the index arithmetic of the technical indicators.

pub mod cache;
pub mod rate_limit;
pub mod text;
pub mod http;
pub mod json;
pub mod api;
pub mod crumb;
pub mod api2;
pub mod napi;
pub mod og;
pub mod cli;
pub mod config;
pub mod indicators;
pub mod summary;
pub mod reports;
pub mod portfolio;
pub mod ordering;
pub mod text_order;
pub mod options;
pub mod endpoints;

pub use config::{ApiConfig, RateLimit};
