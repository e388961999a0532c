pub mod args;
pub mod balance;
pub mod coverage;
pub mod crawl_loop;
pub mod crawl_output;
pub mod dedup;
pub mod endpoint_args;
pub mod event;
pub mod fetch;
pub mod hashing;
pub mod health;
pub mod healthcheck;
pub mod html;
pub mod item;
pub mod json;
pub mod normalization;
pub mod numbers;
pub mod registry;
pub mod str_map;
pub mod text;
pub mod time;
