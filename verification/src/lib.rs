//! Accounts, sign-in and usage limits of a multi-account switcher for the Codex CLI.

pub mod account;
pub mod desktop;
pub mod error;
pub mod exchange;
pub mod headers;
pub mod json;
pub mod message;
pub mod metadata;
pub mod oauth;
pub mod renewal;
pub mod requests;
pub mod status;
pub mod switcher;
pub mod text;
pub mod usage;
pub mod warmup;
