//! Verified core of a command-line client for the Nordnet External API v2.

pub mod auth;
pub mod cli;
pub mod client;
pub mod error;
pub mod form;
pub mod ids;
pub mod models;
pub mod pagination;
pub mod resources;
pub mod text;
