//! The subcommands of `nordnet`, as plain values, and the request that
//! each one sends. Printing the reply is the caller's part.

pub mod accounts;
pub mod countries;
pub mod instrument_search;
pub mod instruments;
pub mod login;
pub mod main_search;
pub mod markets;
pub mod news;
pub mod orders;
pub mod orders_read;
pub mod orders_write;
pub mod root;
pub mod tick_sizes;
pub mod tradables;
