//! The decisions of the `nordnet` command line: configuration layering,
//! session bookkeeping, argument parsing and the `--fields` output filter.

pub mod cmd;
pub mod config;
pub mod output;
pub mod session;
pub mod tradables;
