//! `nordnet orders <op>`: the read side and the write side together.

use vstd::prelude::*;

verus! {

/// The operations of `nordnet orders`.
#[derive(Debug, Clone)]
pub enum OrdersCmd {
    Read(crate::cli::cmd::orders_read::Cmd),
    Write(crate::cli::cmd::orders_write::Cmd),
}

} // verus!
