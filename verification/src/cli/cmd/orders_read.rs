//! `nordnet orders list`.

use vstd::prelude::*;
use crate::client::{ApiRequest, BlankBody, Client, is_get};
use crate::ids::AccountId;
use crate::resources::orders::list_orders_path;

verus! {

/// `orders list`: the account, and whether today's deleted orders are
/// included.
#[derive(Debug, Clone, Copy, PartialEq, Eq, Structural)]
pub struct ListArgs {
    pub accid: i64,
    pub deleted: Option<bool>,
}

/// The read-side operation of `nordnet orders`.
#[derive(Debug, Clone, Copy, PartialEq, Eq, Structural)]
pub enum Cmd {
    List(ListArgs),
}

impl Cmd {
    /// The request of the operation.
    pub fn request(&self, client: &Client) -> (r: ApiRequest<()>)
        ensures
            self matches Cmd::List(a) && is_get(
                r,
                list_orders_path(AccountId(a.accid), a.deleted),
                BlankBody::EmptyResult,
            ),
    {
        match self {
            Cmd::List(a) => client.list_orders(AccountId(a.accid), a.deleted),
        }
    }
}

} // verus!
