//! `nordnet info`: the system status.

use vstd::prelude::*;
use crate::client::{ApiRequest, BlankBody, Client, is_get};

verus! {

/// The root operations.
#[derive(Debug, Clone, Copy, PartialEq, Eq, Structural)]
pub enum Cmd {
    Info,
}

impl Cmd {
    /// The request of the operation: `GET` of the base URL itself.
    pub fn request(&self, client: &Client) -> (r: ApiRequest<()>)
        ensures
            is_get(r, Seq::empty(), BlankBody::Decode),
    {
        client.get_system_status()
    }
}

} // verus!
