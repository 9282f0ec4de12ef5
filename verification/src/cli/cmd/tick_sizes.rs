//! `nordnet tick-sizes`.

use vstd::prelude::*;
use crate::client::{ApiRequest, BlankBody, Client, is_get};
use crate::ids::TickSizeId;
use crate::resources::instruments::id_path;

verus! {

/// `tick-sizes get`: the identifier.
#[derive(Debug, Clone, Copy, PartialEq, Eq, Structural)]
pub struct GetArgs {
    pub id: i64,
}

/// The operations of `nordnet tick-sizes`.
#[derive(Debug, Clone, PartialEq, Eq)]
pub enum Cmd {
    List,
    Get(GetArgs),
}

impl Cmd {
    /// The path that the operation requests.
    pub open spec fn path(self) -> Seq<char> {
        match self {
            Cmd::List => "/tick_sizes"@,
            Cmd::Get(a) => id_path("/tick_sizes/"@, a.id, Seq::empty()),
        }
    }

    /// What a blank reply to the operation means.
    pub open spec fn blank(self) -> BlankBody {
        if self is Get {
            BlankBody::Decode
        } else {
            BlankBody::Decode
        }
    }

    /// The request of the operation.
    pub fn request(&self, client: &Client) -> (r: ApiRequest<()>)
        ensures
            is_get(r, self.path(), self.blank()),
    {
        match self {
            Cmd::List => client.list_tick_sizes(),
            Cmd::Get(a) => client.get_tick_size(TickSizeId(a.id)),
        }
    }
}

} // verus!
