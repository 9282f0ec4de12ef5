//! `nordnet news`.

use vstd::prelude::*;
use crate::client::{ApiRequest, BlankBody, Client, is_get};
use crate::ids::NewsId;
use crate::resources::instruments::id_path;

verus! {

/// `news get`: the identifier.
#[derive(Debug, Clone, Copy, PartialEq, Eq, Structural)]
pub struct GetArgs {
    pub id: i64,
}

/// The operations of `nordnet news`.
#[derive(Debug, Clone, PartialEq, Eq)]
pub enum Cmd {
    Sources,
    Get(GetArgs),
}

impl Cmd {
    /// The path that the operation requests.
    pub open spec fn path(self) -> Seq<char> {
        match self {
            Cmd::Sources => "/news_sources"@,
            Cmd::Get(a) => id_path("/news/"@, a.id, Seq::empty()),
        }
    }

    /// What a blank reply to the operation means.
    pub open spec fn blank(self) -> BlankBody {
        if self is Get {
            BlankBody::EmptyResult
        } else {
            BlankBody::Decode
        }
    }

    /// The request of the operation.
    pub fn request(&self, client: &Client) -> (r: ApiRequest<()>)
        ensures
            is_get(r, self.path(), self.blank()),
    {
        match self {
            Cmd::Sources => client.list_news_sources(),
            Cmd::Get(a) => client.get_news_item(NewsId(a.id)),
        }
    }
}

} // verus!
