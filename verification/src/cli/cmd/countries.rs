//! `nordnet countries`.

use vstd::prelude::*;
use crate::client::{ApiRequest, BlankBody, Client, is_get};

verus! {

/// `countries get`: one or more ISO codes, comma-separated.
#[derive(Debug, Clone, PartialEq, Eq)]
pub struct GetArgs {
    pub code: String,
}

/// The operations of `nordnet countries`.
#[derive(Debug, Clone, PartialEq, Eq)]
pub enum Cmd {
    List,
    Get(GetArgs),
}

impl Cmd {
    /// The path that the operation requests.
    pub open spec fn path(self) -> Seq<char> {
        match self {
            Cmd::List => "/countries"@,
            Cmd::Get(a) => "/countries/"@ + a.code@,
        }
    }

    /// What a blank reply to the operation means.
    pub open spec fn blank(self) -> BlankBody {
        if self is Get {
            BlankBody::EmptyResult
        } else {
            BlankBody::Decode
        }
    }

    /// The request of the operation.
    pub fn request(&self, client: &Client) -> (r: ApiRequest<()>)
        ensures
            is_get(r, self.path(), self.blank()),
    {
        match self {
            Cmd::List => client.list_countries(),
            Cmd::Get(a) => client.get_country(a.code.as_str()),
        }
    }
}

} // verus!
