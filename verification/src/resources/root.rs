//! The root group: `GET /`, the system status.

use vstd::prelude::*;
use crate::client::{ApiRequest, BlankBody, Client, is_get};

verus! {

impl Client {
    /// `GET` of the base URL itself — the system status.
    pub fn get_system_status(&self) -> (r: ApiRequest<()>)
        ensures
            is_get(r, Seq::empty(), BlankBody::Decode),
    {
        proof {
            reveal_strlit("");
            assert(""@ =~= Seq::<char>::empty());
        }
        self.get("")
    }
}

} // verus!
