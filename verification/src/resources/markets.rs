//! The `markets` group: `GET /markets` and `GET /markets/{market_id}`.
//! One market that does not exist is answered 204, read as an empty list.

use vstd::prelude::*;
use crate::client::{ApiRequest, BlankBody, Client, is_get};
use crate::ids::MarketId;
use crate::resources::instruments::{id_path, id_path_string};

verus! {

impl Client {
    /// `GET /markets` — every tradable market.
    pub fn list_markets(&self) -> (r: ApiRequest<()>)
        ensures
            is_get(r, "/markets"@, BlankBody::Decode),
    {
        self.get("/markets")
    }

    /// `GET /markets/{id}` — one market.
    pub fn get_market(&self, id: MarketId) -> (r: ApiRequest<()>)
        ensures
            is_get(r, id_path("/markets/"@, id.0, Seq::empty()), BlankBody::EmptyResult),
    {
        let path = id_path_string("/markets/", id.0, "");
        proof {
            reveal_strlit("");
        }
        self.get(path.as_str()).empty_on_blank()
    }
}

} // verus!
