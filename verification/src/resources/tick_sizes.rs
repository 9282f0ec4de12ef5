//! The `tick_sizes` group: `GET /tick_sizes` and `GET /tick_sizes/{id}`.

use vstd::prelude::*;
use crate::client::{ApiRequest, BlankBody, Client, is_get};
use crate::ids::TickSizeId;
use crate::resources::instruments::{id_path, id_path_string};

verus! {

impl Client {
    /// `GET /tick_sizes` — every tick-size table.
    pub fn list_tick_sizes(&self) -> (r: ApiRequest<()>)
        ensures
            is_get(r, "/tick_sizes"@, BlankBody::Decode),
    {
        self.get("/tick_sizes")
    }

    /// `GET /tick_sizes/{id}` — one tick-size table.
    pub fn get_tick_size(&self, id: TickSizeId) -> (r: ApiRequest<()>)
        ensures
            is_get(r, id_path("/tick_sizes/"@, id.0, Seq::empty()), BlankBody::Decode),
    {
        let path = id_path_string("/tick_sizes/", id.0, "");
        proof {
            reveal_strlit("");
        }
        self.get(path.as_str())
    }
}

} // verus!
