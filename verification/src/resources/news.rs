//! The `news` group: `GET /news/{news_id}` and `GET /news_sources`.

use vstd::prelude::*;
use crate::client::{ApiRequest, BlankBody, Client, is_get};
use crate::ids::NewsId;
use crate::resources::instruments::{id_path, id_path_string};

verus! {

impl Client {
    /// `GET /news/{id}` — one news article; a 204 reply is an empty list.
    pub fn get_news_item(&self, id: NewsId) -> (r: ApiRequest<()>)
        ensures
            is_get(r, id_path("/news/"@, id.0, Seq::empty()), BlankBody::EmptyResult),
    {
        let path = id_path_string("/news/", id.0, "");
        proof {
            reveal_strlit("");
        }
        self.get(path.as_str()).empty_on_blank()
    }

    /// `GET /news_sources` — the news sources the user may read.
    pub fn list_news_sources(&self) -> (r: ApiRequest<()>)
        ensures
            is_get(r, "/news_sources"@, BlankBody::Decode),
    {
        self.get("/news_sources")
    }
}

} // verus!
