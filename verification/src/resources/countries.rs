//! The `countries` group: `GET /countries` and `GET /countries/{code}`.

use vstd::prelude::*;
use crate::client::{ApiRequest, BlankBody, Client, is_get};
use crate::text::concat;

verus! {

impl Client {
    /// `GET /countries` — every country the API knows.
    pub fn list_countries(&self) -> (r: ApiRequest<()>)
        ensures
            is_get(r, "/countries"@, BlankBody::Decode),
    {
        self.get("/countries")
    }

    /// `GET /countries/{code}` — one or more countries by ISO code
    /// (comma-separated); a 204 reply is an empty list.
    pub fn get_country(&self, code: &str) -> (r: ApiRequest<()>)
        ensures
            is_get(r, "/countries/"@ + code@, BlankBody::EmptyResult),
    {
        let path = concat("/countries/", code);
        self.get(path.as_str()).empty_on_blank()
    }
}

} // verus!
