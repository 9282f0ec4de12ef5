//! The `tradables` group. A tradable is addressed by its key
//! `{market_id}:{identifier}`, inserted into the path as written; every
//! operation here reads a 204 reply as an empty list.

use vstd::prelude::*;
use crate::client::{ApiRequest, BlankBody, Client, is_get};
use crate::models::tradables::{TradableKey, tradable_key_text};
use crate::text::push_str;

verus! {

/// `prefix{key}`.
fn key_path(prefix: &str, key: &TradableKey) -> (s: String)
    ensures
        s@ == prefix@ + tradable_key_text(*key),
{
    let mut s = String::new();
    push_str(&mut s, prefix);
    let k = key.to_string();
    push_str(&mut s, k.as_str());
    s
}

/// The path of [`Client::list_tradable_trades`]: the count, when given, is
/// appended verbatim as `?count=`.
pub open spec fn tradable_trades_path(key: TradableKey, count: Option<Seq<char>>) -> Seq<char> {
    match count {
        Some(c) => "/tradables/trades/"@ + tradable_key_text(key) + "?count="@ + c,
        None => "/tradables/trades/"@ + tradable_key_text(key),
    }
}

impl Client {
    /// `GET /tradables/info/{key}` — trading calendar and allowed order
    /// types.
    pub fn get_tradable_info(&self, key: &TradableKey) -> (r: ApiRequest<()>)
        ensures
            is_get(r, "/tradables/info/"@ + tradable_key_text(*key), BlankBody::EmptyResult),
    {
        let path = key_path("/tradables/info/", key);
        self.get(path.as_str()).empty_on_blank()
    }

    /// `GET /tradables/trades/{key}` — public trades. `count` is a positive
    /// number or `all` (the server's default is 5) and is passed through as
    /// given.
    pub fn list_tradable_trades(&self, key: &TradableKey, count: Option<&str>) -> (r: ApiRequest<()>)
        ensures
            is_get(
                r,
                tradable_trades_path(
                    *key,
                    match count {
                        Some(c) => Some(c@),
                        None => None,
                    },
                ),
                BlankBody::EmptyResult,
            ),
    {
        let mut path = key_path("/tradables/trades/", key);
        if let Some(c) = count {
            push_str(&mut path, "?count=");
            push_str(&mut path, c);
        }
        self.get(path.as_str()).empty_on_blank()
    }

    /// `GET /tradables/validation/suitability/{key}` — whether the customer
    /// may trade the tradable.
    pub fn get_suitability(&self, key: &TradableKey) -> (r: ApiRequest<()>)
        ensures
            is_get(
                r,
                "/tradables/validation/suitability/"@ + tradable_key_text(*key),
                BlankBody::EmptyResult,
            ),
    {
        let path = key_path("/tradables/validation/suitability/", key);
        self.get(path.as_str()).empty_on_blank()
    }
}

} // verus!
