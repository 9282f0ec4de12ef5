//! `nordnet tradables <op>`: a tradable named by `<market_id>:<identifier>`.

use vstd::prelude::*;
use crate::cli::tradables::{TradableKeyError, parse_tradable_key, tradable_key_parts};
use crate::client::{ApiRequest, BlankBody, Client, is_get};
use crate::models::tradables::TradableKey;
use crate::text::{int_decimal, opt_as_str, opt_string_view};

verus! {

/// A tradable key argument.
#[derive(Debug, Clone, PartialEq, Eq)]
pub struct KeyArgs {
    pub key: String,
}

/// `tradables trades`: the key and the number of trades (`all` or a
/// number), passed through as given.
#[derive(Debug, Clone, PartialEq, Eq)]
pub struct TradesArgs {
    pub key: String,
    pub count: Option<String>,
}

/// The operations of `nordnet tradables`.
#[derive(Debug, Clone, PartialEq, Eq)]
pub enum Cmd {
    Info(KeyArgs),
    Trades(TradesArgs),
    Suitability(KeyArgs),
}

/// The key as it is written in a path, for the parts that a key argument
/// names.
pub open spec fn key_segment(p: (i64, Seq<char>)) -> Seq<char> {
    int_decimal(p.0 as int) + seq![':'] + p.1
}

impl Cmd {
    /// The key argument of the operation.
    pub open spec fn key(self) -> Seq<char> {
        match self {
            Cmd::Info(a) => a.key@,
            Cmd::Trades(a) => a.key@,
            Cmd::Suitability(a) => a.key@,
        }
    }

    /// The path that the operation requests for a key with these parts.
    pub open spec fn path_for(self, p: (i64, Seq<char>)) -> Seq<char> {
        match self {
            Cmd::Info(_) => "/tradables/info/"@ + key_segment(p),
            Cmd::Trades(a) => match opt_string_view(a.count) {
                Some(c) => "/tradables/trades/"@ + key_segment(p) + "?count="@ + c,
                None => "/tradables/trades/"@ + key_segment(p),
            },
            Cmd::Suitability(_) => "/tradables/validation/suitability/"@ + key_segment(p),
        }
    }

    /// The request of the operation; a key that does not name a tradable is
    /// refused before anything is sent.
    pub fn request(&self, client: &Client) -> (r: Result<ApiRequest<()>, TradableKeyError>)
        ensures
            r is Ok <==> tradable_key_parts(self.key()) is Some,
            r matches Ok(q) ==> is_get(q, self.path_for(tradable_key_parts(self.key())->0), BlankBody::EmptyResult),
    {
        let text = match self {
            Cmd::Info(a) => a.key.as_str(),
            Cmd::Trades(a) => a.key.as_str(),
            Cmd::Suitability(a) => a.key.as_str(),
        };
        let key: TradableKey = match parse_tradable_key(text) {
            Ok(k) => k,
            Err(e) => {
                return Err(e);
            },
        };
        match self {
            Cmd::Info(_) => Ok(client.get_tradable_info(&key)),
            Cmd::Trades(a) => Ok(client.list_tradable_trades(&key, opt_as_str(&a.count))),
            Cmd::Suitability(_) => Ok(client.get_suitability(&key)),
        }
    }
}

} // verus!
