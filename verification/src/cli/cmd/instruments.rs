//! `nordnet instruments <op>`.

use vstd::prelude::*;
use crate::client::{ApiRequest, BlankBody, Client, is_get};
use crate::form::form_query;
use crate::ids::{InstrumentId, IssuerId};
use crate::resources::instruments::{LeveragesQuery, id_path, leverages_pairs, two_segment_path};
use crate::resources::{text_pair, with_query_spec};
use crate::text::{int_decimal, opt_as_str, opt_string_view};

verus! {

/// `instruments lookup`: the lookup type and the key.
#[derive(Debug, Clone, PartialEq, Eq)]
pub struct LookupArgs {
    pub lookup_type: String,
    pub lookup: String,
}

/// `instruments get-type`: one or more type codes, comma-separated.
#[derive(Debug, Clone, PartialEq, Eq)]
pub struct GetTypeArgs {
    pub instrument_type: String,
}

/// `instruments underlyings`: the derivative type and the currency.
#[derive(Debug, Clone, PartialEq, Eq)]
pub struct UnderlyingsArgs {
    pub derivative_type: String,
    pub currency: String,
}

/// An instrument identifier.
#[derive(Debug, Clone, Copy, PartialEq, Eq, Structural)]
pub struct InstrumentArg {
    pub instrument_id: i64,
}

/// `instruments leverages`: the underlying and the optional filters.
#[derive(Debug, Clone, PartialEq, Eq)]
pub struct LeveragesArgs {
    pub instrument_id: i64,
    pub currency: Option<String>,
    pub expiration_date: Option<String>,
    pub instrument_group_type: Option<String>,
    pub instrument_type: Option<String>,
    pub issuer_id: Option<i64>,
    pub market_view: Option<String>,
}

/// The operations of `nordnet instruments`.
#[derive(Debug, Clone, PartialEq, Eq)]
pub enum Cmd {
    Lookup(LookupArgs),
    Types,
    GetType(GetTypeArgs),
    Underlyings(UnderlyingsArgs),
    Suitability(InstrumentArg),
    Get(InstrumentArg),
    Leverages(LeveragesArgs),
    LeverageFilters(InstrumentArg),
    Trades(InstrumentArg),
}

/// The filter of `instruments leverages` as the query holds it.
pub open spec fn leverages_query_of(a: LeveragesArgs, q: LeveragesQuery) -> bool {
    &&& opt_string_view(a.currency) == crate::text::opt_text_view(q.currency)
    &&& opt_string_view(a.expiration_date) == crate::text::opt_text_view(q.expiration_date)
    &&& opt_string_view(a.instrument_group_type) == crate::text::opt_text_view(q.instrument_group_type)
    &&& opt_string_view(a.instrument_type) == crate::text::opt_text_view(q.instrument_type)
    &&& q.issuer_id == match a.issuer_id {
        Some(i) => Some(IssuerId(i)),
        None => None,
    }
    &&& opt_string_view(a.market_view) == crate::text::opt_text_view(q.market_view)
}

/// The query pairs of `instruments leverages`, in wire order.
pub open spec fn leverages_args_pairs(a: LeveragesArgs) -> Seq<(Seq<char>, Seq<char>)> {
    text_pair("currency"@, opt_string_view(a.currency))
        + text_pair("expiration_date"@, opt_string_view(a.expiration_date))
        + text_pair("instrument_group_type"@, opt_string_view(a.instrument_group_type))
        + text_pair("instrument_type"@, opt_string_view(a.instrument_type))
        + text_pair(
            "issuer_id"@,
            match a.issuer_id {
                Some(i) => Some(int_decimal(i as int)),
                None => None,
            },
        )
        + text_pair("market_view"@, opt_string_view(a.market_view))
}

/// The query of `instruments leverages` for its arguments.
pub fn leverages_query(a: &LeveragesArgs) -> (q: LeveragesQuery<'_>)
    ensures
        leverages_query_of(*a, q),
{
    LeveragesQuery {
        currency: opt_as_str(&a.currency),
        expiration_date: opt_as_str(&a.expiration_date),
        instrument_group_type: opt_as_str(&a.instrument_group_type),
        instrument_type: opt_as_str(&a.instrument_type),
        issuer_id: match a.issuer_id {
            Some(i) => Some(IssuerId(i)),
            None => None,
        },
        market_view: opt_as_str(&a.market_view),
    }
}

impl Cmd {
    /// The path that the operation requests, where it needs no query
    /// (every operation but `leverages`).
    pub open spec fn plain_path(self) -> Seq<char> {
        match self {
            Cmd::Lookup(a) => two_segment_path("/instruments/lookup/"@, a.lookup_type@, a.lookup@),
            Cmd::Types => "/instruments/types"@,
            Cmd::GetType(a) => "/instruments/types/"@ + a.instrument_type@,
            Cmd::Underlyings(a) => two_segment_path(
                "/instruments/underlyings/"@,
                a.derivative_type@,
                a.currency@,
            ),
            Cmd::Suitability(a) => id_path("/instruments/validation/suitability/"@, a.instrument_id, Seq::empty()),
            Cmd::Get(a) => id_path("/instruments/"@, a.instrument_id, Seq::empty()),
            Cmd::Leverages(a) => id_path("/instruments/"@, a.instrument_id, "/leverages"@),
            Cmd::LeverageFilters(a) => id_path("/instruments/"@, a.instrument_id, "/leverages/filters"@),
            Cmd::Trades(a) => id_path("/instruments/"@, a.instrument_id, "/trades"@),
        }
    }

    /// What a blank reply to the operation means.
    pub open spec fn blank(self) -> BlankBody {
        if self is Types || self is LeverageFilters {
            BlankBody::Decode
        } else {
            BlankBody::EmptyResult
        }
    }

    /// The request of the operation; `leverages` adds its filters as the
    /// query string.
    pub fn request(&self, client: &Client) -> (r: ApiRequest<()>)
        ensures
            !(self is Leverages) ==> is_get(r, self.plain_path(), self.blank()),
            self matches Cmd::Leverages(a) ==> is_get(
                r,
                with_query_spec(self.plain_path(), form_query(leverages_args_pairs(*a))),
                self.blank(),
            ),
    {
        match self {
            Cmd::Lookup(a) => client.lookup(a.lookup_type.as_str(), a.lookup.as_str()),
            Cmd::Types => client.list_types(),
            Cmd::GetType(a) => client.get_type(a.instrument_type.as_str()),
            Cmd::Underlyings(a) => client.list_underlyings(a.derivative_type.as_str(), a.currency.as_str()),
            Cmd::Suitability(a) => client.get_instrument_suitability(InstrumentId(a.instrument_id)),
            Cmd::Get(a) => client.get_instrument(InstrumentId(a.instrument_id)),
            Cmd::Leverages(a) => {
                let q = leverages_query(a);
                let r = client.list_leverages(InstrumentId(a.instrument_id), q);
                assert(leverages_pairs(q) == leverages_args_pairs(*a));
                r
            },
            Cmd::LeverageFilters(a) => client.get_leverage_filters(InstrumentId(a.instrument_id)),
            Cmd::Trades(a) => client.list_instrument_trades(InstrumentId(a.instrument_id)),
        }
    }
}

} // verus!
