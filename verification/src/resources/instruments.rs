//! The `instruments` group.
//!
//! | Method | Op | Path |
//! |--------|----|------|
//! | GET | `lookup` | `/instruments/lookup/{lookup_type}/{lookup}` |
//! | GET | `list_types` | `/instruments/types` |
//! | GET | `get_type` | `/instruments/types/{instrument_type}` |
//! | GET | `list_underlyings` | `/instruments/underlyings/{derivative_type}/{currency}` |
//! | GET | `get_instrument_suitability` | `/instruments/validation/suitability/{instrument_id}` |
//! | GET | `get_instrument` | `/instruments/{instrument_id}` |
//! | GET | `list_leverages` | `/instruments/{instrument_id}/leverages` |
//! | GET | `get_leverage_filters` | `/instruments/{instrument_id}/leverages/filters` |
//! | GET | `list_instrument_trades` | `/instruments/{instrument_id}/trades` |
//!
//! All but `list_types` and `get_leverage_filters` read a blank 2xx body as
//! an empty list. Path segments are inserted as given.

use vstd::prelude::*;
use crate::client::{ApiRequest, BlankBody, Client};
use crate::form::{FormQuery, form_query};
use crate::ids::{InstrumentId, IssuerId};
use crate::client::is_get;
use crate::text::opt_text_view;
use crate::resources::{text_pair, with_query, with_query_spec};
use crate::text::{int_decimal, i64_to_string, push_i64, push_str};

verus! {

/// Optional query parameters of [`Client::list_leverages`].
#[derive(Debug, Clone, Copy, Default)]
pub struct LeveragesQuery<'a> {
    /// Currency of the leverage instruments.
    pub currency: Option<&'a str>,
    /// Expiration date (`YYYY-MM-DD`).
    pub expiration_date: Option<&'a str>,
    /// Instrument group type.
    pub instrument_group_type: Option<&'a str>,
    /// Instrument type.
    pub instrument_type: Option<&'a str>,
    /// Issuer of the leverage instruments.
    pub issuer_id: Option<IssuerId>,
    /// Market view (`U` or `D`).
    pub market_view: Option<&'a str>,
}

/// The pairs of [`build_leverages_query`], in wire order.
pub open spec fn leverages_pairs(f: LeveragesQuery) -> Seq<(Seq<char>, Seq<char>)> {
    text_pair("currency"@, opt_text_view(f.currency))
        + text_pair("expiration_date"@, opt_text_view(f.expiration_date))
        + text_pair("instrument_group_type"@, opt_text_view(f.instrument_group_type))
        + text_pair("instrument_type"@, opt_text_view(f.instrument_type))
        + text_pair(
            "issuer_id"@,
            match f.issuer_id {
                Some(i) => Some(int_decimal(i.0 as int)),
                None => None,
            },
        )
        + text_pair("market_view"@, opt_text_view(f.market_view))
}

fn append_opt(q: &mut FormQuery, name: &str, value: Option<&str>)
    requires
        old(q).wf(),
    ensures
        final(q).wf(),
        final(q)@ == old(q)@ + text_pair(name@, opt_text_view(value)),
{
    if let Some(v) = value {
        q.append_pair(name, v);
    }
    assert(final(q)@ =~= old(q)@ + text_pair(name@, opt_text_view(value)));
}

/// The encoded query string of [`Client::list_leverages`].
pub fn build_leverages_query(filters: &LeveragesQuery) -> (s: String)
    ensures
        s@ == form_query(leverages_pairs(*filters)),
{
    let mut q = FormQuery::new();
    append_opt(&mut q, "currency", filters.currency);
    append_opt(&mut q, "expiration_date", filters.expiration_date);
    append_opt(&mut q, "instrument_group_type", filters.instrument_group_type);
    append_opt(&mut q, "instrument_type", filters.instrument_type);
    let issuer = match filters.issuer_id {
        Some(v) => Some(i64_to_string(v.0)),
        None => None,
    };
    let issuer_str: Option<&str> = match &issuer {
        Some(t) => Some(t.as_str()),
        None => None,
    };
    append_opt(&mut q, "issuer_id", issuer_str);
    append_opt(&mut q, "market_view", filters.market_view);
    assert(q@ =~= leverages_pairs(*filters));
    q.finish()
}

/// `prefix` followed by the decimal identifier and `suffix`.
pub open spec fn id_path(prefix: Seq<char>, id: i64, suffix: Seq<char>) -> Seq<char> {
    prefix + int_decimal(id as int) + suffix
}

pub(crate) fn id_path_string(prefix: &str, id: i64, suffix: &str) -> (s: String)
    ensures
        s@ == id_path(prefix@, id, suffix@),
{
    let mut s = String::new();
    push_str(&mut s, prefix);
    push_i64(&mut s, id);
    push_str(&mut s, suffix);
    assert(s@ =~= id_path(prefix@, id, suffix@));
    s
}

/// `prefix{a}/{b}`.
pub open spec fn two_segment_path(prefix: Seq<char>, a: Seq<char>, b: Seq<char>) -> Seq<char> {
    prefix + a + seq!['/'] + b
}

fn two_segment_path_string(prefix: &str, a: &str, b: &str) -> (s: String)
    ensures
        s@ == two_segment_path(prefix@, a@, b@),
{
    let mut s = String::new();
    push_str(&mut s, prefix);
    push_str(&mut s, a);
    crate::text::push_char(&mut s, '/');
    push_str(&mut s, b);
    assert(s@ =~= two_segment_path(prefix@, a@, b@));
    s
}

impl Client {
    /// `GET /instruments/lookup/{lookup_type}/{lookup}` — look up
    /// instruments by a key such as `market_id_identifier`.
    pub fn lookup(&self, lookup_type: &str, lookup: &str) -> (r: ApiRequest<()>)
        ensures
            is_get(r, two_segment_path("/instruments/lookup/"@, lookup_type@, lookup@), BlankBody::EmptyResult),
    {
        let path = two_segment_path_string("/instruments/lookup/", lookup_type, lookup);
        self.get(path.as_str()).empty_on_blank()
    }

    /// `GET /instruments/types` — all instrument types.
    pub fn list_types(&self) -> (r: ApiRequest<()>)
        ensures
            is_get(r, "/instruments/types"@, BlankBody::Decode),
    {
        self.get("/instruments/types")
    }

    /// `GET /instruments/types/{instrument_type}` — one instrument type.
    pub fn get_type(&self, instrument_type: &str) -> (r: ApiRequest<()>)
        ensures
            is_get(r, "/instruments/types/"@ + instrument_type@, BlankBody::EmptyResult),
    {
        let path = crate::text::concat("/instruments/types/", instrument_type);
        self.get(path.as_str()).empty_on_blank()
    }

    /// `GET /instruments/underlyings/{derivative_type}/{currency}` — the
    /// underlyings of a derivative type.
    pub fn list_underlyings(&self, derivative_type: &str, currency: &str) -> (r: ApiRequest<()>)
        ensures
            is_get(
                r,
                two_segment_path("/instruments/underlyings/"@, derivative_type@, currency@),
                BlankBody::EmptyResult,
            ),
    {
        let path = two_segment_path_string("/instruments/underlyings/", derivative_type, currency);
        self.get(path.as_str()).empty_on_blank()
    }

    /// `GET /instruments/validation/suitability/{instrument_id}` — whether
    /// the customer may trade the instrument.
    pub fn get_instrument_suitability(&self, instrument_id: InstrumentId) -> (r: ApiRequest<()>)
        ensures
            is_get(
                r,
                id_path("/instruments/validation/suitability/"@, instrument_id.0, Seq::empty()),
                BlankBody::EmptyResult,
            ),
    {
        let path = id_path_string("/instruments/validation/suitability/", instrument_id.0, "");
        proof {
            reveal_strlit("");
        }
        self.get(path.as_str()).empty_on_blank()
    }

    /// `GET /instruments/{instrument_id}` — one instrument.
    pub fn get_instrument(&self, instrument_id: InstrumentId) -> (r: ApiRequest<()>)
        ensures
            is_get(r, id_path("/instruments/"@, instrument_id.0, Seq::empty()), BlankBody::EmptyResult),
    {
        let path = id_path_string("/instruments/", instrument_id.0, "");
        proof {
            reveal_strlit("");
        }
        self.get(path.as_str()).empty_on_blank()
    }

    /// `GET /instruments/{instrument_id}/leverages` — leverage instruments
    /// on an underlying, filtered.
    pub fn list_leverages(&self, instrument_id: InstrumentId, filters: LeveragesQuery) -> (r: ApiRequest<()>)
        ensures
            is_get(
                r,
                with_query_spec(
                    id_path("/instruments/"@, instrument_id.0, "/leverages"@),
                    form_query(leverages_pairs(filters)),
                ),
                BlankBody::EmptyResult,
            ),
    {
        let qs = build_leverages_query(&filters);
        let base = id_path_string("/instruments/", instrument_id.0, "/leverages");
        let path = with_query(base.as_str(), qs.as_str());
        self.get(path.as_str()).empty_on_blank()
    }

    /// `GET /instruments/{instrument_id}/leverages/filters` — the filter
    /// values available for the leverages of an underlying. The result is
    /// one object, so a blank body stays a decode error.
    pub fn get_leverage_filters(&self, instrument_id: InstrumentId) -> (r: ApiRequest<()>)
        ensures
            is_get(r, id_path("/instruments/"@, instrument_id.0, "/leverages/filters"@), BlankBody::Decode),
    {
        let path = id_path_string("/instruments/", instrument_id.0, "/leverages/filters");
        self.get(path.as_str())
    }

    /// `GET /instruments/{instrument_id}/trades` — public trades of an
    /// instrument.
    pub fn list_instrument_trades(&self, instrument_id: InstrumentId) -> (r: ApiRequest<()>)
        ensures
            is_get(r, id_path("/instruments/"@, instrument_id.0, "/trades"@), BlankBody::EmptyResult),
    {
        let path = id_path_string("/instruments/", instrument_id.0, "/trades");
        self.get(path.as_str()).empty_on_blank()
    }
}

} // verus!
