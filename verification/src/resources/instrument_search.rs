//! The `instrument_search` group.
//!
//! | Method | Op | Path |
//! |--------|----|------|
//! | GET | `get_attributes` | `/instrument_search/attributes` |
//! | GET | `search_stocklist` | `/instrument_search/query/stocklist` |
//! | GET | `search_bullbearlist` | `/instrument_search/query/bullbearlist` |
//! | GET | `search_minifuturelist` | `/instrument_search/query/minifuturelist` |
//! | GET | `search_unlimitedturbolist` | `/instrument_search/query/unlimitedturbolist` |
//! | GET | `search_optionlist_pairs` | `/instrument_search/query/optionlist/pairs` |
//!
//! Optional parameters are left out when unset; list parameters repeat
//! `name=value` once per value. Only `search_bullbearlist` documents 204,
//! read as empty results.

use vstd::prelude::*;
use crate::client::{ApiRequest, BlankBody, Client};
use crate::form::{FormQuery, form_query};
use crate::client::is_get;
use crate::resources::{bool_pair, bool_str, repeated_pairs, text_pair, with_query, with_query_spec};
use crate::text::{int_decimal, i64_to_string, opt_as_str, opt_text_view, strings_view};


verus! {

/// The pairs of the scalar parameters that are set, in order.
pub open spec fn scalar_pairs(pairs: Seq<(&str, Option<&str>)>) -> Seq<(Seq<char>, Seq<char>)>
    decreases pairs.len(),
{
    if pairs.len() == 0 {
        seq![]
    } else {
        scalar_pairs(pairs.drop_last()) + text_pair(pairs.last().0@, opt_text_view(pairs.last().1))
    }
}

/// The pairs of the list parameters, each value under its name, in order.
pub open spec fn multi_pairs(multi: Seq<(&str, &[String])>) -> Seq<(Seq<char>, Seq<char>)>
    decreases multi.len(),
{
    if multi.len() == 0 {
        seq![]
    } else {
        multi_pairs(multi.drop_last()) + repeated_pairs(
            multi.last().0@,
            strings_view(multi.last().1@),
        )
    }
}

/// The encoded query string: the scalar parameters that are set, in order,
/// then every value of each list parameter.
pub fn encode_pairs(pairs: &[(&str, Option<&str>)], multi: &[(&str, &[String])]) -> (s: String)
    ensures
        s@ == form_query(scalar_pairs(pairs@) + multi_pairs(multi@)),
{
    let mut q = FormQuery::new();
    let mut i: usize = 0;
    while i < pairs.len()
        invariant
            i <= pairs.len(),
            q.wf(),
            q@ == scalar_pairs(pairs@.take(i as int)),
        decreases pairs.len() - i,
    {
        let (name, value) = pairs[i];
        assert(pairs@.take(i + 1).drop_last() =~= pairs@.take(i as int));
        if let Some(v) = value {
            q.append_pair(name, v);
        }
        i = i + 1;
        assert(q@ =~= scalar_pairs(pairs@.take(i as int)));
    }
    assert(pairs@.take(pairs.len() as int) =~= pairs@);
    let mut j: usize = 0;
    while j < multi.len()
        invariant
            j <= multi.len(),
            q.wf(),
            q@ == scalar_pairs(pairs@) + multi_pairs(multi@.take(j as int)),
        decreases multi.len() - j,
    {
        let (name, values) = multi[j];
        let ghost before = q@;
        let mut k: usize = 0;
        while k < values.len()
            invariant
                k <= values.len(),
                q.wf(),
                q@ == before + repeated_pairs(name@, strings_view(values@.take(k as int))),
            decreases values.len() - k,
        {
            q.append_pair(name, values[k].as_str());
            k = k + 1;
            assert(repeated_pairs(name@, strings_view(values@.take(k as int))) =~= repeated_pairs(
                name@,
                strings_view(values@.take(k - 1)),
            ).push((name@, values@[k - 1]@)));
        }
        assert(values@.take(values.len() as int) =~= values@);
        assert(multi@.take(j + 1).drop_last() =~= multi@.take(j as int));
        j = j + 1;
        assert(q@ =~= scalar_pairs(pairs@) + multi_pairs(multi@.take(j as int)));
    }
    assert(multi@.take(multi.len() as int) =~= multi@);
    q.finish()
}

proof fn lemma_scalar_pairs_step(pairs: Seq<(&str, Option<&str>)>, i: int)
    requires
        0 <= i < pairs.len(),
    ensures
        scalar_pairs(pairs.take(i + 1)) == scalar_pairs(pairs.take(i)) + text_pair(
            pairs[i].0@,
            opt_text_view(pairs[i].1),
        ),
{
    assert(pairs.take(i + 1).drop_last() =~= pairs.take(i));
}

proof fn lemma_multi_pairs_step(multi: Seq<(&str, &[String])>, i: int)
    requires
        0 <= i < multi.len(),
    ensures
        multi_pairs(multi.take(i + 1)) == multi_pairs(multi.take(i)) + repeated_pairs(
            multi[i].0@,
            strings_view(multi[i].1@),
        ),
{
    assert(multi.take(i + 1).drop_last() =~= multi.take(i));
}

proof fn lemma_empty_concat(r: Seq<(Seq<char>, Seq<char>)>)
    ensures
        Seq::<(Seq<char>, Seq<char>)>::empty() + r == r,
{
    assert(Seq::<(Seq<char>, Seq<char>)>::empty() + r =~= r);
}

/// Optional query parameters of [`Client::get_attributes`].
#[derive(Debug, Clone, Default)]
pub struct AttributesQuery<'a> {
    /// Which filters to apply to the search.
    pub apply_filters: Option<&'a str>,
    /// Only attributes of these attribute groups.
    pub attribute_group: Vec<String>,
    /// Only attributes of this entity type.
    pub entity_type: Option<&'a str>,
    /// Expand attribute values only for these attributes.
    pub expand: Vec<String>,
    /// Minimum and maximum values for these attributes.
    pub minmax: Vec<String>,
    /// Only filterable attributes.
    pub only_filterable: Option<bool>,
    /// Only returnable attributes.
    pub only_returnable: Option<bool>,
    /// Only sortable attributes.
    pub only_sortable: Option<bool>,
}

/// The pairs of [`build_attributes_query`], in wire order.
pub open spec fn attributes_pairs(q: AttributesQuery) -> Seq<(Seq<char>, Seq<char>)> {
    text_pair("apply_filters"@, opt_text_view(q.apply_filters))
        + text_pair("entity_type"@, opt_text_view(q.entity_type))
        + bool_pair("only_filterable"@, q.only_filterable)
        + bool_pair("only_returnable"@, q.only_returnable)
        + bool_pair("only_sortable"@, q.only_sortable)
        + repeated_pairs("attribute_group"@, strings_view(q.attribute_group@))
        + repeated_pairs("expand"@, strings_view(q.expand@))
        + repeated_pairs("minmax"@, strings_view(q.minmax@))
}

fn opt_bool_str(b: Option<bool>) -> (r: Option<&'static str>)
    ensures
        opt_text_view(r) == (match b {
            Some(x) => Some(crate::resources::bool_text(x)),
            None => None,
        }),
{
    match b {
        Some(x) => Some(bool_str(x)),
        None => None,
    }
}

/// The encoded query string of [`Client::get_attributes`].
pub fn build_attributes_query(q: &AttributesQuery) -> (s: String)
    ensures
        s@ == form_query(attributes_pairs(*q)),
{
    let only_filterable = opt_bool_str(q.only_filterable);
    let only_returnable = opt_bool_str(q.only_returnable);
    let only_sortable = opt_bool_str(q.only_sortable);
    let scalars = [
        ("apply_filters", q.apply_filters),
        ("entity_type", q.entity_type),
        ("only_filterable", only_filterable),
        ("only_returnable", only_returnable),
        ("only_sortable", only_sortable),
    ];
    let multi = [
        ("attribute_group", q.attribute_group.as_slice()),
        ("expand", q.expand.as_slice()),
        ("minmax", q.minmax.as_slice()),
    ];
    let s = encode_pairs(&scalars, &multi);
    proof {
        let sp = scalars@;
        assert(sp.take(0) =~= Seq::<(&str, Option<&str>)>::empty());
        lemma_scalar_pairs_step(sp, 0);
        lemma_empty_concat(text_pair(sp[0].0@, opt_text_view(sp[0].1)));
        lemma_scalar_pairs_step(sp, 1);
        lemma_scalar_pairs_step(sp, 2);
        lemma_scalar_pairs_step(sp, 3);
        lemma_scalar_pairs_step(sp, 4);
        assert(sp.take(5) =~= sp);
        let mp = multi@;
        assert(mp.take(0) =~= Seq::<(&str, &[String])>::empty());
        lemma_multi_pairs_step(mp, 0);
        lemma_empty_concat(repeated_pairs(mp[0].0@, strings_view(mp[0].1@)));
        lemma_multi_pairs_step(mp, 1);
        lemma_multi_pairs_step(mp, 2);
        assert(mp.take(3) =~= mp);
        assert(scalar_pairs(sp) + multi_pairs(mp) =~= attributes_pairs(*q));
    }
    s
}


/// The decimal text of an optional `i32` parameter.
pub open spec fn opt_int_text(o: Option<i32>) -> Option<Seq<char>> {
    match o {
        Some(v) => Some(int_decimal(v as int)),
        None => None,
    }
}

fn opt_int_string(o: Option<i32>) -> (r: Option<String>)
    ensures
        match r {
            Some(t) => opt_int_text(o) == Some(t@),
            None => o is None,
        },
{
    match o {
        Some(v) => Some(i64_to_string(v as i64)),
        None => None,
    }
}

/// Optional query parameters of [`Client::search_stocklist`].
#[derive(Debug, Clone, Default)]
pub struct StocklistQuery<'a> {
    /// Which filters to apply to the search.
    pub apply_filters: Option<&'a str>,
    /// Only attributes of these attribute groups.
    pub attribute_groups: Vec<String>,
    /// Only these attributes.
    pub attributes: Vec<String>,
    /// Free-text search (name, symbol or ISIN).
    pub free_text_search: Option<&'a str>,
    /// At most this many results.
    pub limit: Option<i32>,
    /// Skip this many results per group.
    pub offset: Option<i32>,
    /// Attribute to sort by.
    pub sort_attribute: Option<&'a str>,
    /// Sort order (`asc` or `desc`).
    pub sort_order: Option<&'a str>,
}

/// The pairs of the six list-search scalar parameters, in wire order.
pub open spec fn list_scalar_pairs(
    apply_filters: Option<&str>,
    free_text_search: Option<&str>,
    limit: Option<i32>,
    offset: Option<i32>,
    sort_attribute: Option<&str>,
    sort_order: Option<&str>,
) -> Seq<(Seq<char>, Seq<char>)> {
    text_pair("apply_filters"@, opt_text_view(apply_filters))
        + text_pair("free_text_search"@, opt_text_view(free_text_search))
        + text_pair("limit"@, opt_int_text(limit))
        + text_pair("offset"@, opt_int_text(offset))
        + text_pair("sort_attribute"@, opt_text_view(sort_attribute))
        + text_pair("sort_order"@, opt_text_view(sort_order))
}

/// The pairs of [`build_stocklist_query`], in wire order.
pub open spec fn stocklist_pairs(q: StocklistQuery) -> Seq<(Seq<char>, Seq<char>)> {
    list_scalar_pairs(
        q.apply_filters,
        q.free_text_search,
        q.limit,
        q.offset,
        q.sort_attribute,
        q.sort_order,
    ) + repeated_pairs("attribute_groups"@, strings_view(q.attribute_groups@))
        + repeated_pairs("attributes"@, strings_view(q.attributes@))
}

/// The encoded query string of [`Client::search_stocklist`].
pub fn build_stocklist_query(q: &StocklistQuery) -> (s: String)
    ensures
        s@ == form_query(stocklist_pairs(*q)),
{
    let limit = opt_int_string(q.limit);
    let offset = opt_int_string(q.offset);
    let scalars = [
        ("apply_filters", q.apply_filters),
        ("free_text_search", q.free_text_search),
        ("limit", opt_as_str(&limit)),
        ("offset", opt_as_str(&offset)),
        ("sort_attribute", q.sort_attribute),
        ("sort_order", q.sort_order),
    ];
    let multi = [
        ("attribute_groups", q.attribute_groups.as_slice()),
        ("attributes", q.attributes.as_slice()),
    ];
    let s = encode_pairs(&scalars, &multi);
    proof {
        let sp = scalars@;
        assert(sp.take(0) =~= Seq::<(&str, Option<&str>)>::empty());
        lemma_scalar_pairs_step(sp, 0);
        lemma_empty_concat(text_pair(sp[0].0@, opt_text_view(sp[0].1)));
        lemma_scalar_pairs_step(sp, 1);
        lemma_scalar_pairs_step(sp, 2);
        lemma_scalar_pairs_step(sp, 3);
        lemma_scalar_pairs_step(sp, 4);
        lemma_scalar_pairs_step(sp, 5);
        assert(sp.take(6) =~= sp);
        let mp = multi@;
        assert(mp.take(0) =~= Seq::<(&str, &[String])>::empty());
        lemma_multi_pairs_step(mp, 0);
        lemma_empty_concat(repeated_pairs(mp[0].0@, strings_view(mp[0].1@)));
        lemma_multi_pairs_step(mp, 1);
        assert(mp.take(2) =~= mp);
        assert(scalar_pairs(sp) + multi_pairs(mp) =~= stocklist_pairs(*q));
    }
    s
}

/// Optional query parameters shared by [`Client::search_bullbearlist`],
/// [`Client::search_minifuturelist`] and
/// [`Client::search_unlimitedturbolist`].
#[derive(Debug, Clone, Default)]
pub struct ListSearchQuery<'a> {
    /// Which filters to apply to the search.
    pub apply_filters: Option<&'a str>,
    /// Free-text search (name, symbol or ISIN).
    pub free_text_search: Option<&'a str>,
    /// At most this many results.
    pub limit: Option<i32>,
    /// Skip this many results.
    pub offset: Option<i32>,
    /// Attribute to sort by.
    pub sort_attribute: Option<&'a str>,
    /// Sort order (`asc` or `desc`).
    pub sort_order: Option<&'a str>,
}

/// The pairs of [`build_list_search_query`], in wire order.
pub open spec fn list_search_pairs(q: ListSearchQuery) -> Seq<(Seq<char>, Seq<char>)> {
    list_scalar_pairs(
        q.apply_filters,
        q.free_text_search,
        q.limit,
        q.offset,
        q.sort_attribute,
        q.sort_order,
    )
}

/// The encoded query string of the list searches.
pub fn build_list_search_query(q: &ListSearchQuery) -> (s: String)
    ensures
        s@ == form_query(list_search_pairs(*q)),
{
    let limit = opt_int_string(q.limit);
    let offset = opt_int_string(q.offset);
    let scalars = [
        ("apply_filters", q.apply_filters),
        ("free_text_search", q.free_text_search),
        ("limit", opt_as_str(&limit)),
        ("offset", opt_as_str(&offset)),
        ("sort_attribute", q.sort_attribute),
        ("sort_order", q.sort_order),
    ];
    let multi: [(&str, &[String]); 0] = [];
    let s = encode_pairs(&scalars, &multi);
    proof {
        let sp = scalars@;
        assert(sp.take(0) =~= Seq::<(&str, Option<&str>)>::empty());
        lemma_scalar_pairs_step(sp, 0);
        lemma_empty_concat(text_pair(sp[0].0@, opt_text_view(sp[0].1)));
        lemma_scalar_pairs_step(sp, 1);
        lemma_scalar_pairs_step(sp, 2);
        lemma_scalar_pairs_step(sp, 3);
        lemma_scalar_pairs_step(sp, 4);
        lemma_scalar_pairs_step(sp, 5);
        assert(sp.take(6) =~= sp);
        assert(multi_pairs(multi@) =~= Seq::<(Seq<char>, Seq<char>)>::empty());
        assert(scalar_pairs(sp) + multi_pairs(multi@) =~= list_search_pairs(*q));
    }
    s
}

/// The pairs of [`Client::search_optionlist_pairs`], in wire order.
pub open spec fn optionlist_pairs(currency: Seq<char>, expire_date: i64, underlying_symbol: Seq<char>) -> Seq<
    (Seq<char>, Seq<char>),
> {
    seq![
        ("currency"@, currency),
        ("expire_date"@, int_decimal(expire_date as int)),
        ("underlying_symbol"@, underlying_symbol),
    ]
}

impl Client {
    /// `GET /instrument_search/attributes` — the attributes available in the
    /// instrument search.
    pub fn get_attributes(&self, filters: AttributesQuery) -> (r: ApiRequest<()>)
        ensures
            is_get(
                r,
                with_query_spec("/instrument_search/attributes"@, form_query(attributes_pairs(filters))),
                BlankBody::Decode,
            ),
    {
        let qs = build_attributes_query(&filters);
        let path = with_query("/instrument_search/attributes", qs.as_str());
        self.get(path.as_str())
    }

    /// `GET /instrument_search/query/stocklist` — search for stocks.
    pub fn search_stocklist(&self, filters: StocklistQuery) -> (r: ApiRequest<()>)
        ensures
            is_get(
                r,
                with_query_spec("/instrument_search/query/stocklist"@, form_query(stocklist_pairs(filters))),
                BlankBody::Decode,
            ),
    {
        let qs = build_stocklist_query(&filters);
        let path = with_query("/instrument_search/query/stocklist", qs.as_str());
        self.get(path.as_str())
    }

    /// `GET /instrument_search/query/bullbearlist` — bull and bear
    /// instruments; a blank 2xx body is read as empty results.
    pub fn search_bullbearlist(&self, filters: ListSearchQuery) -> (r: ApiRequest<()>)
        ensures
            is_get(
                r,
                with_query_spec(
                    "/instrument_search/query/bullbearlist"@,
                    form_query(list_search_pairs(filters)),
                ),
                BlankBody::EmptyResult,
            ),
    {
        let qs = build_list_search_query(&filters);
        let path = with_query("/instrument_search/query/bullbearlist", qs.as_str());
        self.get(path.as_str()).empty_on_blank()
    }

    /// `GET /instrument_search/query/minifuturelist` — mini futures.
    pub fn search_minifuturelist(&self, filters: ListSearchQuery) -> (r: ApiRequest<()>)
        ensures
            is_get(
                r,
                with_query_spec(
                    "/instrument_search/query/minifuturelist"@,
                    form_query(list_search_pairs(filters)),
                ),
                BlankBody::Decode,
            ),
    {
        let qs = build_list_search_query(&filters);
        let path = with_query("/instrument_search/query/minifuturelist", qs.as_str());
        self.get(path.as_str())
    }

    /// `GET /instrument_search/query/unlimitedturbolist` — unlimited turbos.
    pub fn search_unlimitedturbolist(&self, filters: ListSearchQuery) -> (r: ApiRequest<()>)
        ensures
            is_get(
                r,
                with_query_spec(
                    "/instrument_search/query/unlimitedturbolist"@,
                    form_query(list_search_pairs(filters)),
                ),
                BlankBody::Decode,
            ),
    {
        let qs = build_list_search_query(&filters);
        let path = with_query("/instrument_search/query/unlimitedturbolist", qs.as_str());
        self.get(path.as_str())
    }

    /// `GET /instrument_search/query/optionlist/pairs` — the put/call pair
    /// for an underlying and an expiration date (UNIX milliseconds).
    pub fn search_optionlist_pairs(&self, currency: &str, expire_date: i64, underlying_symbol: &str) -> (r: ApiRequest<()>)
        ensures
            is_get(
                r,
                with_query_spec(
                    "/instrument_search/query/optionlist/pairs"@,
                    form_query(optionlist_pairs(currency@, expire_date, underlying_symbol@)),
                ),
                BlankBody::Decode,
            ),
    {
        let expire = i64_to_string(expire_date);
        let scalars = [
            ("currency", Some(currency)),
            ("expire_date", Some(expire.as_str())),
            ("underlying_symbol", Some(underlying_symbol)),
        ];
        let multi: [(&str, &[String]); 0] = [];
        let qs = encode_pairs(&scalars, &multi);
        proof {
            let sp = scalars@;
            assert(sp.take(0) =~= Seq::<(&str, Option<&str>)>::empty());
            lemma_scalar_pairs_step(sp, 0);
            lemma_empty_concat(text_pair(sp[0].0@, opt_text_view(sp[0].1)));
            lemma_scalar_pairs_step(sp, 1);
            lemma_scalar_pairs_step(sp, 2);
            assert(sp.take(3) =~= sp);
            assert(multi_pairs(multi@) =~= Seq::<(Seq<char>, Seq<char>)>::empty());
            assert(scalar_pairs(sp) + multi_pairs(multi@) =~= optionlist_pairs(currency@, expire_date, underlying_symbol@));
        }
        let path = with_query("/instrument_search/query/optionlist/pairs", qs.as_str());
        self.get(path.as_str())
    }
}

} // verus!
