//! `nordnet instrument-search <op>`.

use vstd::prelude::*;
use crate::client::{ApiRequest, BlankBody, Client, is_get};
use crate::form::form_query;
use crate::resources::instrument_search::{
    AttributesQuery,
    ListSearchQuery,
    StocklistQuery,
    attributes_pairs,
    list_search_pairs,
    opt_int_text,
    optionlist_pairs,
    stocklist_pairs,
};
use crate::resources::{bool_pair, repeated_pairs, text_pair, with_query_spec};
use crate::text::{opt_as_str, opt_string_view, strings_view};

verus! {

/// `instrument-search attributes`.
#[derive(Debug, Clone, PartialEq, Eq)]
pub struct AttributesArgs {
    pub apply_filters: Option<String>,
    pub attribute_group: Vec<String>,
    pub entity_type: Option<String>,
    pub expand: Vec<String>,
    pub minmax: Vec<String>,
    pub only_filterable: Option<bool>,
    pub only_returnable: Option<bool>,
    pub only_sortable: Option<bool>,
}

/// `instrument-search stocklist`.
#[derive(Debug, Clone, PartialEq, Eq)]
pub struct StocklistArgs {
    pub apply_filters: Option<String>,
    pub attribute_groups: Vec<String>,
    pub attributes: Vec<String>,
    pub free_text_search: Option<String>,
    pub limit: Option<i32>,
    pub offset: Option<i32>,
    pub sort_attribute: Option<String>,
    pub sort_order: Option<String>,
}

/// The arguments shared by the bull/bear, mini-future and unlimited-turbo
/// searches.
#[derive(Debug, Clone, PartialEq, Eq)]
pub struct ListSearchArgs {
    pub apply_filters: Option<String>,
    pub free_text_search: Option<String>,
    pub limit: Option<i32>,
    pub offset: Option<i32>,
    pub sort_attribute: Option<String>,
    pub sort_order: Option<String>,
}

/// `instrument-search option-list-pairs`.
#[derive(Debug, Clone, PartialEq, Eq)]
pub struct OptionListPairsArgs {
    pub currency: String,
    /// Expiration date, UNIX milliseconds.
    pub expire_date: i64,
    pub underlying_symbol: String,
}

/// The operations of `nordnet instrument-search`.
#[derive(Debug, Clone, PartialEq, Eq)]
pub enum Cmd {
    Attributes(AttributesArgs),
    Stocklist(StocklistArgs),
    BullBearList(ListSearchArgs),
    MiniFutureList(ListSearchArgs),
    UnlimitedTurboList(ListSearchArgs),
    OptionListPairs(OptionListPairsArgs),
}

/// The query pairs of `attributes`, in wire order.
pub open spec fn attributes_args_pairs(a: AttributesArgs) -> Seq<(Seq<char>, Seq<char>)> {
    text_pair("apply_filters"@, opt_string_view(a.apply_filters))
        + text_pair("entity_type"@, opt_string_view(a.entity_type))
        + bool_pair("only_filterable"@, a.only_filterable)
        + bool_pair("only_returnable"@, a.only_returnable)
        + bool_pair("only_sortable"@, a.only_sortable)
        + repeated_pairs("attribute_group"@, strings_view(a.attribute_group@))
        + repeated_pairs("expand"@, strings_view(a.expand@))
        + repeated_pairs("minmax"@, strings_view(a.minmax@))
}

/// The pairs of the six list-search scalar arguments, in wire order.
pub open spec fn list_args_pairs(
    apply_filters: Option<String>,
    free_text_search: Option<String>,
    limit: Option<i32>,
    offset: Option<i32>,
    sort_attribute: Option<String>,
    sort_order: Option<String>,
) -> Seq<(Seq<char>, Seq<char>)> {
    text_pair("apply_filters"@, opt_string_view(apply_filters))
        + text_pair("free_text_search"@, opt_string_view(free_text_search))
        + text_pair("limit"@, opt_int_text(limit))
        + text_pair("offset"@, opt_int_text(offset))
        + text_pair("sort_attribute"@, opt_string_view(sort_attribute))
        + text_pair("sort_order"@, opt_string_view(sort_order))
}

/// The query pairs of `stocklist`, in wire order.
pub open spec fn stocklist_args_pairs(a: StocklistArgs) -> Seq<(Seq<char>, Seq<char>)> {
    list_args_pairs(
        a.apply_filters,
        a.free_text_search,
        a.limit,
        a.offset,
        a.sort_attribute,
        a.sort_order,
    ) + repeated_pairs("attribute_groups"@, strings_view(a.attribute_groups@))
        + repeated_pairs("attributes"@, strings_view(a.attributes@))
}

/// The query pairs of the list searches, in wire order.
pub open spec fn list_search_args_pairs(a: ListSearchArgs) -> Seq<(Seq<char>, Seq<char>)> {
    list_args_pairs(a.apply_filters, a.free_text_search, a.limit, a.offset, a.sort_attribute, a.sort_order)
}

/// The query of a list search for its arguments.
pub fn make_list_search_query(a: &ListSearchArgs) -> (q: ListSearchQuery<'_>)
    ensures
        list_search_pairs(q) == list_search_args_pairs(*a),
{
    ListSearchQuery {
        apply_filters: opt_as_str(&a.apply_filters),
        free_text_search: opt_as_str(&a.free_text_search),
        limit: a.limit,
        offset: a.offset,
        sort_attribute: opt_as_str(&a.sort_attribute),
        sort_order: opt_as_str(&a.sort_order),
    }
}

impl Cmd {
    /// The path that the operation requests, with its query string.
    pub open spec fn path(self) -> Seq<char> {
        match self {
            Cmd::Attributes(a) => with_query_spec(
                "/instrument_search/attributes"@,
                form_query(attributes_args_pairs(a)),
            ),
            Cmd::Stocklist(a) => with_query_spec(
                "/instrument_search/query/stocklist"@,
                form_query(stocklist_args_pairs(a)),
            ),
            Cmd::BullBearList(a) => with_query_spec(
                "/instrument_search/query/bullbearlist"@,
                form_query(list_search_args_pairs(a)),
            ),
            Cmd::MiniFutureList(a) => with_query_spec(
                "/instrument_search/query/minifuturelist"@,
                form_query(list_search_args_pairs(a)),
            ),
            Cmd::UnlimitedTurboList(a) => with_query_spec(
                "/instrument_search/query/unlimitedturbolist"@,
                form_query(list_search_args_pairs(a)),
            ),
            Cmd::OptionListPairs(a) => with_query_spec(
                "/instrument_search/query/optionlist/pairs"@,
                form_query(optionlist_pairs(a.currency@, a.expire_date, a.underlying_symbol@)),
            ),
        }
    }

    /// What a blank reply to the operation means.
    pub open spec fn blank(self) -> BlankBody {
        if self is BullBearList {
            BlankBody::EmptyResult
        } else {
            BlankBody::Decode
        }
    }

    /// The request of the operation.
    pub fn request(self, client: &Client) -> (r: ApiRequest<()>)
        ensures
            is_get(r, self.path(), self.blank()),
    {
        let ghost me = self;
        match self {
            Cmd::Attributes(a) => {
                let ghost ga = a;
                let AttributesArgs {
                    apply_filters,
                    attribute_group,
                    entity_type,
                    expand,
                    minmax,
                    only_filterable,
                    only_returnable,
                    only_sortable,
                } = a;
                let q = AttributesQuery {
                    apply_filters: opt_as_str(&apply_filters),
                    attribute_group,
                    entity_type: opt_as_str(&entity_type),
                    expand,
                    minmax,
                    only_filterable,
                    only_returnable,
                    only_sortable,
                };
                assert(attributes_pairs(q) == attributes_args_pairs(ga));
                client.get_attributes(q)
            },
            Cmd::Stocklist(a) => {
                let ghost ga = a;
                let StocklistArgs {
                    apply_filters,
                    attribute_groups,
                    attributes,
                    free_text_search,
                    limit,
                    offset,
                    sort_attribute,
                    sort_order,
                } = a;
                let q = StocklistQuery {
                    apply_filters: opt_as_str(&apply_filters),
                    attribute_groups,
                    attributes,
                    free_text_search: opt_as_str(&free_text_search),
                    limit,
                    offset,
                    sort_attribute: opt_as_str(&sort_attribute),
                    sort_order: opt_as_str(&sort_order),
                };
                assert(stocklist_pairs(q) == stocklist_args_pairs(ga));
                client.search_stocklist(q)
            },
            Cmd::BullBearList(a) => client.search_bullbearlist(make_list_search_query(&a)),
            Cmd::MiniFutureList(a) => client.search_minifuturelist(make_list_search_query(&a)),
            Cmd::UnlimitedTurboList(a) => client.search_unlimitedturbolist(make_list_search_query(&a)),
            Cmd::OptionListPairs(a) => client.search_optionlist_pairs(
                a.currency.as_str(),
                a.expire_date,
                a.underlying_symbol.as_str(),
            ),
        }
    }
}

} // verus!
