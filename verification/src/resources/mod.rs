//! The operations of the API, grouped as the API documents them. Each one
//! builds the [`crate::client::ApiRequest`] that it sends.

pub mod accounts;
pub mod countries;
pub mod instrument_search;
pub mod instruments;
pub mod login;
pub mod main_search;
pub mod markets;
pub mod news;
pub mod orders;
pub mod root;
pub mod tick_sizes;
pub mod tradables;

use vstd::prelude::*;
use crate::text::{push_str};

verus! {

/// `path?qs`, or just `path` when the query string is empty.
pub open spec fn with_query_spec(path: Seq<char>, qs: Seq<char>) -> Seq<char> {
    if qs.len() == 0 {
        path
    } else {
        path + seq!['?'] + qs
    }
}

/// Append a query string to a path, omitting the `?` when the query is
/// empty.
pub fn with_query(path: &str, qs: &str) -> (s: String)
    ensures
        s@ == with_query_spec(path@, qs@),
{
    let mut s = String::new();
    push_str(&mut s, path);
    if !qs.is_empty() {
        crate::text::push_char(&mut s, '?');
        push_str(&mut s, qs);
    }
    assert(s@ =~= with_query_spec(path@, qs@));
    s
}

/// `true` or `false`, as `bool::to_string` writes it.
pub open spec fn bool_text(b: bool) -> Seq<char> {
    if b {
        seq!['t', 'r', 'u', 'e']
    } else {
        seq!['f', 'a', 'l', 's', 'e']
    }
}

/// The wire text of a boolean query parameter.
pub fn bool_str(b: bool) -> (s: &'static str)
    ensures
        s@ == bool_text(b),
{
    if b {
        proof {
            reveal_strlit("true");
        }
        "true"
    } else {
        proof {
            reveal_strlit("false");
        }
        "false"
    }
}

/// The `(name, value)` pair of an optional boolean parameter; none when
/// it is unset.
pub open spec fn bool_pair(name: Seq<char>, v: Option<bool>) -> Seq<(Seq<char>, Seq<char>)> {
    match v {
        Some(b) => seq![(name, bool_text(b))],
        None => seq![],
    }
}

/// The `(name, value)` pair of an optional text parameter; none when it is
/// unset.
pub open spec fn text_pair(name: Seq<char>, v: Option<Seq<char>>) -> Seq<(Seq<char>, Seq<char>)> {
    match v {
        Some(t) => seq![(name, t)],
        None => seq![],
    }
}

/// One pair per value, all under the same name, in order.
pub open spec fn repeated_pairs(name: Seq<char>, values: Seq<Seq<char>>) -> Seq<
    (Seq<char>, Seq<char>),
> {
    values.map_values(|v: Seq<char>| (name, v))
}

} // verus!
