//! `nordnet search <query>`.

use vstd::prelude::*;
use crate::client::{ApiRequest, BlankBody, Client, is_get};
use crate::form::form_query;
use crate::resources::instrument_search::opt_int_text;
use crate::resources::main_search::search_pairs;
use crate::resources::text_pair;
use crate::text::{opt_as_str, opt_string_view, opt_text_view, strings_view};

verus! {

/// `search`: the query and its optional filters.
#[derive(Debug, Clone, PartialEq, Eq)]
pub struct SearchArgs {
    pub query: String,
    /// Instrument groups; the parameter repeats once per group.
    pub instrument_group: Option<Vec<String>>,
    pub limit: Option<i32>,
    pub offset: Option<i32>,
    pub search_space: Option<String>,
}

/// The query pairs of `search`, in wire order.
pub open spec fn search_args_pairs(a: SearchArgs) -> Seq<(Seq<char>, Seq<char>)> {
    seq![("query"@, a.query@)] + match a.instrument_group {
        Some(groups) => strings_view(groups@).map_values(|g: Seq<char>| ("instrument_group"@, g)),
        None => seq![],
    } + text_pair("limit"@, opt_int_text(a.limit)) + text_pair("offset"@, opt_int_text(a.offset))
        + text_pair("search_space"@, opt_string_view(a.search_space))
}

/// The strings of `v`, borrowed.
fn borrow_all(v: &Vec<String>) -> (out: Vec<&str>)
    ensures
        out@.map_values(|g: &str| g@) == strings_view(v@),
{
    let mut out: Vec<&str> = Vec::new();
    let mut i: usize = 0;
    while i < v.len()
        invariant
            i <= v.len(),
            out.len() == i,
            out@.map_values(|g: &str| g@) == strings_view(v@.take(i as int)),
        decreases v.len() - i,
    {
        let ghost prev = out@;
        let x = v[i].as_str();
        out.push(x);
        i = i + 1;
        proof {
            assert(out@ == prev.push(x));
            assert(x@ == v@[i - 1]@);
            let a = out@.map_values(|g: &str| g@);
            let b = strings_view(v@.take(i as int));
            let pa = prev.map_values(|g: &str| g@);
            let pb = strings_view(v@.take(i - 1));
            assert(a.len() == i && b.len() == i);
            assert forall|k: int| 0 <= k < i implies #[trigger] a[k] == b[k] by {
                if k < i - 1 {
                    assert(out@[k] == prev[k]);
                    assert(a[k] == pa[k]);
                    assert(v@.take(i as int)[k] == v@.take(i - 1)[k]);
                    assert(b[k] == pb[k]);
                } else {
                    assert(out@[k] == x);
                    assert(v@.take(i as int)[k] == v@[i - 1]);
                }
            }
            assert(a =~= b);
        }
    }
    assert(v@.take(v.len() as int) =~= v@);
    out
}

proof fn lemma_group_pairs(v: Seq<String>, b: Seq<&str>)
    requires
        b.map_values(|g: &str| g@) == strings_view(v),
    ensures
        b.map_values(|g: &str| ("instrument_group"@, g@)) == strings_view(v).map_values(
            |g: Seq<char>| ("instrument_group"@, g),
        ),
{
    let lhs = b.map_values(|g: &str| ("instrument_group"@, g@));
    let rhs = strings_view(v).map_values(|g: Seq<char>| ("instrument_group"@, g));
    let views = b.map_values(|g: &str| g@);
    assert(views.len() == b.len());
    assert forall|i: int| 0 <= i < b.len() implies #[trigger] lhs[i] == rhs[i] by {
        assert(views[i] == b[i]@);
    }
    assert(lhs =~= rhs);
}

/// The operation of `nordnet search`.
#[derive(Debug, Clone, PartialEq, Eq)]
pub enum Cmd {
    Search(SearchArgs),
}

impl Cmd {
    /// The request: `GET /main_search` with the query string; a blank reply
    /// is an empty result.
    pub fn request(&self, client: &Client) -> (r: ApiRequest<()>)
        ensures
            self matches Cmd::Search(a) && is_get(
                r,
                "/main_search?"@ + form_query(search_args_pairs(*a)),
                BlankBody::EmptyResult,
            ),
    {
        match self {
            Cmd::Search(a) => {
                let groups: Option<Vec<&str>> = match &a.instrument_group {
                    Some(v) => Some(borrow_all(v)),
                    None => None,
                };
                let group_slice: Option<&[&str]> = match &groups {
                    Some(g) => Some(g.as_slice()),
                    None => None,
                };
                let space = opt_as_str(&a.search_space);
                let r = client.search(a.query.as_str(), group_slice, a.limit, a.offset, space);
                proof {
                    if let Some(v) = &a.instrument_group {
                        if let Some(g) = &groups {
                            lemma_group_pairs(v@, g@);
                        }
                    }
                    assert(opt_text_view(space) == opt_string_view(a.search_space));
                    assert(search_pairs(
                        a.query@,
                        match group_slice {
                            Some(g) => Some(g@),
                            None => None,
                        },
                        a.limit,
                        a.offset,
                        space,
                    ) =~= search_args_pairs(*a));
                }
                r
            },
        }
    }
}

} // verus!
