//! The `accounts` group.
//!
//! | Method | Op | Path |
//! |--------|----|------|
//! | GET | `list_accounts` | `/accounts` |
//! | GET | `get_account_info` | `/accounts/{accid}/info` |
//! | GET | `list_ledgers` | `/accounts/{accid}/ledgers` |
//! | GET | `list_positions` | `/accounts/{accid}/positions` |
//! | GET | `get_returns_today` | `/accounts/{accid}/returns/transactions/today` |
//! | GET | `list_account_trades` | `/accounts/{accid}/trades` |
//!
//! Every operation but `get_account_info` and `list_ledgers` reads a blank
//! 2xx body (204 No Content) as an empty list.

use vstd::prelude::*;
use crate::client::{ApiRequest, BlankBody, Client, is_get};
use crate::form::{FormQuery, form_query};
use crate::ids::AccountId;
use crate::resources::{bool_pair, bool_str, with_query_spec};
use crate::text::{int_decimal, i64_to_string, push_i64, push_str};

verus! {

/// Optional query parameters of [`Client::list_accounts`].
#[derive(Debug, Clone, Copy, Default, PartialEq, Eq, Structural)]
pub struct ListAccountsQuery {
    /// `true` if credit accounts should be included.
    pub include_credit_accounts: Option<bool>,
}

/// Optional query parameters of [`Client::get_account_info`].
#[derive(Debug, Clone, Copy, Default, PartialEq, Eq, Structural)]
pub struct AccountInfoQuery {
    /// `true` if `interest_rate` should be included.
    pub include_interest_rate: Option<bool>,
    /// `true` if `short_position_margin` should be included.
    pub include_short_pos_margin: Option<bool>,
}

/// Optional query parameters of [`Client::list_positions`].
#[derive(Debug, Clone, Copy, Default, PartialEq, Eq, Structural)]
pub struct ListPositionsQuery {
    /// `true` if instrument loan positions should be included.
    pub include_instrument_loans: Option<bool>,
    /// `true` if the intraday limit should be included.
    pub include_intraday_limit: Option<bool>,
}

/// Optional query parameters of [`Client::get_returns_today`].
#[derive(Debug, Clone, Copy, Default, PartialEq, Eq, Structural)]
pub struct ReturnsTodayQuery {
    /// `true` if credit accounts should be included.
    pub include_credit_account: Option<bool>,
}

/// Optional query parameters of [`Client::list_account_trades`].
#[derive(Debug, Clone, Copy, Default, PartialEq, Eq, Structural)]
pub struct ListAccountTradesQuery {
    /// Number of days to look up trades for (0 = today, at most 7).
    pub days: Option<i64>,
}

/// The views of a list of `(name, value)` pairs.
pub open spec fn static_pairs_view(pairs: Seq<(&'static str, String)>) -> Seq<
    (Seq<char>, Seq<char>),
> {
    pairs.map_values(|p: (&'static str, String)| (p.0@, p.1@))
}

/// The encoded query string for `pairs`, in order; empty for no pairs.
pub fn build_query(pairs: &[(&'static str, String)]) -> (s: String)
    ensures
        s@ == form_query(static_pairs_view(pairs@)),
{
    if pairs.len() == 0 {
        return String::new();
    }
    let mut q = FormQuery::new();
    let mut i: usize = 0;
    while i < pairs.len()
        invariant
            i <= pairs.len(),
            q.wf(),
            q@ == static_pairs_view(pairs@.take(i as int)),
        decreases pairs.len() - i,
    {
        q.append_pair(pairs[i].0, pairs[i].1.as_str());
        i = i + 1;
        assert(static_pairs_view(pairs@.take(i as int)) =~= static_pairs_view(
            pairs@.take(i - 1),
        ).push((pairs@[i - 1].0@, pairs@[i - 1].1@)));
    }
    assert(pairs@.take(pairs.len() as int) =~= pairs@);
    q.finish()
}

/// Push `(k, "true"/"false")` when `v` is set.
pub fn append_bool(pairs: &mut Vec<(&'static str, String)>, k: &'static str, v: Option<bool>)
    ensures
        static_pairs_view(final(pairs)@) == static_pairs_view(old(pairs)@) + bool_pair(k@, v),
{
    if let Some(b) = v {
        pairs.push((k, bool_str(b).to_owned()));
    }
    assert(static_pairs_view(final(pairs)@) =~= static_pairs_view(old(pairs)@) + bool_pair(k@, v));
}

/// `/accounts/{accid}{suffix}`.
pub open spec fn account_path(accid: AccountId, suffix: Seq<char>) -> Seq<char> {
    "/accounts/"@ + int_decimal(accid.0 as int) + suffix
}

pub(crate) fn account_path_string(accid: AccountId, suffix: &str) -> (s: String)
    ensures
        s@ == account_path(accid, suffix@),
{
    let mut s = String::new();
    push_str(&mut s, "/accounts/");
    push_i64(&mut s, accid.0);
    push_str(&mut s, suffix);
    assert(s@ =~= account_path(accid, suffix@));
    s
}

/// The query pairs of [`Client::list_account_trades`].
pub open spec fn days_pairs(days: Option<i64>) -> Seq<(Seq<char>, Seq<char>)> {
    match days {
        Some(d) => seq![("days"@, int_decimal(d as int))],
        None => seq![],
    }
}

impl Client {
    /// `GET /accounts` — the accounts that the user has access to.
    pub fn list_accounts(&self, query: ListAccountsQuery) -> (r: ApiRequest<()>)
        ensures
            is_get(
                r,
                with_query_spec(
                    "/accounts"@,
                    form_query(bool_pair("include_credit_accounts"@, query.include_credit_accounts)),
                ),
                BlankBody::EmptyResult,
            ),
    {
        let mut pairs: Vec<(&'static str, String)> = Vec::new();
        append_bool(&mut pairs, "include_credit_accounts", query.include_credit_accounts);
        assert(static_pairs_view(pairs@) =~= bool_pair("include_credit_accounts"@, query.include_credit_accounts));
        let qs = build_query(&pairs);
        let path = crate::resources::with_query("/accounts", qs.as_str());
        self.get(path.as_str()).empty_on_blank()
    }

    /// `GET /accounts/{accid}/info` — account information details.
    pub fn get_account_info(&self, accid: AccountId, query: AccountInfoQuery) -> (r: ApiRequest<()>)
        ensures
            is_get(
                r,
                with_query_spec(
                    account_path(accid, "/info"@),
                    form_query(
                        bool_pair("include_interest_rate"@, query.include_interest_rate)
                            + bool_pair("include_short_pos_margin"@, query.include_short_pos_margin),
                    ),
                ),
                BlankBody::Decode,
            ),
    {
        let mut pairs: Vec<(&'static str, String)> = Vec::new();
        append_bool(&mut pairs, "include_interest_rate", query.include_interest_rate);
        append_bool(&mut pairs, "include_short_pos_margin", query.include_short_pos_margin);
        assert(static_pairs_view(pairs@) =~= bool_pair("include_interest_rate"@, query.include_interest_rate)
            + bool_pair("include_short_pos_margin"@, query.include_short_pos_margin));
        let qs = build_query(&pairs);
        let base = account_path_string(accid, "/info");
        let path = crate::resources::with_query(base.as_str(), qs.as_str());
        self.get(path.as_str())
    }

    /// `GET /accounts/{accid}/ledgers` — the currency ledgers of an account.
    /// The result is one object, so a blank body stays a decode error.
    pub fn list_ledgers(&self, accid: AccountId) -> (r: ApiRequest<()>)
        ensures
            is_get(r, account_path(accid, "/ledgers"@), BlankBody::Decode),
    {
        let path = account_path_string(accid, "/ledgers");
        self.get(path.as_str())
    }

    /// `GET /accounts/{accid}/positions` — all positions of the account.
    pub fn list_positions(&self, accid: AccountId, query: ListPositionsQuery) -> (r: ApiRequest<()>)
        ensures
            is_get(
                r,
                with_query_spec(
                    account_path(accid, "/positions"@),
                    form_query(
                        bool_pair("include_instrument_loans"@, query.include_instrument_loans)
                            + bool_pair("include_intraday_limit"@, query.include_intraday_limit),
                    ),
                ),
                BlankBody::EmptyResult,
            ),
    {
        let mut pairs: Vec<(&'static str, String)> = Vec::new();
        append_bool(&mut pairs, "include_instrument_loans", query.include_instrument_loans);
        append_bool(&mut pairs, "include_intraday_limit", query.include_intraday_limit);
        assert(static_pairs_view(pairs@) =~= bool_pair("include_instrument_loans"@, query.include_instrument_loans)
            + bool_pair("include_intraday_limit"@, query.include_intraday_limit));
        let qs = build_query(&pairs);
        let base = account_path_string(accid, "/positions");
        let path = crate::resources::with_query(base.as_str(), qs.as_str());
        self.get(path.as_str()).empty_on_blank()
    }

    /// `GET /accounts/{accid}/returns/transactions/today` — today's
    /// withdrawal and deposit amounts.
    pub fn get_returns_today(&self, accid: AccountId, query: ReturnsTodayQuery) -> (r: ApiRequest<()>)
        ensures
            is_get(
                r,
                with_query_spec(
                    account_path(accid, "/returns/transactions/today"@),
                    form_query(bool_pair("include_credit_account"@, query.include_credit_account)),
                ),
                BlankBody::EmptyResult,
            ),
    {
        let mut pairs: Vec<(&'static str, String)> = Vec::new();
        append_bool(&mut pairs, "include_credit_account", query.include_credit_account);
        assert(static_pairs_view(pairs@) =~= bool_pair("include_credit_account"@, query.include_credit_account));
        let qs = build_query(&pairs);
        let base = account_path_string(accid, "/returns/transactions/today");
        let path = crate::resources::with_query(base.as_str(), qs.as_str());
        self.get(path.as_str()).empty_on_blank()
    }

    /// `GET /accounts/{accid}/trades` — the trades of the account.
    pub fn list_account_trades(&self, accid: AccountId, query: ListAccountTradesQuery) -> (r: ApiRequest<()>)
        ensures
            is_get(
                r,
                with_query_spec(account_path(accid, "/trades"@), form_query(days_pairs(query.days))),
                BlankBody::EmptyResult,
            ),
    {
        let mut pairs: Vec<(&'static str, String)> = Vec::new();
        if let Some(d) = query.days {
            pairs.push(("days", i64_to_string(d)));
        }
        assert(static_pairs_view(pairs@) =~= days_pairs(query.days));
        let qs = build_query(&pairs);
        let base = account_path_string(accid, "/trades");
        let path = crate::resources::with_query(base.as_str(), qs.as_str());
        self.get(path.as_str()).empty_on_blank()
    }
}

} // verus!
