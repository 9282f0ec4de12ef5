//! `nordnet accounts <op>`.

use vstd::prelude::*;
use crate::client::{ApiRequest, BlankBody, Client, is_get};
use crate::form::{form_query, law_form_query_reads_back, read_query};
use vstd::utf8::encode_utf8;
use crate::ids::AccountId;
use crate::resources::accounts::{
    AccountInfoQuery,
    ListAccountTradesQuery,
    ListAccountsQuery,
    ListPositionsQuery,
    ReturnsTodayQuery,
    account_path,
    days_pairs,
};
use crate::resources::{bool_pair, bool_text, with_query_spec};

verus! {

/// `accounts list`.
#[derive(Debug, Clone, Copy, PartialEq, Eq, Structural)]
pub struct ListArgs {
    /// Also list credit accounts.
    pub include_credit_accounts: Option<bool>,
}

/// An account number.
#[derive(Debug, Clone, Copy, PartialEq, Eq, Structural)]
pub struct AccidArg {
    pub accid: i64,
}

/// `accounts info`.
#[derive(Debug, Clone, Copy, PartialEq, Eq, Structural)]
pub struct InfoArgs {
    pub accid: i64,
    pub include_interest_rate: Option<bool>,
    pub include_short_pos_margin: Option<bool>,
}

/// `accounts positions`.
#[derive(Debug, Clone, Copy, PartialEq, Eq, Structural)]
pub struct PositionsArgs {
    pub accid: i64,
    pub include_instrument_loans: Option<bool>,
    pub include_intraday_limit: Option<bool>,
}

/// `accounts returns-today`.
#[derive(Debug, Clone, Copy, PartialEq, Eq, Structural)]
pub struct ReturnsArgs {
    pub accid: i64,
    pub include_credit_account: Option<bool>,
}

/// `accounts trades`.
#[derive(Debug, Clone, Copy, PartialEq, Eq, Structural)]
pub struct TradesArgs {
    pub accid: i64,
    /// Days back to look (0 is today, at most 7).
    pub days: Option<i64>,
}

/// The operations of `nordnet accounts`.
#[derive(Debug, Clone, Copy, PartialEq, Eq, Structural)]
pub enum Cmd {
    List(ListArgs),
    Info(InfoArgs),
    Ledgers(AccidArg),
    Positions(PositionsArgs),
    ReturnsToday(ReturnsArgs),
    Trades(TradesArgs),
}

impl Cmd {
    /// The path that the operation requests.
    pub open spec fn path(self) -> Seq<char> {
        match self {
            Cmd::List(a) => with_query_spec(
                "/accounts"@,
                form_query(bool_pair("include_credit_accounts"@, a.include_credit_accounts)),
            ),
            Cmd::Info(a) => with_query_spec(
                account_path(AccountId(a.accid), "/info"@),
                form_query(
                    bool_pair("include_interest_rate"@, a.include_interest_rate) + bool_pair(
                        "include_short_pos_margin"@,
                        a.include_short_pos_margin,
                    ),
                ),
            ),
            Cmd::Ledgers(a) => account_path(AccountId(a.accid), "/ledgers"@),
            Cmd::Positions(a) => with_query_spec(
                account_path(AccountId(a.accid), "/positions"@),
                form_query(
                    bool_pair("include_instrument_loans"@, a.include_instrument_loans) + bool_pair(
                        "include_intraday_limit"@,
                        a.include_intraday_limit,
                    ),
                ),
            ),
            Cmd::ReturnsToday(a) => with_query_spec(
                account_path(AccountId(a.accid), "/returns/transactions/today"@),
                form_query(bool_pair("include_credit_account"@, a.include_credit_account)),
            ),
            Cmd::Trades(a) => with_query_spec(
                account_path(AccountId(a.accid), "/trades"@),
                form_query(days_pairs(a.days)),
            ),
        }
    }

    /// What a blank reply to the operation means.
    pub open spec fn blank(self) -> BlankBody {
        if self is Info || self is Ledgers {
            BlankBody::Decode
        } else {
            BlankBody::EmptyResult
        }
    }

    /// The request of the operation.
    pub fn request(&self, client: &Client) -> (r: ApiRequest<()>)
        ensures
            is_get(r, self.path(), self.blank()),
            self matches Cmd::Info(a) ==> is_get(
                r,
                with_query_spec(
                    account_path(AccountId(a.accid), "/info"@),
                    form_query(
                        bool_pair("include_interest_rate"@, a.include_interest_rate)
                            + bool_pair("include_short_pos_margin"@, a.include_short_pos_margin),
                    ),
                ),
                BlankBody::Decode,
            ),
            self matches Cmd::List(a) ==> is_get(
                r,
                with_query_spec(
                    "/accounts"@,
                    form_query(bool_pair("include_credit_accounts"@, a.include_credit_accounts)),
                ),
                BlankBody::EmptyResult,
            ),
            self matches Cmd::Ledgers(a) ==> is_get(
                r,
                account_path(AccountId(a.accid), "/ledgers"@),
                BlankBody::Decode,
            ),
            self matches Cmd::Positions(a) ==> is_get(
                r,
                with_query_spec(
                    account_path(AccountId(a.accid), "/positions"@),
                    form_query(
                        bool_pair("include_instrument_loans"@, a.include_instrument_loans)
                            + bool_pair("include_intraday_limit"@, a.include_intraday_limit),
                    ),
                ),
                BlankBody::EmptyResult,
            ),
            self matches Cmd::ReturnsToday(a) ==> is_get(
                r,
                with_query_spec(
                    account_path(AccountId(a.accid), "/returns/transactions/today"@),
                    form_query(bool_pair("include_credit_account"@, a.include_credit_account)),
                ),
                BlankBody::EmptyResult,
            ),
            self matches Cmd::Trades(a) ==> is_get(
                r,
                with_query_spec(account_path(AccountId(a.accid), "/trades"@), form_query(days_pairs(a.days))),
                BlankBody::EmptyResult,
            ),
    {
        match self {
            Cmd::List(a) => client.list_accounts(ListAccountsQuery { include_credit_accounts: a.include_credit_accounts }),
            Cmd::Info(a) => client.get_account_info(
                AccountId(a.accid),
                AccountInfoQuery {
                    include_interest_rate: a.include_interest_rate,
                    include_short_pos_margin: a.include_short_pos_margin,
                },
            ),
            Cmd::Ledgers(a) => client.list_ledgers(AccountId(a.accid)),
            Cmd::Positions(a) => client.list_positions(
                AccountId(a.accid),
                ListPositionsQuery {
                    include_instrument_loans: a.include_instrument_loans,
                    include_intraday_limit: a.include_intraday_limit,
                },
            ),
            Cmd::ReturnsToday(a) => client.get_returns_today(
                AccountId(a.accid),
                ReturnsTodayQuery { include_credit_account: a.include_credit_account },
            ),
            Cmd::Trades(a) => client.list_account_trades(
                AccountId(a.accid),
                ListAccountTradesQuery { days: a.days },
            ),
        }
    }
}

/// Law: `accounts info` asks for `/accounts/{accid}/info`, and its query
/// string, read back, holds exactly the flags given on the command line,
/// each under its own name: the interest-rate flag as
/// `include_interest_rate`, then the short-position-margin flag as
/// `include_short_pos_margin`; with neither flag there is no query string.
pub proof fn account_info_query_names_its_flags(accid: i64, i: Option<bool>, s: Option<bool>)
    ensures
        (i is None && s is None) ==> Cmd::Info(
            InfoArgs { accid, include_interest_rate: i, include_short_pos_margin: s },
        ).path() == account_path(AccountId(accid), "/info"@),
        (i is Some || s is Some) ==> {
            let p = Cmd::Info(InfoArgs { accid, include_interest_rate: i, include_short_pos_margin: s }).path();
            let base = account_path(AccountId(accid), "/info"@);
            &&& p.take(base.len() + 1 as int) == base + seq!['?']
            &&& read_query(p.skip(base.len() + 1 as int)) == match (i, s) {
                (Some(x), Some(y)) => seq![
                    (encode_utf8("include_interest_rate"@), encode_utf8(bool_text(x))),
                    (encode_utf8("include_short_pos_margin"@), encode_utf8(bool_text(y))),
                ],
                (Some(x), None) => seq![(encode_utf8("include_interest_rate"@), encode_utf8(bool_text(x)))],
                (None, Some(y)) => seq![(encode_utf8("include_short_pos_margin"@), encode_utf8(bool_text(y)))],
                (None, None) => Seq::<(Seq<u8>, Seq<u8>)>::empty(),
            }
        },
{
    let pairs = bool_pair("include_interest_rate"@, i) + bool_pair("include_short_pos_margin"@, s);
    let base = account_path(AccountId(accid), "/info"@);
    let qs = form_query(pairs);
    let p = Cmd::Info(InfoArgs { accid, include_interest_rate: i, include_short_pos_margin: s }).path();
    assert(p == with_query_spec(base, qs));
    law_form_query_reads_back(pairs);
    let read = pairs.map_values(|q: (Seq<char>, Seq<char>)| (encode_utf8(q.0), encode_utf8(q.1)));
    if i is None && s is None {
        assert(pairs =~= Seq::<(Seq<char>, Seq<char>)>::empty());
    } else {
        assert(pairs.len() > 0);
        assert(qs.len() > 0);
        assert(p =~= base + seq!['?'] + qs);
        assert(p.take(base.len() + 1 as int) =~= base + seq!['?']);
        assert(p.skip(base.len() + 1 as int) =~= qs);
        match (i, s) {
            (Some(x), Some(y)) => {
                assert(read =~= seq![
                    (encode_utf8("include_interest_rate"@), encode_utf8(bool_text(x))),
                    (encode_utf8("include_short_pos_margin"@), encode_utf8(bool_text(y))),
                ]);
            },
            (Some(x), None) => {
                assert(read =~= seq![(encode_utf8("include_interest_rate"@), encode_utf8(bool_text(x)))]);
            },
            (None, Some(y)) => {
                assert(read =~= seq![(encode_utf8("include_short_pos_margin"@), encode_utf8(bool_text(y)))]);
            },
            (None, None) => {},
        }
    }
}

} // verus!
