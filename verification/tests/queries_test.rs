use nordnet::client::{BlankBody, Client, Method};
use nordnet::ids::{AccountId, InstrumentId, IssuerId, MarketId, NewsId, OrderId, TickSizeId, TradableId};
use nordnet::models::tradables::TradableKey;
use nordnet::resources::accounts::{
    append_bool, build_query, AccountInfoQuery, ListAccountTradesQuery, ListAccountsQuery,
    ListPositionsQuery, ReturnsTodayQuery,
};
use nordnet::resources::instrument_search::{
    build_attributes_query, build_list_search_query, build_stocklist_query, AttributesQuery,
    ListSearchQuery, StocklistQuery,
};
use nordnet::resources::instruments::{build_leverages_query, LeveragesQuery};
use nordnet::resources::main_search::{build_search_query, urlencoding_minimal};
use nordnet::resources::with_query;

fn client() -> Client {
    Client::new("https://public.nordnet.se/api/2")
}

#[test]
fn build_query_empty_when_no_pairs() {
    assert_eq!(build_query(&[]), "");
}

#[test]
fn build_query_pairs_in_order_and_encoded() {
    let qs = build_query(&[
        ("days", "7".to_owned()),
        ("include_credit_accounts", "true".to_owned()),
        ("name", "a&b".to_owned()),
    ]);
    assert_eq!(qs, "days=7&include_credit_accounts=true&name=a%26b");
}

#[test]
fn append_bool_skips_when_none() {
    let mut pairs = Vec::new();
    append_bool(&mut pairs, "include_credit_accounts", None);
    assert!(pairs.is_empty());
}

#[test]
fn append_bool_emits_lowercase_when_some() {
    let mut pairs = Vec::new();
    append_bool(&mut pairs, "include_credit_accounts", Some(true));
    append_bool(&mut pairs, "include_intraday_limit", Some(false));
    assert_eq!(
        pairs,
        vec![
            ("include_credit_accounts", "true".to_owned()),
            ("include_intraday_limit", "false".to_owned()),
        ]
    );
}

#[test]
fn with_query_empty_omits_question_mark() {
    assert_eq!(with_query("/x", ""), "/x");
    assert_eq!(with_query("/x", "a=1"), "/x?a=1");
}

#[test]
fn attributes_query_empty_when_default() {
    let qs = build_attributes_query(&AttributesQuery::default());
    assert_eq!(qs, "");
}

#[test]
fn attributes_query_includes_scalar_and_repeated() {
    let qs = build_attributes_query(&AttributesQuery {
        apply_filters: Some("nordnet_markets=true"),
        attribute_group: vec!["PRICE_INFO".to_owned(), "EXCHANGE_INFO".to_owned()],
        entity_type: Some("STOCKLIST"),
        expand: vec!["market_id".to_owned()],
        minmax: vec![],
        only_filterable: Some(true),
        only_returnable: Some(false),
        only_sortable: None,
    });
    assert_eq!(
        qs,
        "apply_filters=nordnet_markets%3Dtrue&entity_type=STOCKLIST&only_filterable=true&only_returnable=false&attribute_group=PRICE_INFO&attribute_group=EXCHANGE_INFO&expand=market_id"
    );
}

#[test]
fn stocklist_query_default_empty() {
    let qs = build_stocklist_query(&StocklistQuery::default());
    assert_eq!(qs, "");
}

#[test]
fn stocklist_query_with_all_fields() {
    let qs = build_stocklist_query(&StocklistQuery {
        apply_filters: Some("instrument_type=ESH"),
        attribute_groups: vec!["PRICE_INFO".to_owned()],
        attributes: vec!["name".to_owned(), "isin".to_owned()],
        free_text_search: Some("erics"),
        limit: Some(25),
        offset: Some(50),
        sort_attribute: Some("name"),
        sort_order: Some("desc"),
    });
    assert_eq!(
        qs,
        "apply_filters=instrument_type%3DESH&free_text_search=erics&limit=25&offset=50&sort_attribute=name&sort_order=desc&attribute_groups=PRICE_INFO&attributes=name&attributes=isin"
    );
}

#[test]
fn list_search_query_default_empty() {
    let qs = build_list_search_query(&ListSearchQuery::default());
    assert_eq!(qs, "");
}

#[test]
fn list_search_query_includes_pagination() {
    let qs = build_list_search_query(&ListSearchQuery {
        apply_filters: None,
        free_text_search: Some("ERIC"),
        limit: Some(10),
        offset: Some(0),
        sort_attribute: None,
        sort_order: Some("asc"),
    });
    assert_eq!(qs, "free_text_search=ERIC&limit=10&offset=0&sort_order=asc");
}

#[test]
fn build_query_empty_when_no_filters() {
    let qs = build_leverages_query(&LeveragesQuery::default());
    assert_eq!(qs, "");
}

#[test]
fn build_query_includes_all_filters_in_order() {
    let qs = build_leverages_query(&LeveragesQuery {
        currency: Some("SEK"),
        expiration_date: Some("2025-12-19"),
        instrument_group_type: Some("LEVERAGE"),
        instrument_type: Some("WNT"),
        issuer_id: Some(IssuerId(42)),
        market_view: Some("U"),
    });
    assert_eq!(
        qs,
        "currency=SEK&expiration_date=2025-12-19&instrument_group_type=LEVERAGE&instrument_type=WNT&issuer_id=42&market_view=U"
    );
}

#[test]
fn instruments_build_query_percent_encodes_special_chars() {
    let qs = build_leverages_query(&LeveragesQuery { currency: Some("a&b"), ..LeveragesQuery::default() });
    assert_eq!(qs, "currency=a%26b");
}

#[test]
fn build_query_required_only() {
    let qs = build_search_query("Volvo", None, None, None, None);
    assert_eq!(qs, "query=Volvo");
}

#[test]
fn build_query_all_params() {
    let qs = build_search_query("Volvo B", Some(&["EQUITY", "ETF"]), Some(10), Some(5), Some("INSTRUMENTS"));
    assert_eq!(
        qs,
        "query=Volvo+B&instrument_group=EQUITY&instrument_group=ETF&limit=10&offset=5&search_space=INSTRUMENTS"
    );
}

#[test]
fn main_search_build_query_percent_encodes_special_chars() {
    let qs = build_search_query("a&b=c", None, None, None, None);
    assert_eq!(qs, "query=a%26b%3Dc");
}

#[test]
fn build_query_empty_instrument_group_omits_param() {
    let qs = build_search_query("x", Some(&[]), None, None, None);
    assert_eq!(qs, "query=x");
}

#[test]
fn form_encoding_of_non_ascii_and_reserved_bytes() {
    let qs = build_search_query("Ålö ~*-._+/", None, Some(-1), None, None);
    assert_eq!(qs, "query=%C3%85l%C3%B6+%7E*-._%2B%2F&limit=-1");
}

#[test]
fn minimal_encoding_keeps_only_unreserved() {
    assert_eq!(urlencoding_minimal("a b~*&é"), "a%20b~%2A%26%C3%A9");
    assert_eq!(urlencoding_minimal(""), "");
}

#[test]
fn list_accounts_forwards_include_credit_accounts() {
    let r = client().list_accounts(ListAccountsQuery { include_credit_accounts: Some(true) });
    assert_eq!(r.method, Method::Get);
    assert_eq!(r.path, "/accounts?include_credit_accounts=true");
    assert_eq!(r.blank_body, BlankBody::EmptyResult);
    let r = client().list_accounts(ListAccountsQuery::default());
    assert_eq!(r.path, "/accounts");
}

#[test]
fn account_paths_carry_the_account_and_flags() {
    let c = client();
    let r = c.get_account_info(
        AccountId(123),
        AccountInfoQuery { include_interest_rate: Some(true), include_short_pos_margin: Some(false) },
    );
    assert_eq!(r.path, "/accounts/123/info?include_interest_rate=true&include_short_pos_margin=false");
    assert_eq!(c.list_ledgers(AccountId(123)).path, "/accounts/123/ledgers");
    assert_eq!(c.list_ledgers(AccountId(123)).blank_body, BlankBody::Decode);
    let r = c.list_positions(
        AccountId(9),
        ListPositionsQuery { include_instrument_loans: None, include_intraday_limit: Some(true) },
    );
    assert_eq!(r.path, "/accounts/9/positions?include_intraday_limit=true");
    let r = c.get_returns_today(AccountId(9), ReturnsTodayQuery { include_credit_account: Some(false) });
    assert_eq!(r.path, "/accounts/9/returns/transactions/today?include_credit_account=false");
    let r = c.list_account_trades(AccountId(9), ListAccountTradesQuery { days: Some(7) });
    assert_eq!(r.path, "/accounts/9/trades?days=7");
    let r = c.list_account_trades(AccountId(9), ListAccountTradesQuery { days: None });
    assert_eq!(r.path, "/accounts/9/trades");
}

#[test]
fn instrument_paths() {
    let c = client();
    assert_eq!(c.lookup("market_id_identifier", "11:101").path, "/instruments/lookup/market_id_identifier/11:101");
    assert_eq!(c.list_types().path, "/instruments/types");
    assert_eq!(c.get_type("ESH,FUT").path, "/instruments/types/ESH,FUT");
    assert_eq!(c.list_underlyings("leverage", "SEK").path, "/instruments/underlyings/leverage/SEK");
    assert_eq!(
        c.get_instrument_suitability(InstrumentId(16099051)).path,
        "/instruments/validation/suitability/16099051"
    );
    assert_eq!(c.get_instrument(InstrumentId(16099051)).path, "/instruments/16099051");
    assert_eq!(c.get_leverage_filters(InstrumentId(1)).path, "/instruments/1/leverages/filters");
    assert_eq!(c.list_instrument_trades(InstrumentId(1)).path, "/instruments/1/trades");
}

#[test]
fn list_leverages_without_filters_omits_query() {
    let r = client().list_leverages(InstrumentId(16099051), LeveragesQuery::default());
    assert_eq!(r.path, "/instruments/16099051/leverages");
    assert_eq!(r.blank_body, BlankBody::EmptyResult);
}

#[test]
fn list_leverages_with_all_filters_forwards_query() {
    let r = client().list_leverages(
        InstrumentId(16099051),
        LeveragesQuery {
            currency: Some("SEK"),
            expiration_date: Some("2025-12-19"),
            instrument_group_type: Some("LEVERAGE"),
            instrument_type: Some("WNT"),
            issuer_id: Some(IssuerId(42)),
            market_view: Some("U"),
        },
    );
    assert_eq!(
        r.path,
        "/instruments/16099051/leverages?currency=SEK&expiration_date=2025-12-19&instrument_group_type=LEVERAGE&instrument_type=WNT&issuer_id=42&market_view=U"
    );
}

#[test]
fn instrument_search_paths() {
    let c = client();
    assert_eq!(
        c.get_attributes(AttributesQuery { entity_type: Some("STOCKLIST"), ..AttributesQuery::default() }).path,
        "/instrument_search/attributes?entity_type=STOCKLIST"
    );
    assert_eq!(c.search_stocklist(StocklistQuery::default()).path, "/instrument_search/query/stocklist");
    let r = c.search_bullbearlist(ListSearchQuery { limit: Some(25), ..ListSearchQuery::default() });
    assert_eq!(r.path, "/instrument_search/query/bullbearlist?limit=25");
    assert_eq!(r.blank_body, BlankBody::EmptyResult);
    assert_eq!(
        c.search_minifuturelist(ListSearchQuery::default()).path,
        "/instrument_search/query/minifuturelist"
    );
    assert_eq!(
        c.search_unlimitedturbolist(ListSearchQuery::default()).path,
        "/instrument_search/query/unlimitedturbolist"
    );
    assert_eq!(
        c.search_optionlist_pairs("SEK", 1700000000000, "ERIC B").path,
        "/instrument_search/query/optionlist/pairs?currency=SEK&expire_date=1700000000000&underlying_symbol=ERIC+B"
    );
}

#[test]
fn search_forwards_query_string() {
    let r = client().search("Volvo B", Some(&["EQUITY"]), Some(10), None, None);
    assert_eq!(r.path, "/main_search?query=Volvo+B&instrument_group=EQUITY&limit=10");
    assert_eq!(r.blank_body, BlankBody::EmptyResult);
}

#[test]
fn reference_data_paths() {
    let c = client();
    assert_eq!(c.list_markets().path, "/markets");
    assert_eq!(c.get_market(MarketId(11)).path, "/markets/11");
    assert_eq!(c.get_market(MarketId(11)).blank_body, BlankBody::EmptyResult);
    assert_eq!(c.list_countries().path, "/countries");
    assert_eq!(c.get_country("SE,NO").path, "/countries/SE,NO");
    assert_eq!(c.list_tick_sizes().path, "/tick_sizes");
    assert_eq!(c.get_tick_size(TickSizeId(1)).path, "/tick_sizes/1");
    assert_eq!(c.get_tick_size(TickSizeId(1)).blank_body, BlankBody::Decode);
    assert_eq!(c.get_news_item(NewsId(12345678)).path, "/news/12345678");
    assert_eq!(c.list_news_sources().path, "/news_sources");
    assert_eq!(c.get_system_status().path, "");
    assert_eq!(c.url(&c.get_system_status().path), "https://public.nordnet.se/api/2/");
}

#[test]
fn tradable_key_display_uses_colon_separator() {
    let key = TradableKey::new(MarketId(11), TradableId("101".to_owned()));
    assert_eq!(key.to_string(), "11:101");
}

#[test]
fn tradable_paths() {
    let c = client();
    let key = TradableKey::new(MarketId(11), TradableId("101".to_owned()));
    assert_eq!(c.get_tradable_info(&key).path, "/tradables/info/11:101");
    assert_eq!(c.list_tradable_trades(&key, Some("all")).path, "/tradables/trades/11:101?count=all");
    assert_eq!(c.list_tradable_trades(&key, None).path, "/tradables/trades/11:101");
    assert_eq!(c.get_suitability(&key).path, "/tradables/validation/suitability/11:101");
}

#[test]
fn order_paths() {
    let c = client();
    assert_eq!(c.list_orders(AccountId(1), Some(true)).path, "/accounts/1/orders?deleted=true");
    assert_eq!(c.list_orders(AccountId(1), None).path, "/accounts/1/orders");
    let r = c.activate_order(AccountId(1), OrderId(2));
    assert_eq!(r.method, Method::Put);
    assert_eq!(r.path, "/accounts/1/orders/2/activate");
    let r = c.cancel_order(AccountId(1), OrderId(2));
    assert_eq!(r.method, Method::Delete);
    assert_eq!(r.path, "/accounts/1/orders/2");
}

#[test]
fn login_paths() {
    let c = client();
    assert_eq!(c.refresh_session().method, Method::Put);
    assert_eq!(c.refresh_session().path, "/login");
    assert_eq!(c.logout().method, Method::Delete);
    assert_eq!(c.logout().path, "/login");
}

#[test]
fn encoded_query_reads_back_as_the_pairs_written() {
    let pairs = vec![
        ("name", "a&b=c d+e".to_owned()),
        ("emoji", "Å😀%".to_owned()),
        ("empty", "".to_owned()),
    ];
    let qs = build_query(&pairs);
    let back: Vec<(String, String)> = serde_urlencoded::from_str(&qs).unwrap();
    let want: Vec<(String, String)> = pairs.iter().map(|(k, v)| (k.to_string(), v.clone())).collect();
    assert_eq!(back, want);
}

fn percent_decode(s: &str) -> Vec<u8> {
    let b = s.as_bytes();
    let mut out = Vec::new();
    let mut i = 0;
    while i < b.len() {
        if b[i] == b'%' && i + 2 < b.len() {
            let hex = std::str::from_utf8(&b[i + 1..i + 3]).unwrap();
            out.push(u8::from_str_radix(hex, 16).unwrap());
            i += 3;
        } else {
            out.push(b[i]);
            i += 1;
        }
    }
    out
}

#[test]
fn minimal_encoding_decodes_to_the_utf8_bytes() {
    for s in ["plain", "a b/c?d=e&f", "Ålö~ 😀", ""] {
        assert_eq!(percent_decode(&urlencoding_minimal(s)), s.as_bytes());
    }
}
