use nordnet::cli::cmd::accounts::{self, AccidArg, InfoArgs, ListArgs, PositionsArgs, ReturnsArgs, TradesArgs};
use nordnet::cli::cmd::instrument_search::{
    self, make_list_search_query, AttributesArgs, ListSearchArgs, OptionListPairsArgs, StocklistArgs,
};
use nordnet::cli::cmd::instruments::{self, GetTypeArgs, InstrumentArg, LeveragesArgs, LookupArgs, UnderlyingsArgs};
use nordnet::cli::cmd::main_search::{self, SearchArgs};
use nordnet::cli::cmd::tradables::{self, KeyArgs, TradesArgs as TradableTradesArgs};
use nordnet::cli::cmd::{countries, markets, news, orders_read, root, tick_sizes};
use nordnet::cli::tradables::TradableKeyError;
use nordnet::client::{BlankBody, Client, Method};
use nordnet::resources::instrument_search::build_list_search_query;

fn client() -> Client {
    Client::new("https://public.nordnet.se/api/2/")
}

#[test]
fn accounts_commands_request_their_paths() {
    let c = client();
    let r = accounts::Cmd::List(ListArgs { include_credit_accounts: Some(false) }).request(&c);
    assert_eq!(r.path, "/accounts?include_credit_accounts=false");
    let r = accounts::Cmd::Info(InfoArgs { accid: 5, include_interest_rate: None, include_short_pos_margin: None })
        .request(&c);
    assert_eq!(r.path, "/accounts/5/info");
    assert_eq!(r.blank_body, BlankBody::Decode);
    assert_eq!(accounts::Cmd::Ledgers(AccidArg { accid: 5 }).request(&c).path, "/accounts/5/ledgers");
    let r = accounts::Cmd::Positions(PositionsArgs {
        accid: 5,
        include_instrument_loans: Some(true),
        include_intraday_limit: None,
    })
    .request(&c);
    assert_eq!(r.path, "/accounts/5/positions?include_instrument_loans=true");
    let r = accounts::Cmd::ReturnsToday(ReturnsArgs { accid: 5, include_credit_account: None }).request(&c);
    assert_eq!(r.path, "/accounts/5/returns/transactions/today");
    let r = accounts::Cmd::Trades(TradesArgs { accid: 5, days: Some(0) }).request(&c);
    assert_eq!(r.path, "/accounts/5/trades?days=0");
    assert_eq!(r.blank_body, BlankBody::EmptyResult);
}

#[test]
fn reference_commands_request_their_paths() {
    let c = client();
    assert_eq!(root::Cmd::Info.request(&c).path, "");
    assert_eq!(countries::Cmd::List.request(&c).path, "/countries");
    let r = countries::Cmd::Get(countries::GetArgs { code: "SE,NO,DK".into() }).request(&c);
    assert_eq!(r.path, "/countries/SE,NO,DK");
    assert_eq!(r.blank_body, BlankBody::EmptyResult);
    assert_eq!(markets::Cmd::Get(markets::GetArgs { id: 11 }).request(&c).path, "/markets/11");
    assert_eq!(news::Cmd::Sources.request(&c).path, "/news_sources");
    assert_eq!(news::Cmd::Get(news::GetArgs { id: 12345678 }).request(&c).path, "/news/12345678");
    let r = tick_sizes::Cmd::Get(tick_sizes::GetArgs { id: 1 }).request(&c);
    assert_eq!(r.path, "/tick_sizes/1");
    assert_eq!(r.blank_body, BlankBody::Decode);
}

#[test]
fn instruments_commands_request_their_paths() {
    let c = client();
    let r = instruments::Cmd::Lookup(LookupArgs {
        lookup_type: "isin_code_currency_market_id".into(),
        lookup: "SE0000108656:SEK:11".into(),
    })
    .request(&c);
    assert_eq!(r.path, "/instruments/lookup/isin_code_currency_market_id/SE0000108656:SEK:11");
    assert_eq!(instruments::Cmd::Types.request(&c).blank_body, BlankBody::Decode);
    let r = instruments::Cmd::GetType(GetTypeArgs { instrument_type: "ESH".into() }).request(&c);
    assert_eq!(r.path, "/instruments/types/ESH");
    let r = instruments::Cmd::Underlyings(UnderlyingsArgs { derivative_type: "option_pair".into(), currency: "SEK".into() })
        .request(&c);
    assert_eq!(r.path, "/instruments/underlyings/option_pair/SEK");
    let r = instruments::Cmd::Suitability(InstrumentArg { instrument_id: 16099051 }).request(&c);
    assert_eq!(r.path, "/instruments/validation/suitability/16099051");
    let r = instruments::Cmd::Leverages(LeveragesArgs {
        instrument_id: 16099051,
        currency: Some("SEK".into()),
        expiration_date: None,
        instrument_group_type: None,
        instrument_type: Some("MINI".into()),
        issuer_id: Some(14),
        market_view: Some("U".into()),
    })
    .request(&c);
    assert_eq!(r.path, "/instruments/16099051/leverages?currency=SEK&instrument_type=MINI&issuer_id=14&market_view=U");
    let r = instruments::Cmd::LeverageFilters(InstrumentArg { instrument_id: 7 }).request(&c);
    assert_eq!(r.path, "/instruments/7/leverages/filters");
    assert_eq!(instruments::Cmd::Trades(InstrumentArg { instrument_id: 7 }).request(&c).path, "/instruments/7/trades");
}

fn list_args() -> ListSearchArgs {
    ListSearchArgs {
        apply_filters: Some("a=b".into()),
        free_text_search: None,
        limit: Some(25),
        offset: None,
        sort_attribute: Some("name".into()),
        sort_order: None,
    }
}

#[test]
fn make_list_search_query_borrows_the_arguments() {
    let a = list_args();
    let q = make_list_search_query(&a);
    assert_eq!(build_list_search_query(&q), "apply_filters=a%3Db&limit=25&sort_attribute=name");
}

#[test]
fn instrument_search_commands_request_their_paths() {
    let c = client();
    let r = instrument_search::Cmd::Attributes(AttributesArgs {
        apply_filters: None,
        attribute_group: vec!["PRICE_INFO".into()],
        entity_type: Some("STOCKLIST".into()),
        expand: vec![],
        minmax: vec!["price".into()],
        only_filterable: None,
        only_returnable: None,
        only_sortable: Some(true),
    })
    .request(&c);
    assert_eq!(
        r.path,
        "/instrument_search/attributes?entity_type=STOCKLIST&only_sortable=true&attribute_group=PRICE_INFO&minmax=price"
    );
    let r = instrument_search::Cmd::Stocklist(StocklistArgs {
        apply_filters: None,
        attribute_groups: vec![],
        attributes: vec!["name".into()],
        free_text_search: Some("ericsson".into()),
        limit: None,
        offset: Some(10),
        sort_attribute: None,
        sort_order: Some("asc".into()),
    })
    .request(&c);
    assert_eq!(
        r.path,
        "/instrument_search/query/stocklist?free_text_search=ericsson&offset=10&sort_order=asc&attributes=name"
    );
    let r = instrument_search::Cmd::BullBearList(list_args()).request(&c);
    assert_eq!(r.path, "/instrument_search/query/bullbearlist?apply_filters=a%3Db&limit=25&sort_attribute=name");
    assert_eq!(r.blank_body, BlankBody::EmptyResult);
    let r = instrument_search::Cmd::MiniFutureList(list_args()).request(&c);
    assert_eq!(r.blank_body, BlankBody::Decode);
    let r = instrument_search::Cmd::OptionListPairs(OptionListPairsArgs {
        currency: "SEK".into(),
        expire_date: 1735689600000,
        underlying_symbol: "ERIC B".into(),
    })
    .request(&c);
    assert_eq!(
        r.path,
        "/instrument_search/query/optionlist/pairs?currency=SEK&expire_date=1735689600000&underlying_symbol=ERIC+B"
    );
}

#[test]
fn search_command_repeats_groups() {
    let c = client();
    let r = main_search::Cmd::Search(SearchArgs {
        query: "ericsson b".into(),
        instrument_group: Some(vec!["EQUITY".into(), "ETF".into()]),
        limit: None,
        offset: Some(5),
        search_space: Some("ALL".into()),
    })
    .request(&c);
    assert_eq!(r.method, Method::Get);
    assert_eq!(r.path, "/main_search?query=ericsson+b&instrument_group=EQUITY&instrument_group=ETF&offset=5&search_space=ALL");
    assert_eq!(c.url(&r.path), "https://public.nordnet.se/api/2/main_search?query=ericsson+b&instrument_group=EQUITY&instrument_group=ETF&offset=5&search_space=ALL");
}

#[test]
fn tradables_commands_parse_the_key_first() {
    let c = client();
    let r = tradables::Cmd::Info(KeyArgs { key: "11:101".into() }).request(&c).unwrap();
    assert_eq!(r.path, "/tradables/info/11:101");
    let r = tradables::Cmd::Trades(TradableTradesArgs { key: "+011:101".into(), count: Some("25".into()) })
        .request(&c)
        .unwrap();
    assert_eq!(r.path, "/tradables/trades/11:101?count=25");
    let r = tradables::Cmd::Suitability(KeyArgs { key: "11101".into() }).request(&c);
    assert_eq!(r.err(), Some(TradableKeyError::MissingSeparator("11101".into())));
}

#[test]
fn orders_list_command() {
    let c = client();
    let r = orders_read::Cmd::List(orders_read::ListArgs { accid: 12345, deleted: Some(false) }).request(&c);
    assert_eq!(r.path, "/accounts/12345/orders?deleted=false");
    assert_eq!(r.blank_body, BlankBody::EmptyResult);
}
