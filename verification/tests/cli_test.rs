use nordnet::cli::config::{Config, ConfigError, FileConfig, DEFAULT_BASE_URL, DEFAULT_SERVICE};
use nordnet::cli::cmd::login::{start_login_request, SessionArgs};
use nordnet::cli::cmd::orders_write::{
    modify_order_request, parse_decimal_opt, place_order_request, ModifyArgs, OrderArgsError, PlaceArgs,
};
use nordnet::cli::output::{apply_fields, filter_object, parse_fields, select_fields, JsonValue, OutputError};
use nordnet::cli::session::{
    resolve_session, session_status, SessionStatus, StoredSession, Timestamp, NANOS_PER_SECOND,
};
use nordnet::cli::tradables::{parse_tradable_key, TradableKeyError};
use nordnet::models::login::{ApiKeyLoginResponse, Feed};
use nordnet::models::orders::{OrderActivationCondition, OrderSide, OrderType};

fn env(pairs: &[(&str, &str)]) -> Vec<(String, String)> {
    pairs.iter().map(|(k, v)| (k.to_string(), v.to_string())).collect()
}

#[test]
fn defaults_have_sane_values() {
    let c = Config::defaults();
    assert_eq!(c.base_url, DEFAULT_BASE_URL);
    assert_eq!(c.service, DEFAULT_SERVICE);
    assert!(c.api_key.is_none());
}

#[test]
fn env_overrides_default() {
    let env = vec![
        ("NORDNET_API_KEY".to_string(), "k".to_string()),
        ("NORDNET_BASE_URL".to_string(), "http://x".to_string()),
        ("NORDNET_DEFAULT_ACCOUNT".to_string(), "42".to_string()),
    ];
    let c = Config::load_from(None, &env).unwrap();
    assert_eq!(c.api_key.as_deref(), Some("k"));
    assert_eq!(c.base_url, "http://x");
    assert_eq!(c.default_account, Some(42));
}

#[test]
fn invalid_default_account_errors() {
    let env = vec![("NORDNET_DEFAULT_ACCOUNT".to_string(), "not-an-int".to_string())];
    let r = Config::load_from(None, &env);
    assert!(matches!(r, Err(ConfigError::Invalid("NORDNET_DEFAULT_ACCOUNT", _))));
}

#[test]
fn file_then_env_layered() {
    let file = FileConfig {
        api_key: Some("from-file".to_string()),
        service: Some("FILESERVICE".to_string()),
        default_account: Some(7),
        ..FileConfig::default()
    };
    let env = vec![("NORDNET_API_KEY".to_string(), "from-env".to_string())];
    let c = Config::load_from(Some(file), &env).unwrap();
    assert_eq!(c.api_key.as_deref(), Some("from-env"));
    assert_eq!(c.service, "FILESERVICE");
    assert_eq!(c.default_account, Some(7));
    assert_eq!(c.base_url, DEFAULT_BASE_URL);
}

#[test]
fn first_variable_of_a_name_wins_and_sign_is_accepted() {
    let e = env(&[
        ("NORDNET_DEFAULT_ACCOUNT", "+15"),
        ("NORDNET_DEFAULT_ACCOUNT", "x"),
        ("NORDNET_KEY_PATH", "/k.pem"),
        ("NORDNET_SERVICE", "S"),
    ]);
    let c = Config::load_from(None, &e).unwrap();
    assert_eq!(c.default_account, Some(15));
    assert_eq!(c.key_path.as_deref(), Some("/k.pem"));
    assert_eq!(c.service, "S");
}

#[test]
fn invalid_account_variable_beats_valid_file_value() {
    let file = FileConfig { default_account: Some(1), ..FileConfig::default() };
    match Config::load_from(Some(file), &env(&[("NORDNET_DEFAULT_ACCOUNT", "99999999999999999999")])) {
        Err(ConfigError::Invalid(name, value)) => {
            assert_eq!(name, "NORDNET_DEFAULT_ACCOUNT");
            assert_eq!(value, "99999999999999999999");
        }
        other => panic!("unexpected {other:?}"),
    }
}

#[test]
fn require_fields() {
    let c = Config::defaults();
    assert!(matches!(c.require_api_key(), Err(ConfigError::Missing("api_key"))));
    assert!(matches!(c.require_key_path(), Err(ConfigError::Missing("key_path"))));
    let c = Config::load_from(None, &env(&[("NORDNET_API_KEY", "k"), ("NORDNET_KEY_PATH", "/p")])).unwrap();
    assert_eq!(c.require_api_key().unwrap(), "k");
    assert_eq!(c.require_key_path().unwrap(), "/p");
}

#[test]
fn parse_fields_handles_whitespace_and_empties() {
    assert_eq!(parse_fields(""), Vec::<String>::new());
    assert_eq!(
        parse_fields(" id , name ,, value"),
        vec!["id".to_string(), "name".to_string(), "value".to_string()]
    );
}

#[test]
fn parse_fields_reads_back_joined_fields() {
    let fields = vec!["id".to_string(), "name".to_string(), "qty".to_string()];
    assert_eq!(parse_fields(&fields.join(",")), fields);
    assert_eq!(parse_fields(",,\u{a0},"), Vec::<String>::new());
}

fn s(v: &str) -> String {
    v.to_string()
}

fn row(id: i64, name: &str, secret: &str) -> JsonValue {
    JsonValue::Object(vec![
        (s("id"), JsonValue::Number(id.to_string())),
        (s("name"), JsonValue::String(s(name))),
        (s("secret"), JsonValue::String(s(secret))),
    ])
}

fn keys(v: &JsonValue) -> Vec<String> {
    match v {
        JsonValue::Object(es) => es.iter().map(|(k, _)| k.clone()).collect(),
        other => panic!("not an object: {other:?}"),
    }
}

#[test]
fn no_fields_emits_full_object() {
    let out = select_fields(row(1, "n", "s"), &[]).unwrap();
    assert_eq!(keys(&out), vec!["id", "name", "secret"]);
}

#[test]
fn fields_filter_restricts_object() {
    let out = select_fields(row(1, "n", "s"), &[s("id"), s("name")]).unwrap();
    assert_eq!(keys(&out), vec!["id", "name"]);
}

#[test]
fn fields_filter_applies_per_array_element() {
    let rows = JsonValue::Array(vec![row(1, "a", "x"), row(2, "b", "y"), JsonValue::Bool(true)]);
    match apply_fields(rows, &[s("name")]).unwrap() {
        JsonValue::Array(items) => {
            assert_eq!(items.len(), 3);
            assert_eq!(keys(&items[0]), vec!["name"]);
            match &items[1] {
                JsonValue::Object(es) => assert!(matches!(&es[0].1, JsonValue::String(v) if v == "b")),
                other => panic!("unexpected {other:?}"),
            }
            assert!(matches!(items[2], JsonValue::Bool(true)));
        }
        other => panic!("unexpected {other:?}"),
    }
}

#[test]
fn fields_on_scalar_errors() {
    let r = apply_fields(JsonValue::Number(s("42")), &[s("x")]);
    assert!(matches!(r, Err(OutputError::FilterInapplicable(_))));
    match apply_fields(JsonValue::Null, &[s("a"), s("b")]) {
        Err(OutputError::FilterInapplicable(f)) => assert_eq!(f, vec![s("a"), s("b")]),
        other => panic!("unexpected {other:?}"),
    }
}

#[test]
fn filter_follows_requested_order_once_each() {
    let entries = vec![
        (s("a"), JsonValue::Number(s("1"))),
        (s("b"), JsonValue::Number(s("2"))),
        (s("c"), JsonValue::Number(s("3"))),
    ];
    let out = filter_object(entries, &[s("c"), s("zz"), s("a"), s("c")]);
    let ks: Vec<String> = out.iter().map(|(k, _)| k.clone()).collect();
    assert_eq!(ks, vec!["c", "a"]);
    assert!(matches!(&out[0].1, JsonValue::Number(n) if n == "3"));
}

#[test]
fn filtering_twice_is_filtering_once() {
    let fields = [s("name"), s("id")];
    let once = select_fields(row(7, "n", "s"), &fields).unwrap();
    let twice = select_fields(select_fields(row(7, "n", "s"), &fields).unwrap(), &fields).unwrap();
    assert_eq!(keys(&once), keys(&twice));
    assert_eq!(keys(&once), vec!["name", "id"]);
}

fn at(seconds: i128, offset_seconds: i32) -> Timestamp {
    Timestamp { unix_nanos: seconds * NANOS_PER_SECOND, offset_seconds }
}

#[test]
fn expires_at_adds_expires_in_seconds() {
    let acquired = at(1_700_000_000, 0);
    let s = StoredSession { session_key: "x".into(), expires_in: 90, acquired_at: acquired };
    assert_eq!(s.expires_at(), at(1_700_000_090, 0));
}

#[test]
fn expiry_keeps_the_offset_and_refuses_leaving_the_calendar() {
    let t = at(1_700_000_000, 3600);
    assert_eq!(t.checked_add_seconds(-60), Some(at(1_699_999_940, 3600)));
    let end = Timestamp { unix_nanos: 253_402_300_799 * NANOS_PER_SECOND, offset_seconds: 0 };
    assert_eq!(end.checked_add_seconds(1), None);
    assert_eq!(end.checked_add_seconds(0), Some(end));
}

#[test]
fn status_reports_remaining_whole_seconds() {
    let stored = StoredSession { session_key: "k".into(), expires_in: 600, acquired_at: at(1_000, 0) };
    let now = Timestamp { unix_nanos: 1_100 * NANOS_PER_SECOND + 500_000_000, offset_seconds: 7200 };
    match session_status(Some(&stored), now) {
        SessionStatus::LoggedIn { acquired_at, expires_in, expires_at, seconds_remaining } => {
            assert_eq!(acquired_at, at(1_000, 0));
            assert_eq!(expires_in, 600);
            assert_eq!(expires_at, at(1_600, 0));
            assert_eq!(seconds_remaining, 499);
        }
        other => panic!("unexpected {other:?}"),
    }
    let late = Timestamp { unix_nanos: 1_700 * NANOS_PER_SECOND + 500_000_000, offset_seconds: 0 };
    match session_status(Some(&stored), late) {
        SessionStatus::LoggedIn { seconds_remaining, .. } => assert_eq!(seconds_remaining, -100),
        other => panic!("unexpected {other:?}"),
    }
    assert_eq!(session_status(None, now), SessionStatus::NotLoggedIn);
}

#[test]
fn refresh_keeps_key_and_lifetime() {
    let stored = StoredSession { session_key: "k".into(), expires_in: 600, acquired_at: at(1_000, 0) };
    let r = stored.clone().refreshed(at(2_000, 0));
    assert_eq!(r.session_key, "k");
    assert_eq!(r.expires_in, 600);
    assert_eq!(r.acquired_at, at(2_000, 0));
    let api = r.to_api_session();
    assert_eq!(api.session_key, "k");
    assert_eq!(api.expires_in, 600);
}

#[test]
fn login_response_becomes_stored_session() {
    let feed = Feed { encrypted: true, hostname: "h".into(), port: 443 };
    let resp = ApiKeyLoginResponse {
        expires_in: 1800,
        private_feed: feed.clone(),
        public_feed: feed,
        session_key: "S".into(),
    };
    let st = StoredSession::from_login(&resp, at(5, 0));
    assert_eq!(st.session_key, "S");
    assert_eq!(st.expires_in, 1800);
    assert_eq!(st.acquired_at, at(5, 0));
    let session = resp.to_session();
    assert_eq!(session.basic_auth_header(), "Basic UzpT");
}

#[test]
fn session_override_beats_stored_session() {
    let stored = StoredSession { session_key: "disk".into(), expires_in: 60, acquired_at: at(0, 0) };
    let s = resolve_session(Some("flag"), Some(&stored)).unwrap();
    assert_eq!(s.session_key, "flag");
    assert_eq!(s.expires_in, 0);
    let s = resolve_session(None, Some(&stored)).unwrap();
    assert_eq!(s.session_key, "disk");
    assert_eq!(s.expires_in, 60);
    assert!(resolve_session(None, None).is_none());
}

#[test]
fn tradable_key_parses_market_and_identifier() {
    let k = parse_tradable_key("11:101").unwrap();
    assert_eq!(k.market_id.0, 11);
    assert_eq!(k.identifier.0, "101");
    let k = parse_tradable_key("-3:a:b").unwrap();
    assert_eq!(k.market_id.0, -3);
    assert_eq!(k.identifier.0, "a:b");
    assert_eq!(parse_tradable_key("11:").unwrap().identifier.0, "");
}

#[test]
fn tradable_key_errors() {
    assert_eq!(parse_tradable_key("11101"), Err(TradableKeyError::MissingSeparator("11101".into())));
    assert_eq!(parse_tradable_key("x:101"), Err(TradableKeyError::InvalidMarketId("x:101".into())));
    assert_eq!(parse_tradable_key(":101"), Err(TradableKeyError::InvalidMarketId(":101".into())));
}

#[test]
fn tradable_key_round_trips_through_its_text() {
    let k = nordnet::models::tradables::TradableKey::new(
        nordnet::ids::MarketId(-42),
        nordnet::ids::TradableId("X:Y".into()),
    );
    assert_eq!(parse_tradable_key(&k.to_string()), Ok(k));
}

#[test]
fn order_enums_parse_their_wire_names() {
    assert_eq!(OrderSide::parse("BUY"), Some(OrderSide::Buy));
    assert_eq!(OrderSide::parse("buy"), None);
    assert_eq!(OrderType::parse("STOP_TRAILING"), Some(OrderType::StopTrailing));
    assert_eq!(OrderType::parse("FAK").unwrap().as_str(), "FAK");
    assert_eq!(OrderType::parse("MARKET"), None);
    assert_eq!(
        OrderActivationCondition::parse("OCO_STOP_ACTPRICE"),
        Some(OrderActivationCondition::OcoStopActprice)
    );
    assert_eq!(OrderActivationCondition::StopActpricePerc.as_str(), "STOP_ACTPRICE_PERC");
    assert_eq!(OrderSide::Sell.as_str(), "SELL");
}

#[test]
fn decimal_arguments_are_read_with_rust_decimal() {
    let d = parse_decimal_opt(&Some("101.50".into())).unwrap().unwrap();
    assert_eq!(d.to_string(), "101.50");
    assert!(parse_decimal_opt(&None).unwrap().is_none());
    match parse_decimal_opt(&Some("abc".into())) {
        Err(OrderArgsError::InvalidDecimal { input, .. }) => assert_eq!(input, "abc"),
        other => panic!("unexpected {other:?}"),
    }
}

fn place_args() -> PlaceArgs {
    PlaceArgs {
        accid: 1,
        market_id: 11,
        side: OrderSide::Buy,
        volume: 10,
        activation_condition: None,
        currency: Some("SEK".into()),
        extended_hours: None,
        identifier: Some("101".into()),
        open_volume: None,
        order_type: Some(OrderType::Limit),
        price: Some("101.50".into()),
        reference: None,
        target_value: None,
        trigger_condition: None,
        trigger_value: None,
        valid_until: None,
    }
}

#[test]
fn place_order_request_maps_arguments() {
    let q = place_order_request(place_args()).unwrap();
    assert_eq!(q.market_id.0, 11);
    assert_eq!(q.side, OrderSide::Buy);
    assert_eq!(q.volume, 10);
    assert_eq!(q.currency.as_ref().unwrap().0, "SEK");
    assert_eq!(q.identifier.as_ref().unwrap().0, "101");
    assert_eq!(q.order_type, Some(OrderType::Limit));
    assert_eq!(q.price.unwrap().to_string(), "101.50");
    assert!(q.target_value.is_none());
}

#[test]
fn place_order_request_reports_first_bad_decimal() {
    let mut a = place_args();
    a.target_value = Some("nope".into());
    a.trigger_value = Some("also-bad".into());
    match place_order_request(a) {
        Err(OrderArgsError::InvalidDecimal { input, .. }) => assert_eq!(input, "nope"),
        other => panic!("unexpected {other:?}"),
    }
}

#[test]
fn modify_order_request_maps_arguments() {
    let a = ModifyArgs {
        accid: 1,
        order_id: 2,
        price: Some("102.00".into()),
        currency: Some("SEK".into()),
        volume: Some(5),
        open_volume: None,
    };
    let q = modify_order_request(a).unwrap();
    assert_eq!(q.price.unwrap().to_string(), "102.00");
    assert_eq!(q.volume, Some(5));
    let bad = ModifyArgs { accid: 1, order_id: 2, price: Some("12..3".into()), currency: None, volume: None, open_volume: None };
    assert!(matches!(modify_order_request(bad), Err(OrderArgsError::InvalidDecimal { .. })));
}

#[test]
fn login_requests_need_an_api_key() {
    let c = Config::defaults();
    assert!(matches!(start_login_request(&c), Err(ConfigError::Missing("api_key"))));
    let c = Config::load_from(None, &env(&[("NORDNET_API_KEY", "key-1")])).unwrap();
    assert_eq!(start_login_request(&c).unwrap().api_key, "key-1");
}

#[test]
fn session_key_argument_carries_no_lifetime() {
    let s = SessionArgs { session_key: "abc".into() }.session();
    assert_eq!(s.session_key, "abc");
    assert_eq!(s.expires_in, 0);
}

#[test]
fn status_right_after_refresh_reports_full_lifetime() {
    let stored = StoredSession { session_key: "k".into(), expires_in: 1800, acquired_at: at(10, 0) };
    let now = Timestamp { unix_nanos: 5_000 * NANOS_PER_SECOND + 123, offset_seconds: -3600 };
    let refreshed = stored.refreshed(now);
    match session_status(Some(&refreshed), now) {
        SessionStatus::LoggedIn { seconds_remaining, .. } => assert_eq!(seconds_remaining, 1800),
        other => panic!("unexpected {other:?}"),
    }
}
