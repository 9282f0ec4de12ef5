use base64::Engine;
use nordnet::auth::Session;
use nordnet::models::login::{ApiKeyLoginResponse, Feed};
use nordnet::client::{BlankBody, Body, Client, Disposition, Method, response_disposition};
use nordnet::error::Error;
use nordnet::ids::{AccountId, InstrumentId, IssuerId, MarketId, NewsId, OrderId, TickSizeId, TradableId};
use nordnet::pagination::Page;
use nordnet::text::{i64_to_string, parse_i64};

#[test]
fn distinct_newtypes_do_not_unify() {
    fn _take_account(_: AccountId) {}
    fn _take_order(_: OrderId) {}
    _take_account(AccountId(1));
    _take_order(OrderId(1));
}

#[test]
fn ids_display_as_their_value() {
    assert_eq!(AccountId(42).to_string(), "42");
    assert_eq!(OrderId(-7).to_string(), "-7");
    assert_eq!(InstrumentId(16099051).to_string(), "16099051");
    assert_eq!(MarketId(11).to_string(), "11");
    assert_eq!(TickSizeId(0).to_string(), "0");
    assert_eq!(IssuerId(i64::MIN).to_string(), "-9223372036854775808");
    assert_eq!(NewsId(i64::MAX).to_string(), "9223372036854775807");
    assert_eq!(TradableId("ABC123".to_owned()).to_string(), "ABC123");
}

#[test]
fn ids_convert_both_ways() {
    let a: AccountId = 5i64.into();
    assert_eq!(a, AccountId(5));
    let n: i64 = MarketId(11).into();
    assert_eq!(n, 11);
}

#[test]
fn page_basics() {
    let p = Page::new(vec![1, 2, 3], 0, 10);
    assert_eq!(p.len(), 3);
    assert!(!p.is_empty());
    assert!(p.is_probably_last());
    assert_eq!(p.next_offset(), 3);
}

#[test]
fn full_page_not_probably_last() {
    let p = Page::new(vec![1, 2, 3], 0, 3);
    assert!(!p.is_probably_last());
    assert_eq!(p.next_offset(), 3);
}

#[test]
fn iter() {
    let p = Page::new(vec!["a", "b"], 5, 10);
    let v: Vec<_> = p.into_iter().collect();
    assert_eq!(v, vec!["a", "b"]);
}

#[test]
fn next_offset_continues_after_window() {
    let p: Page<i32> = Page::new(vec![], 40, 20);
    assert!(p.is_empty());
    assert!(p.is_probably_last());
    assert_eq!(p.next_offset(), 40);
}

#[test]
fn maps_documented_statuses() {
    assert!(matches!(Error::from_status(400, "x".into()), Error::BadRequest { .. }));
    assert!(matches!(Error::from_status(401, "x".into()), Error::Unauthorized { .. }));
    assert!(matches!(Error::from_status(403, "x".into()), Error::Forbidden { .. }));
    assert!(matches!(Error::from_status(429, "x".into()), Error::TooManyRequests { .. }));
    assert!(matches!(Error::from_status(503, "x".into()), Error::ServiceUnavailable { .. }));
    assert!(matches!(Error::from_status(418, "x".into()), Error::UnexpectedStatus { status: 418, .. }));
}

#[test]
fn error_keeps_the_body() {
    match Error::from_status(400, "bad input".into()) {
        Error::BadRequest { body } => assert_eq!(body, "bad input"),
        other => panic!("unexpected {other:?}"),
    }
    match Error::from_status(500, "oops".into()) {
        Error::UnexpectedStatus { status, body } => {
            assert_eq!(status, 500);
            assert_eq!(body, "oops");
        }
        other => panic!("unexpected {other:?}"),
    }
}

#[test]
fn url_handles_leading_slash() {
    let c = Client::new("http://example.com/api/2");
    assert_eq!(c.url("/accounts"), "http://example.com/api/2/accounts");
    assert_eq!(c.url("accounts"), "http://example.com/api/2/accounts");
}

#[test]
fn url_strips_trailing_slash_on_base() {
    let c = Client::new("http://example.com/api/2/");
    assert_eq!(c.url("/x"), "http://example.com/api/2/x");
}

#[test]
fn base_url_strips_every_trailing_slash() {
    let c = Client::new("http://example.com///");
    assert_eq!(c.base_url(), "http://example.com");
    assert_eq!(c.url(""), "http://example.com/");
}

#[test]
fn no_session_no_auth_header() {
    let c = Client::new("http://x");
    assert!(c.auth_header().is_none());
    assert!(c.session().is_none());
}

#[test]
fn with_session_sets_basic_auth() {
    let c = Client::new("http://x").with_session(Session { session_key: "abc".into(), expires_in: 60 });
    assert_eq!(c.auth_header().unwrap(), "Basic YWJjOmFiYw==");
    assert_eq!(c.session().unwrap().expires_in, 60);
}

#[test]
fn session_basic_auth_header_format() {
    let s = Session { session_key: "abc".to_owned(), expires_in: 60 };
    assert_eq!(s.basic_auth_header(), "Basic YWJjOmFiYw==");
}

#[test]
fn basic_auth_header_pads_and_encodes_every_length() {
    let s = Session { session_key: "ab".to_owned(), expires_in: 0 };
    assert_eq!(s.basic_auth_header(), "Basic YWI6YWI=");
    let s = Session { session_key: "".to_owned(), expires_in: 0 };
    assert_eq!(s.basic_auth_header(), "Basic Og==");
    let s = Session { session_key: "åäö".to_owned(), expires_in: 0 };
    assert_eq!(s.basic_auth_header(), "Basic w6XDpMO2OsOlw6TDtg==");
}

#[test]
fn success_is_decoded() {
    assert!(matches!(response_disposition(200, "[]".into(), BlankBody::Decode), Disposition::Decode));
    assert!(matches!(response_disposition(299, "{}".into(), BlankBody::EmptyResult), Disposition::Decode));
}

#[test]
fn blank_success_is_empty_only_where_documented() {
    assert!(matches!(response_disposition(204, "".into(), BlankBody::EmptyResult), Disposition::EmptyResult));
    assert!(matches!(response_disposition(200, " \n\t".into(), BlankBody::EmptyResult), Disposition::EmptyResult));
    assert!(matches!(response_disposition(204, "".into(), BlankBody::Decode), Disposition::Decode));
}

#[test]
fn failure_status_fails_with_its_error() {
    match response_disposition(429, "slow down".into(), BlankBody::EmptyResult) {
        Disposition::Fail(Error::TooManyRequests { body }) => assert_eq!(body, "slow down"),
        other => panic!("unexpected {other:?}"),
    }
    assert!(matches!(
        response_disposition(404, "".into(), BlankBody::EmptyResult),
        Disposition::Fail(Error::UnexpectedStatus { status: 404, .. })
    ));
    assert!(matches!(
        response_disposition(199, "".into(), BlankBody::Decode),
        Disposition::Fail(Error::UnexpectedStatus { status: 199, .. })
    ));
}

#[test]
fn request_constructors_carry_method_path_and_body() {
    let c = Client::new("http://x");
    let r = c.get("/a");
    assert_eq!(r.method, Method::Get);
    assert_eq!(r.path, "/a");
    assert_eq!(r.body, Body::Empty);
    let r = c.post("/b", 5u8);
    assert_eq!(r.method, Method::Post);
    assert_eq!(r.body, Body::Json(5u8));
    let r = c.put_form("/c", "x");
    assert_eq!(r.method, Method::Put);
    assert_eq!(r.body, Body::Form("x"));
    let r = c.delete("/d").empty_on_blank();
    assert_eq!(r.method, Method::Delete);
    assert_eq!(r.blank_body, BlankBody::EmptyResult);
}

#[test]
fn decimal_text_reads_back() {
    for n in [0i64, 7, -7, 42, i64::MAX, i64::MIN] {
        assert_eq!(parse_i64(&i64_to_string(n)), Some(n));
    }
    assert_eq!(parse_i64("9223372036854775808"), None);
    assert_eq!(parse_i64("-"), None);
    assert_eq!(parse_i64(" 1"), None);
    assert_eq!(parse_i64("+0"), Some(0));
}

#[test]
fn api_key_login_response_builds_session_with_matching_basic_auth() {
    let feed = |host: &str| Feed { encrypted: true, hostname: host.to_owned(), port: 443 };
    let response = ApiKeyLoginResponse {
        expires_in: 1800,
        private_feed: feed("priv.next.nordnet.se"),
        public_feed: feed("pub.next.nordnet.se"),
        session_key: "15a6c4db-05b9-481c-b94a-ccffed83e693".to_owned(),
    };
    let session = response.to_session();
    assert_eq!(session.session_key, response.session_key);
    assert_eq!(session.expires_in, response.expires_in);
    let expected_raw = format!("{0}:{0}", response.session_key);
    let expected = format!("Basic {}", base64::engine::general_purpose::STANDARD.encode(expected_raw.as_bytes()));
    assert_eq!(session.basic_auth_header(), expected);
}

#[test]
fn basic_auth_header_decodes_to_key_colon_key() {
    for key in ["abc", "", "x", "åäö-123", "15a6c4db-05b9-481c-b94a-ccffed83e693"] {
        let header = Session { session_key: key.to_owned(), expires_in: 0 }.basic_auth_header();
        let encoded = header.strip_prefix("Basic ").unwrap();
        let decoded = base64::engine::general_purpose::STANDARD.decode(encoded).unwrap();
        assert_eq!(decoded, format!("{key}:{key}").into_bytes());
    }
}

#[test]
fn basic_auth_header_is_always_header_text() {
    for key in ["\n\t\u{0}", "ключ", "a b"] {
        let header = Session { session_key: key.to_owned(), expires_in: 0 }.basic_auth_header();
        assert!(header.chars().all(|c| (' '..='~').contains(&c)), "{header:?}");
    }
}
