//! The Nordnet API client: base-URL composition, the `Authorization`
//! header, the request that each operation sends, and the single rule that
//! turns an HTTP status and body into a result.
//!
//! Sending is the caller's part: a request value says the method, the path,
//! how the body is encoded and what a blank 2xx body means, and
//! [`response_disposition`] says what to make of the reply. Non-2xx
//! responses (429 and 503 included) surface as the matching [`Error`]
//! variant; there is no hidden retry, because `POST`/`PUT` on orders is not
//! idempotent.

use vstd::prelude::*;
use crate::auth::{Session, basic_auth_value};
use crate::error::{Error, status_error};
use crate::text::{push_str, trim, trimmed, chars_of};

verus! {

/// HTTP method of a request.
#[derive(Debug, Clone, Copy, PartialEq, Eq, Structural)]
pub enum Method {
    Get,
    Post,
    Put,
    Delete,
}

/// Request body and how it is encoded on the wire.
#[derive(Debug, Clone, PartialEq, Eq)]
pub enum Body<B> {
    /// No body and no `Content-Type` header.
    Empty,
    /// `application/json`.
    Json(B),
    /// `application/x-www-form-urlencoded`.
    Form(B),
}

/// What a 2xx response with a blank body means for an operation.
#[derive(Debug, Clone, Copy, PartialEq, Eq, Structural)]
pub enum BlankBody {
    /// The body is decoded like any other, so a blank one is a decode error.
    Decode,
    /// A blank body (HTTP 204 No Content) is an empty result.
    EmptyResult,
}

/// One request to the API.
#[derive(Debug, Clone, PartialEq, Eq)]
pub struct ApiRequest<B> {
    pub method: Method,
    /// Path below the base URL, with the query string if there is one.
    pub path: String,
    pub body: Body<B>,
    pub blank_body: BlankBody,
}

/// What to do with an HTTP response.
#[derive(Debug)]
pub enum Disposition {
    /// Decode the body as the operation's result type.
    Decode,
    /// The result is the operation's empty value (empty list or record).
    EmptyResult,
    /// The request failed.
    Fail(Error),
}

/// `true` for 2xx statuses (`StatusCode::is_success`).
pub open spec fn is_success(status: u16) -> bool {
    200 <= status && status <= 299
}

/// The rule of [`response_disposition`].
pub open spec fn disposition_spec(status: u16, body: String, blank: BlankBody) -> Disposition {
    if is_success(status) {
        if blank == BlankBody::EmptyResult && trimmed(body@).len() == 0 {
            Disposition::EmptyResult
        } else {
            Disposition::Decode
        }
    } else {
        Disposition::Fail(status_error(status, body))
    }
}

/// The single response-parsing rule shared by every operation: a non-2xx
/// status fails with the matching error and keeps the body; a 2xx reply is
/// decoded, except that a blank body (204 No Content) is an empty result for
/// the operations that document it.
pub fn response_disposition(status: u16, body: String, blank: BlankBody) -> (d: Disposition)
    ensures
        d == disposition_spec(status, body, blank),
{
    if 200 <= status && status <= 299 {
        let blank_text = match blank {
            BlankBody::EmptyResult => trim(body.as_str()).as_str().is_empty(),
            BlankBody::Decode => false,
        };
        if blank_text {
            Disposition::EmptyResult
        } else {
            Disposition::Decode
        }
    } else {
        Disposition::Fail(Error::from_status(status, body))
    }
}

/// A request with no body for `path`, of method `m`.
pub open spec fn is_bodiless(r: ApiRequest<()>, m: Method, path: Seq<char>, blank: BlankBody) -> bool {
    &&& r.method == m
    &&& r.path@ == path
    &&& r.body == Body::<()>::Empty
    &&& r.blank_body == blank
}

/// A `GET` of `path`.
pub open spec fn is_get(r: ApiRequest<()>, path: Seq<char>, blank: BlankBody) -> bool {
    is_bodiless(r, Method::Get, path, blank)
}

/// `s` without its trailing `/` characters (`trim_end_matches('/')`).
pub open spec fn strip_trailing_slashes(s: Seq<char>) -> Seq<char>
    decreases s.len(),
{
    if s.len() > 0 && s.last() == '/' {
        strip_trailing_slashes(s.drop_last())
    } else {
        s
    }
}

/// `{base}{path}` when `path` starts with `/`, else `{base}/{path}`.
pub open spec fn join_url(base: Seq<char>, path: Seq<char>) -> Seq<char> {
    if path.len() > 0 && path[0] == '/' {
        base + path
    } else {
        base + seq!['/'] + path
    }
}

/// Typed client for the Nordnet API: a base URL and an optional session.
#[derive(Debug, Clone)]
pub struct Client {
    base_url: String,
    session: Option<Session>,
}

impl Client {
    /// The base URL, without trailing `/`.
    pub closed spec fn base(&self) -> Seq<char> {
        self.base_url@
    }

    /// The attached session, if any.
    pub closed spec fn active_session(&self) -> Option<Session> {
        self.session
    }

    /// A client for `base_url` (e.g. `https://public.nordnet.se/api/2`),
    /// used verbatim except that trailing slashes are stripped.
    pub fn new(base_url: &str) -> (c: Client)
        ensures
            c.base() == strip_trailing_slashes(base_url@),
            c.active_session() is None,
    {
        let chars = chars_of(base_url);
        let mut n = chars.len();
        assert(chars@.take(n as int) =~= base_url@);
        while n > 0 && chars[n - 1] == '/'
            invariant
                n <= chars.len(),
                chars@ == base_url@,
                strip_trailing_slashes(chars@.take(n as int)) == strip_trailing_slashes(base_url@),
            decreases n,
        {
            assert(chars@.take(n as int).drop_last() =~= chars@.take(n - 1));
            n = n - 1;
        }
        let mut base = String::new();
        let mut i: usize = 0;
        while i < n
            invariant
                i <= n <= chars.len(),
                base@ == chars@.take(i as int),
            decreases n - i,
        {
            crate::text::push_char(&mut base, chars[i]);
            i = i + 1;
            assert(chars@.take(i as int) =~= chars@.take(i - 1).push(chars@[i - 1]));
        }
        assert(strip_trailing_slashes(chars@.take(n as int)) == chars@.take(n as int));
        Client { base_url: base, session: None }
    }

    /// Attach (or replace) the session used for the `Authorization` header.
    pub fn with_session(self, session: Session) -> (c: Client)
        ensures
            c.base() == self.base(),
            c.active_session() == Some(session),
    {
        Client { base_url: self.base_url, session: Some(session) }
    }

    /// The attached session, if any.
    pub fn session(&self) -> (s: Option<&Session>)
        ensures
            s matches Some(x) ==> self.active_session() == Some(*x),
            s is None ==> self.active_session() is None,
    {
        self.session.as_ref()
    }

    /// The base URL the client targets.
    pub fn base_url(&self) -> (s: &str)
        ensures
            s@ == self.base(),
    {
        self.base_url.as_str()
    }

    /// The full URL for `path`; a leading `/` on `path` is optional.
    pub fn url(&self, path: &str) -> (u: String)
        ensures
            u@ == join_url(self.base(), path@),
    {
        let mut u = self.base_url.clone();
        let chars = chars_of(path);
        if !(chars.len() > 0 && chars[0] == '/') {
            crate::text::push_char(&mut u, '/');
        }
        push_str(&mut u, path);
        assert(u@ =~= join_url(self.base(), path@));
        u
    }

    /// The `Authorization` header value, when a session is attached:
    /// `Basic <base64(key:key)>`.
    pub fn auth_header(&self) -> (h: Option<String>)
        ensures
            self.active_session() is None ==> h is None,
            self.active_session() matches Some(s) ==> (h matches Some(v) && v@ == basic_auth_value(
                s.session_key@,
            )),
    {
        match &self.session {
            Some(s) => Some(s.basic_auth_header()),
            None => None,
        }
    }

    /// `GET <base_url><path>`; the body is decoded as the result.
    pub fn get(&self, path: &str) -> (r: ApiRequest<()>)
        ensures
            r.method == Method::Get,
            r.path@ == path@,
            r.body == Body::<()>::Empty,
            r.blank_body == BlankBody::Decode,
    {
        ApiRequest {
            method: Method::Get,
            path: path.to_owned(),
            body: Body::Empty,
            blank_body: BlankBody::Decode,
        }
    }

    /// `POST` with a JSON body.
    pub fn post<B>(&self, path: &str, body: B) -> (r: ApiRequest<B>)
        ensures
            r.method == Method::Post,
            r.path@ == path@,
            r.body == Body::Json(body),
            r.blank_body == BlankBody::Decode,
    {
        ApiRequest {
            method: Method::Post,
            path: path.to_owned(),
            body: Body::Json(body),
            blank_body: BlankBody::Decode,
        }
    }

    /// `PUT` with a JSON body.
    pub fn put<B>(&self, path: &str, body: B) -> (r: ApiRequest<B>)
        ensures
            r.method == Method::Put,
            r.path@ == path@,
            r.body == Body::Json(body),
            r.blank_body == BlankBody::Decode,
    {
        ApiRequest {
            method: Method::Put,
            path: path.to_owned(),
            body: Body::Json(body),
            blank_body: BlankBody::Decode,
        }
    }

    /// `POST` with an `application/x-www-form-urlencoded` body, which the
    /// endpoints whose parameters are all form data require.
    pub fn post_form<B>(&self, path: &str, body: B) -> (r: ApiRequest<B>)
        ensures
            r.method == Method::Post,
            r.path@ == path@,
            r.body == Body::Form(body),
            r.blank_body == BlankBody::Decode,
    {
        ApiRequest {
            method: Method::Post,
            path: path.to_owned(),
            body: Body::Form(body),
            blank_body: BlankBody::Decode,
        }
    }

    /// `PUT` with an `application/x-www-form-urlencoded` body.
    pub fn put_form<B>(&self, path: &str, body: B) -> (r: ApiRequest<B>)
        ensures
            r.method == Method::Put,
            r.path@ == path@,
            r.body == Body::Form(body),
            r.blank_body == BlankBody::Decode,
    {
        ApiRequest {
            method: Method::Put,
            path: path.to_owned(),
            body: Body::Form(body),
            blank_body: BlankBody::Decode,
        }
    }

    /// `PUT` with no body and no `Content-Type` header.
    pub fn put_empty(&self, path: &str) -> (r: ApiRequest<()>)
        ensures
            r.method == Method::Put,
            r.path@ == path@,
            r.body == Body::<()>::Empty,
            r.blank_body == BlankBody::Decode,
    {
        ApiRequest {
            method: Method::Put,
            path: path.to_owned(),
            body: Body::Empty,
            blank_body: BlankBody::Decode,
        }
    }

    /// `DELETE <base_url><path>`.
    pub fn delete(&self, path: &str) -> (r: ApiRequest<()>)
        ensures
            r.method == Method::Delete,
            r.path@ == path@,
            r.body == Body::<()>::Empty,
            r.blank_body == BlankBody::Decode,
    {
        ApiRequest {
            method: Method::Delete,
            path: path.to_owned(),
            body: Body::Empty,
            blank_body: BlankBody::Decode,
        }
    }
}

impl<B> ApiRequest<B> {
    /// The same request, with a blank 2xx body read as an empty result.
    pub fn empty_on_blank(self) -> (r: ApiRequest<B>)
        ensures
            r.method == self.method,
            r.path == self.path,
            r.body == self.body,
            r.blank_body == BlankBody::EmptyResult,
    {
        ApiRequest { method: self.method, path: self.path, body: self.body, blank_body: BlankBody::EmptyResult }
    }
}

/// A leading `/` on a path is optional: with or without it the URL is the
/// same.
pub proof fn law_url_leading_slash_optional(base: Seq<char>, path: Seq<char>)
    requires
        path.len() == 0 || path[0] != '/',
    ensures
        join_url(base, seq!['/'] + path) == join_url(base, path),
{
    assert((seq!['/'] + path)[0] == '/');
    assert(base + (seq!['/'] + path) =~= base + seq!['/'] + path);
}

/// The base URL that a client keeps is a prefix of the one it was given
/// and does not end in `/`; stripping it again changes nothing.
pub proof fn law_strip_trailing_slashes(s: Seq<char>)
    ensures
        strip_trailing_slashes(s).len() <= s.len(),
        strip_trailing_slashes(s).len() == 0 || strip_trailing_slashes(s).last() != '/',
        strip_trailing_slashes(s) == s.take(strip_trailing_slashes(s).len() as int),
        strip_trailing_slashes(strip_trailing_slashes(s)) == strip_trailing_slashes(s),
    decreases s.len(),
{
    if s.len() > 0 && s.last() == '/' {
        law_strip_trailing_slashes(s.drop_last());
        let t = strip_trailing_slashes(s.drop_last());
        assert(s.drop_last().take(t.len() as int) =~= s.take(t.len() as int));
    } else {
        assert(s.take(s.len() as int) =~= s);
    }
}

} // verus!
