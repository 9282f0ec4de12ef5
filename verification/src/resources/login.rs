//! The `login` group: the API-key challenge flow and the session calls.
//!
//! `POST /login/start` answers a challenge that the caller signs with its
//! private key (see [`crate::auth::sign_challenge`]) and hands to
//! `POST /login/verify`, whose reply carries the session key. `PUT /login`
//! keeps the session alive and `DELETE /login` ends it.

use vstd::prelude::*;
use crate::client::{ApiRequest, Body, BlankBody, Client, Method, is_bodiless};
use crate::models::login::{ApiKeyStartLoginRequest, ApiKeyVerifyLoginRequest};

verus! {

impl Client {
    /// `POST /login/start` with the API key as a JSON body.
    pub fn start_login<'a>(&self, request: &'a ApiKeyStartLoginRequest) -> (r: ApiRequest<
        &'a ApiKeyStartLoginRequest,
    >)
        ensures
            r.method == Method::Post,
            r.path@ == "/login/start"@,
            r.body == Body::Json(request),
            r.blank_body == BlankBody::Decode,
    {
        self.post("/login/start", request)
    }

    /// `POST /login/verify` with the signed challenge as a JSON body.
    pub fn verify_login<'a>(&self, request: &'a ApiKeyVerifyLoginRequest) -> (r: ApiRequest<
        &'a ApiKeyVerifyLoginRequest,
    >)
        ensures
            r.method == Method::Post,
            r.path@ == "/login/verify"@,
            r.body == Body::Json(request),
            r.blank_body == BlankBody::Decode,
    {
        self.post("/login/verify", request)
    }

    /// `PUT /login` with no body — touches the session.
    pub fn refresh_session(&self) -> (r: ApiRequest<()>)
        ensures
            is_bodiless(r, Method::Put, "/login"@, BlankBody::Decode),
    {
        self.put_empty("/login")
    }

    /// `DELETE /login` — ends the session.
    pub fn logout(&self) -> (r: ApiRequest<()>)
        ensures
            is_bodiless(r, Method::Delete, "/login"@, BlankBody::Decode),
    {
        self.delete("/login")
    }
}

} // verus!
