//! `nordnet login <op>` and the requests of the login flow, built from the
//! resolved configuration: `POST /login/start` carries the API key,
//! `POST /login/verify` the API key, the service and the signed challenge.

use vstd::prelude::*;
use crate::auth::{Session, sign_challenge};
use crate::cli::config::{Config, ConfigError};
use crate::error::Error;
use crate::models::login::{ApiKeyStartLoginRequest, ApiKeyVerifyLoginRequest};

verus! {

/// Why a login request could not be built.
#[derive(Debug)]
pub enum LoginError {
    /// The configuration lacks a field that the login needs.
    Config(ConfigError),
    /// Signing the challenge failed.
    Sign(Error),
}

/// The body of `POST /login/start`: the configured API key, or
/// [`ConfigError::Missing`] (`api_key`).
pub fn start_login_request(cfg: &Config) -> (r: Result<ApiKeyStartLoginRequest, ConfigError>)
    ensures
        match cfg.api_key {
            Some(k) => r matches Ok(q) && q.api_key@ == k@,
            None => r matches Err(ConfigError::Missing(name)) && name@ == "api_key"@,
        },
{
    match cfg.require_api_key() {
        Ok(k) => Ok(ApiKeyStartLoginRequest { api_key: k.to_owned() }),
        Err(e) => Err(e),
    }
}

/// The body of `POST /login/verify`: the configured API key and service and
/// the challenge signed with `key`. A missing API key is refused before
/// anything is signed.
pub fn verify_login_request(cfg: &Config, key: &rsa::RsaPrivateKey, challenge: &str) -> (r: Result<
    ApiKeyVerifyLoginRequest,
    LoginError,
>)
    ensures
        cfg.api_key is None ==> (r matches Err(LoginError::Config(ConfigError::Missing(name))) && name@
            == "api_key"@),
        r matches Ok(q) ==> cfg.api_key matches Some(k) && q.api_key@ == k@ && q.service@ == cfg.service@,
        r matches Err(LoginError::Sign(e)) ==> cfg.api_key is Some && (e matches Error::Auth(m)
            && m@.take(17) == "rsa sign failed: "@),
{
    let api_key = match cfg.require_api_key() {
        Ok(k) => k,
        Err(e) => {
            return Err(LoginError::Config(e));
        },
    };
    match sign_challenge(key, challenge) {
        Ok(signature) => Ok(
            ApiKeyVerifyLoginRequest {
                api_key: api_key.to_owned(),
                service: cfg.service.clone(),
                signature,
            },
        ),
        Err(e) => Err(LoginError::Sign(e)),
    }
}

/// `login verify`: the challenge that `login start` printed.
#[derive(Debug, Clone, PartialEq, Eq)]
pub struct VerifyArgs {
    pub challenge: String,
}

/// `login refresh` and `login logout`: the session key to act on.
#[derive(Debug, Clone, PartialEq, Eq)]
pub struct SessionArgs {
    pub session_key: String,
}

impl SessionArgs {
    /// The session for the key; a key given this way carries no lifetime.
    pub fn session(&self) -> (s: Session)
        ensures
            s.session_key@ == self.session_key@,
            s.expires_in == 0,
    {
        Session { session_key: self.session_key.clone(), expires_in: 0 }
    }
}

/// The operations of `nordnet login`.
#[derive(Debug, Clone, PartialEq, Eq)]
pub enum Cmd {
    Start,
    Verify(VerifyArgs),
    Refresh(SessionArgs),
    Logout(SessionArgs),
}

} // verus!
