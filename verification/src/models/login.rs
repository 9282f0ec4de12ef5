//! Models for the `login` resource group.

use vstd::prelude::*;
use crate::auth::Session;

verus! {

/// Request body for `POST /login/start`.
#[derive(Debug, Clone, PartialEq, Eq)]
pub struct ApiKeyStartLoginRequest {
    /// The API key provided by Nordnet.
    pub api_key: String,
}

/// Response body from `POST /login/start`.
#[derive(Debug, Clone, PartialEq, Eq)]
pub struct ChallengeResponse {
    /// The challenge string to sign; valid for 30 seconds only.
    pub challenge: String,
}

/// Request body for `POST /login/verify`.
#[derive(Debug, Clone, PartialEq, Eq)]
pub struct ApiKeyVerifyLoginRequest {
    /// The API key provided by Nordnet.
    pub api_key: String,
    /// The service name (provided by Nordnet).
    pub service: String,
    /// The signed and base64 encoded challenge string.
    pub signature: String,
}

/// Connection information for one of the streaming feeds.
#[derive(Debug, Clone, PartialEq, Eq)]
pub struct Feed {
    /// `true` if the feed is encrypted (TLS).
    pub encrypted: bool,
    /// The feed hostname.
    pub hostname: String,
    /// The feed port.
    pub port: i64,
}

/// Response body from `POST /login/verify`.
#[derive(Debug, Clone, PartialEq, Eq)]
pub struct ApiKeyLoginResponse {
    /// The whole session expiration interval in seconds.
    pub expires_in: i64,
    /// Connection information for the private feed.
    pub private_feed: Feed,
    /// Connection information for the public feed.
    pub public_feed: Feed,
    /// The session key used for identification in all other requests.
    pub session_key: String,
}

impl ApiKeyLoginResponse {
    /// The authenticated [`Session`] that this login response grants.
    pub fn to_session(&self) -> (s: Session)
        ensures
            s.session_key@ == self.session_key@,
            s.expires_in == self.expires_in,
    {
        Session { session_key: self.session_key.clone(), expires_in: self.expires_in }
    }
}

/// Response body from `PUT /login` (refresh) and `DELETE /login` (logout).
#[derive(Debug, Clone, Copy, PartialEq, Eq, Structural)]
pub struct LoggedInStatus {
    /// `true` if the session is valid.
    pub logged_in: bool,
}

} // verus!
