//! Error type of the Nordnet API client.
//!
//! Mirrors the documented HTTP status codes (400, 401, 403, 429, 503) plus
//! transport-level failures. Every non-2xx response carries the raw response
//! body so callers can surface the documented `ErrorResponse` shape
//! (`{"code": ..., "message": ...}`) without re-parsing here.

use vstd::prelude::*;

verus! {

/// All recoverable failures from the Nordnet API client.
#[derive(Debug)]
pub enum Error {
    /// HTTP 400 — invalid parameter.
    BadRequest { body: String },
    /// HTTP 401 — unauthorized (typically rejected credentials).
    Unauthorized { body: String },
    /// HTTP 403 — forbidden.
    Forbidden { body: String },
    /// HTTP 429 — too many requests.
    TooManyRequests { body: String },
    /// HTTP 503 — service unavailable.
    ServiceUnavailable { body: String },
    /// Any non-2xx response not specifically modelled above.
    UnexpectedStatus { status: u16, body: String },
    /// Underlying transport failure (DNS, connect, TLS, timeout, ...), with
    /// the transport's own description of it.
    Transport(String),
    /// Response body was not valid JSON for the expected type: the decoder's
    /// description of the mismatch and the body as received.
    Decode { source: String, body: String },
    /// Failure during the key-based login flow (key parsing, signing, ...).
    Auth(String),
    /// A header value could not be built from the credentials.
    InvalidHeader(String),
    /// Form-urlencoded serialization of a request body failed.
    EncodeForm(String),
}

/// The error that a non-2xx `status` with response `body` maps to.
pub open spec fn status_error(status: u16, body: String) -> Error {
    if status == 400 {
        Error::BadRequest { body }
    } else if status == 401 {
        Error::Unauthorized { body }
    } else if status == 403 {
        Error::Forbidden { body }
    } else if status == 429 {
        Error::TooManyRequests { body }
    } else if status == 503 {
        Error::ServiceUnavailable { body }
    } else {
        Error::UnexpectedStatus { status, body }
    }
}

impl Error {
    /// Build the variant for an HTTP status code and its response body.
    pub fn from_status(status: u16, body: String) -> (e: Error)
        ensures
            e == status_error(status, body),
            status == 400 ==> e == (Error::BadRequest { body }),
            status == 401 ==> e == (Error::Unauthorized { body }),
            status == 403 ==> e == (Error::Forbidden { body }),
            status == 429 ==> e == (Error::TooManyRequests { body }),
            status == 503 ==> e == (Error::ServiceUnavailable { body }),
            !(status == 400 || status == 401 || status == 403 || status == 429 || status == 503) ==> e
                == (Error::UnexpectedStatus { status, body }),
    {
        match status {
            400 => Error::BadRequest { body },
            401 => Error::Unauthorized { body },
            403 => Error::Forbidden { body },
            429 => Error::TooManyRequests { body },
            503 => Error::ServiceUnavailable { body },
            other => Error::UnexpectedStatus { status: other, body },
        }
    }

    /// The response body that a status error carries, if any.
    pub open spec fn status_body(self) -> Option<String> {
        match self {
            Error::BadRequest { body } => Some(body),
            Error::Unauthorized { body } => Some(body),
            Error::Forbidden { body } => Some(body),
            Error::TooManyRequests { body } => Some(body),
            Error::ServiceUnavailable { body } => Some(body),
            Error::UnexpectedStatus { body, .. } => Some(body),
            _ => None,
        }
    }
}

/// Law: every status error keeps the response body byte for byte, and the
/// catch-all variant keeps the status code.
pub proof fn status_error_keeps_body(status: u16, body: String)
    ensures
        status_error(status, body).status_body() == Some(body),
        !(status == 400 || status == 401 || status == 403 || status == 429 || status == 503)
            ==> status_error(status, body) == (Error::UnexpectedStatus { status, body }),
{
}

/// Law: each documented status code has its own variant, whatever the
/// body says: 400 is `BadRequest`, 401 `Unauthorized`, 403 `Forbidden`,
/// 429 `TooManyRequests` and 503 `ServiceUnavailable`, each carrying the
/// body as received.
pub proof fn status_code_decides_variant(status: u16, body: String)
    ensures
        status == 400 ==> status_error(status, body) == (Error::BadRequest { body }),
        status == 401 ==> status_error(status, body) == (Error::Unauthorized { body }),
        status == 403 ==> status_error(status, body) == (Error::Forbidden { body }),
        status == 429 ==> status_error(status, body) == (Error::TooManyRequests { body }),
        status == 503 ==> status_error(status, body) == (Error::ServiceUnavailable { body }),
{
}

/// Law: two replies with the same status map to the same variant, whatever
/// their bodies; only the body carried differs.
pub proof fn status_error_ignores_body_for_variant(status: u16, b1: String, b2: String)
    ensures
        status_error(status, b1) is BadRequest <==> status_error(status, b2) is BadRequest,
        status_error(status, b1) is Unauthorized <==> status_error(status, b2) is Unauthorized,
        status_error(status, b1) is Forbidden <==> status_error(status, b2) is Forbidden,
        status_error(status, b1) is TooManyRequests <==> status_error(status, b2) is TooManyRequests,
        status_error(status, b1) is ServiceUnavailable <==> status_error(status, b2) is ServiceUnavailable,
        status_error(status, b1) is UnexpectedStatus <==> status_error(status, b2) is UnexpectedStatus,
{
}

} // verus!
