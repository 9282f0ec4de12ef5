//! The session that `nordnet auth login` keeps on disk, and the order in
//! which a command picks the session it sends.
//!
//! The session key is taken from `--session-key` (or the
//! `NORDNET_SESSION_KEY` variable behind it) first, then from the stored
//! session; with neither, requests go out unauthenticated.

use vstd::prelude::*;
use crate::auth::Session;
use crate::models::login::ApiKeyLoginResponse;

verus! {

/// Nanoseconds per second.
pub const NANOS_PER_SECOND: i128 = 1_000_000_000;

/// The earliest local date-time that a timestamp can hold, in seconds
/// since the epoch (`-9999-01-01T00:00:00`).
pub const MIN_LOCAL_SECONDS: i128 = -377_705_116_800;

/// The latest whole second of a local date-time (`9999-12-31T23:59:59`).
pub const MAX_LOCAL_SECONDS: i128 = 253_402_300_799;

/// The largest UTC offset, in seconds (`±25:59:59`).
pub const MAX_OFFSET_SECONDS: i32 = 93_599;

/// A date-time with its UTC offset, as `time::OffsetDateTime` holds one:
/// the instant in nanoseconds since the Unix epoch and the offset.
#[derive(Debug, Clone, Copy, PartialEq, Eq, Structural)]
pub struct Timestamp {
    pub unix_nanos: i128,
    pub offset_seconds: i32,
}

/// The local clock reading of `t`, in nanoseconds since the epoch.
pub open spec fn local_nanos(unix_nanos: int, offset_seconds: int) -> int {
    unix_nanos + offset_seconds * NANOS_PER_SECOND
}

/// Whether a local clock reading lies in the range of dates that a
/// timestamp can hold (years -9999 to 9999).
pub open spec fn local_in_range(local: int) -> bool {
    MIN_LOCAL_SECONDS * NANOS_PER_SECOND <= local < (MAX_LOCAL_SECONDS + 1) * NANOS_PER_SECOND
}

/// `a / b` rounded toward zero, as integer division in Rust rounds.
pub open spec fn div_toward_zero(a: int, b: int) -> int
    recommends
        b > 0,
{
    if a >= 0 {
        a / b
    } else {
        -((-a) / b)
    }
}

impl Timestamp {
    /// A value that `time::OffsetDateTime` can hold.
    pub open spec fn wf(self) -> bool {
        &&& -MAX_OFFSET_SECONDS <= self.offset_seconds <= MAX_OFFSET_SECONDS
        &&& local_in_range(local_nanos(self.unix_nanos as int, self.offset_seconds as int))
    }

    /// Whether `self` moved by `seconds` is still a value that a timestamp
    /// can hold.
    pub open spec fn can_add_seconds(self, seconds: int) -> bool {
        local_in_range(local_nanos(self.unix_nanos as int, self.offset_seconds as int) + seconds * NANOS_PER_SECOND)
    }

    /// `self + seconds`, keeping the offset; `None` when the result would
    /// leave the range of dates (where `+` on a date-time panics).
    pub fn checked_add_seconds(&self, seconds: i64) -> (r: Option<Timestamp>)
        requires
            self.wf(),
        ensures
            r is Some <==> self.can_add_seconds(seconds as int),
            r matches Some(t) ==> t.wf() && t.unix_nanos == self.unix_nanos + seconds * NANOS_PER_SECOND
                && t.offset_seconds == self.offset_seconds,
    {
        let delta: i128 = (seconds as i128) * NANOS_PER_SECOND;
        let local: i128 = self.unix_nanos + (self.offset_seconds as i128) * NANOS_PER_SECOND + delta;
        if MIN_LOCAL_SECONDS * NANOS_PER_SECOND <= local && local < (MAX_LOCAL_SECONDS + 1) * NANOS_PER_SECOND {
            Some(Timestamp { unix_nanos: self.unix_nanos + delta, offset_seconds: self.offset_seconds })
        } else {
            None
        }
    }

    /// The whole seconds from `earlier` to `self`, rounded toward zero, as
    /// `(self - earlier).whole_seconds()` gives them.
    pub fn whole_seconds_since(&self, earlier: &Timestamp) -> (s: i64)
        requires
            self.wf(),
            earlier.wf(),
        ensures
            s == div_toward_zero(self.unix_nanos - earlier.unix_nanos, NANOS_PER_SECOND as int),
    {
        let d: i128 = self.unix_nanos - earlier.unix_nanos;
        let q: i128 = if d >= 0 {
            d / NANOS_PER_SECOND
        } else {
            -((-d) / NANOS_PER_SECOND)
        };
        q as i64
    }
}

/// The session record kept on disk: what `POST /login/verify` returned and
/// when it was acquired, so that its expiry can be told without asking the
/// server.
#[derive(Debug, Clone, PartialEq, Eq)]
pub struct StoredSession {
    /// The session key.
    pub session_key: String,
    /// The lifetime that the login reported, in seconds. `PUT /login` does
    /// not report a new one, so it is kept across refreshes.
    pub expires_in: i64,
    /// When the session was acquired or last refreshed.
    pub acquired_at: Timestamp,
}

/// What `nordnet auth status` reports.
#[derive(Debug, Clone, PartialEq, Eq)]
pub enum SessionStatus {
    /// No session is stored.
    NotLoggedIn,
    /// A session is stored.
    LoggedIn {
        acquired_at: Timestamp,
        expires_in: i64,
        expires_at: Timestamp,
        /// Whole seconds until the expiry (negative once expired).
        seconds_remaining: i64,
    },
}

/// Why a session could not be used or kept.
#[derive(Debug)]
pub enum SessionError {
    /// No configuration directory could be determined.
    NoConfigHome,
    /// No session is available.
    Missing,
    /// A file could not be read or written (its path and the system's
    /// message).
    Io(String, String),
    /// The session file is not valid TOML of the expected shape.
    Toml(String, String),
    /// The session could not be written as TOML.
    Encode(String, String),
}

impl StoredSession {
    /// The projected expiry, `acquired_at + expires_in` seconds, computed
    /// without the server.
    pub fn expires_at(&self) -> (t: Timestamp)
        requires
            self.acquired_at.wf(),
            self.acquired_at.can_add_seconds(self.expires_in as int),
        ensures
            t.wf(),
            t.unix_nanos == self.acquired_at.unix_nanos + self.expires_in * NANOS_PER_SECOND,
            t.offset_seconds == self.acquired_at.offset_seconds,
    {
        match self.acquired_at.checked_add_seconds(self.expires_in) {
            Some(t) => t,
            None => {
                proof {
                    assert(false);
                }
                self.acquired_at
            },
        }
    }

    /// The session in the shape that the client attaches.
    pub fn to_api_session(&self) -> (s: Session)
        ensures
            s.session_key@ == self.session_key@,
            s.expires_in == self.expires_in,
    {
        Session { session_key: self.session_key.clone(), expires_in: self.expires_in }
    }

    /// The record of a fresh login acquired at `now`.
    pub fn from_login(response: &ApiKeyLoginResponse, now: Timestamp) -> (s: StoredSession)
        ensures
            s.session_key@ == response.session_key@,
            s.expires_in == response.expires_in,
            s.acquired_at == now,
    {
        StoredSession {
            session_key: response.session_key.clone(),
            expires_in: response.expires_in,
            acquired_at: now,
        }
    }

    /// The record after `PUT /login` at `now`: the same key and lifetime,
    /// acquired anew.
    pub fn refreshed(self, now: Timestamp) -> (s: StoredSession)
        ensures
            s.session_key == self.session_key,
            s.expires_in == self.expires_in,
            s.acquired_at == now,
    {
        StoredSession { session_key: self.session_key, expires_in: self.expires_in, acquired_at: now }
    }
}

/// What `status` reports for the stored session at `now`.
pub fn session_status(stored: Option<&StoredSession>, now: Timestamp) -> (r: SessionStatus)
    requires
        now.wf(),
        stored matches Some(s) ==> s.acquired_at.wf() && s.acquired_at.can_add_seconds(s.expires_in as int),
    ensures
        stored is None ==> r == SessionStatus::NotLoggedIn,
        stored matches Some(s) ==> r matches SessionStatus::LoggedIn {
            acquired_at,
            expires_in,
            expires_at,
            seconds_remaining,
        } && acquired_at == s.acquired_at && expires_in == s.expires_in && expires_at.unix_nanos
            == s.acquired_at.unix_nanos + s.expires_in * NANOS_PER_SECOND && expires_at.offset_seconds
            == s.acquired_at.offset_seconds && seconds_remaining == div_toward_zero(
            expires_at.unix_nanos - now.unix_nanos,
            NANOS_PER_SECOND as int,
        ),
{
    match stored {
        None => SessionStatus::NotLoggedIn,
        Some(s) => {
            let expires_at = s.expires_at();
            let seconds_remaining = expires_at.whole_seconds_since(&now);
            SessionStatus::LoggedIn {
                acquired_at: s.acquired_at,
                expires_in: s.expires_in,
                expires_at,
                seconds_remaining,
            }
        },
    }
}

/// The session that a command sends: the key given on the command line
/// (or in `NORDNET_SESSION_KEY`), which carries no lifetime, else the
/// stored one, else none.
pub fn resolve_session(override_key: Option<&str>, stored: Option<&StoredSession>) -> (r: Option<Session>)
    ensures
        override_key matches Some(k) ==> r matches Some(s) && s.session_key@ == k@ && s.expires_in == 0,
        override_key is None ==> match stored {
            Some(st) => r matches Some(s) && s.session_key@ == st.session_key@ && s.expires_in == st.expires_in,
            None => r is None,
        },
{
    match override_key {
        Some(k) => Some(Session { session_key: k.to_owned(), expires_in: 0 }),
        None => match stored {
            Some(st) => Some(st.to_api_session()),
            None => None,
        },
    }
}

/// Right after a login or a refresh at some instant, `status` at that same
/// instant reports the whole lifetime as the seconds remaining: the
/// expiry less the acquisition, in whole seconds, is `expires_in`.
pub proof fn law_fresh_session_reports_full_lifetime(acquired_nanos: int, expires_in: int)
    ensures
        div_toward_zero(
            (acquired_nanos + expires_in * NANOS_PER_SECOND) - acquired_nanos,
            NANOS_PER_SECOND as int,
        ) == expires_in,
{
    let n = NANOS_PER_SECOND as int;
    assert((acquired_nanos + expires_in * n) - acquired_nanos == expires_in * n);
    if expires_in >= 0 {
        assert((expires_in * n) / n == expires_in) by (nonlinear_arith)
            requires
                n == 1_000_000_000,
        ;
    } else {
        assert((-(expires_in * n)) / n == -expires_in) by (nonlinear_arith)
            requires
                n == 1_000_000_000,
        ;
    }
}

} // verus!
