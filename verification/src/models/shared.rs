//! Types shared across resource groups.

use vstd::prelude::*;

verus! {

/// The documented error description: a code and an optional message.
#[derive(Debug, Clone, PartialEq, Eq)]
pub struct ErrorResponse {
    pub code: String,
    pub message: Option<String>,
}

/// ISO 4217 currency code as it appears in payloads (e.g. `SEK`).
#[derive(Debug, Clone, PartialEq, Eq, Hash, PartialOrd, Ord)]
pub struct Currency(pub String);

impl Currency {
    /// A currency from its code.
    pub fn new(code: &str) -> (c: Self)
        ensures
            c.0@ == code@,
    {
        Currency(code.to_owned())
    }

    /// The currency code, as `Display` writes it.
    pub fn to_string(&self) -> (s: String)
        ensures
            s@ == self.0@,
    {
        self.0.clone()
    }
}

} // verus!
