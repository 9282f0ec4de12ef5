//! Models for the `countries` resource group.

use vstd::prelude::*;

verus! {

/// A country as returned by `GET /countries`.
#[derive(Debug, Clone, PartialEq, Eq)]
pub struct Country {
    /// ISO country code (e.g. `SE`).
    pub country: String,
    /// Translated name of the country.
    pub name: String,
}

} // verus!
