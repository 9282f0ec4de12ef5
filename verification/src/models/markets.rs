//! Models for the `markets` resource group.

use vstd::prelude::*;
use crate::ids::MarketId;

verus! {

/// A market as returned by `GET /markets`.
#[derive(Debug, Clone, PartialEq, Eq)]
pub struct Market {
    /// ISO country code; absent for virtual markets.
    pub country: Option<String>,
    /// The market identifier.
    pub market_id: MarketId,
    /// The market name.
    pub name: String,
}

} // verus!
