//! Models for the `instruments` resource group (the records of plain
//! values; records that carry decimals or dates are decoded by the caller).

use vstd::prelude::*;
use crate::ids::{InstrumentId, IssuerId};

verus! {

/// Links to the key information documents of an instrument.
#[derive(Debug, Clone, PartialEq, Eq)]
pub struct KeyInformationDocuments {
    pub url_for_combined: Option<String>,
    pub url_for_long: Option<String>,
    pub url_for_short: Option<String>,
}

/// An underlying of a derivative instrument. The wire form carries both
/// `instrument_id` and the legacy misspelled `instrumment_id`.
#[derive(Debug, Clone, PartialEq, Eq)]
pub struct UnderlyingInfo {
    pub instrument_id: InstrumentId,
    pub instrumment_id: Option<InstrumentId>,
    pub isin_code: String,
    pub symbol: String,
}

/// An instrument type: code and translated name.
#[derive(Debug, Clone, PartialEq, Eq)]
pub struct InstrumentType {
    pub instrument_type: String,
    pub name: String,
}

/// Customer trading eligibility for an instrument.
#[derive(Debug, Clone, Copy, PartialEq, Eq, Structural)]
pub struct InstrumentEligibility {
    pub eligible: bool,
    pub instrument_id: InstrumentId,
}

/// An issuer of leverage instruments.
#[derive(Debug, Clone, PartialEq, Eq)]
pub struct Issuer {
    pub issuer_id: IssuerId,
    pub name: String,
}

} // verus!
