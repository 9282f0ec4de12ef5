//! Models for the `main_search` resource group (the records of plain
//! values; records that carry decimals are decoded by the caller).

use vstd::prelude::*;
use crate::ids::{InstrumentId, MarketId, TickSizeId};

verus! {

/// Exchange-traded product details of a search row.
#[derive(Debug, Clone, PartialEq, Eq)]
pub struct EtpInfo {
    pub direction: Option<String>,
    pub first_trading_date: Option<i64>,
    pub market_view: Option<String>,
    pub nordnet_markets: Option<bool>,
    pub underlying_instrument_id: Option<InstrumentId>,
    pub underlying_name: Option<String>,
}

/// Market placement of a search row.
#[derive(Debug, Clone, PartialEq, Eq)]
pub struct MarketInfo {
    pub identifier: Option<String>,
    pub market_id: Option<MarketId>,
    pub market_sub_id: Option<i64>,
    pub tick_size_id: Option<TickSizeId>,
}

/// Trading status of a search row.
#[derive(Debug, Clone, PartialEq, Eq)]
pub struct StatusInfo {
    pub tick_timestamp: Option<i64>,
    pub trading_status: Option<String>,
    pub translated_trading_status: Option<String>,
}

} // verus!
