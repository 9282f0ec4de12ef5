//! Models for the `tradables` resource group.

use vstd::prelude::*;
use crate::ids::{MarketId, TradableId};
use crate::text::{int_decimal, push_i64, push_str};

verus! {

/// Tradable lookup key: `{market_id}:{identifier}` (e.g. `11:101`).
#[derive(Debug, Clone, PartialEq, Eq, Hash)]
pub struct TradableKey {
    /// Market identifier component of the key.
    pub market_id: MarketId,
    /// Tradable identifier component of the key.
    pub identifier: TradableId,
}

/// The wire form of a tradable key: the market id, `:`, the identifier.
pub open spec fn tradable_key_text(k: TradableKey) -> Seq<char> {
    int_decimal(k.market_id.0 as int) + seq![':'] + k.identifier.0@
}

impl TradableKey {
    /// A key from its two components.
    pub fn new(market_id: MarketId, identifier: TradableId) -> (k: Self)
        ensures
            k.market_id == market_id,
            k.identifier == identifier,
    {
        TradableKey { market_id, identifier }
    }

    /// The wire form `{market_id}:{identifier}`, as `Display` writes it.
    pub fn to_string(&self) -> (s: String)
        ensures
            s@ == tradable_key_text(*self),
    {
        let mut s = String::new();
        push_i64(&mut s, self.market_id.0);
        crate::text::push_char(&mut s, ':');
        push_str(&mut s, self.identifier.0.as_str());
        assert(s@ =~= tradable_key_text(*self));
        s
    }
}

/// One trading-calendar day of a tradable.
#[derive(Debug, Clone, PartialEq, Eq)]
pub struct CalendarDay {
    /// The market closing time, UNIX milliseconds.
    pub close: i64,
    /// The date as `YYYY-MM-DD`.
    pub date: String,
    /// The market opening time, UNIX milliseconds.
    pub open: i64,
}

/// One allowed order type of a tradable: localized name and wire code.
#[derive(Debug, Clone, PartialEq, Eq)]
pub struct AllowedOrderType {
    /// The translated order type.
    pub name: String,
    /// The order type code (named `type` in payloads).
    pub order_type: String,
}

/// Trading calendar and allowed order types of a tradable.
#[derive(Debug, Clone, PartialEq, Eq)]
pub struct TradableInfo {
    /// Allowed days for long-term orders.
    pub calendar: Vec<CalendarDay>,
    /// `true` if iceberg orders are allowed.
    pub iceberg: bool,
    /// The tradable identifier.
    pub identifier: TradableId,
    /// The market identifier.
    pub market_id: MarketId,
    /// Allowed order types.
    pub order_types: Vec<AllowedOrderType>,
}

/// Customer trading eligibility for a tradable.
#[derive(Debug, Clone, PartialEq, Eq)]
pub struct TradableEligibility {
    /// `true` if the customer may trade the tradable.
    pub eligible: bool,
    /// The tradable identifier.
    pub identifier: TradableId,
    /// The market identifier.
    pub market_id: MarketId,
}

} // verus!
