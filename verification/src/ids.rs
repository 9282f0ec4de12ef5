//! Newtype wrappers for the resource identifiers of the Nordnet API.
//!
//! The numeric identifiers wrap an `i64` and the tradable identifier wraps
//! a `String`; on the wire each is its bare primitive. The distinct types
//! exist so that an `OrderId` cannot be passed where an `AccountId` is
//! expected.

use vstd::prelude::*;
use vstd::std_specs::convert::FromSpecImpl;
use crate::text::{int_decimal, i64_to_string};

verus! {

/// `accid` — Nordnet account identifier.
#[derive(Debug, Clone, Copy, PartialEq, Eq, Structural, Hash, PartialOrd, Ord)]
pub struct AccountId(pub i64);

impl AccountId {
    /// The decimal text of the identifier, as `Display` writes it.
    pub fn to_string(&self) -> (s: String)
        ensures
            s@ == int_decimal(self.0 as int),
    {
        i64_to_string(self.0)
    }
}

impl From<i64> for AccountId {
    fn from(v: i64) -> (r: Self) {
        AccountId(v)
    }
}

impl FromSpecImpl<i64> for AccountId {
    open spec fn obeys_from_spec() -> bool {
        true
    }

    open spec fn from_spec(v: i64) -> Self {
        AccountId(v)
    }
}

impl From<AccountId> for i64 {
    fn from(v: AccountId) -> (r: i64) {
        v.0
    }
}

impl FromSpecImpl<AccountId> for i64 {
    open spec fn obeys_from_spec() -> bool {
        true
    }

    open spec fn from_spec(v: AccountId) -> i64 {
        v.0
    }
}

/// `order_id` — Nordnet order identifier.
#[derive(Debug, Clone, Copy, PartialEq, Eq, Structural, Hash, PartialOrd, Ord)]
pub struct OrderId(pub i64);

impl OrderId {
    /// The decimal text of the identifier, as `Display` writes it.
    pub fn to_string(&self) -> (s: String)
        ensures
            s@ == int_decimal(self.0 as int),
    {
        i64_to_string(self.0)
    }
}

impl From<i64> for OrderId {
    fn from(v: i64) -> (r: Self) {
        OrderId(v)
    }
}

impl FromSpecImpl<i64> for OrderId {
    open spec fn obeys_from_spec() -> bool {
        true
    }

    open spec fn from_spec(v: i64) -> Self {
        OrderId(v)
    }
}

impl From<OrderId> for i64 {
    fn from(v: OrderId) -> (r: i64) {
        v.0
    }
}

impl FromSpecImpl<OrderId> for i64 {
    open spec fn obeys_from_spec() -> bool {
        true
    }

    open spec fn from_spec(v: OrderId) -> i64 {
        v.0
    }
}

/// `instrument_id` — Nordnet instrument identifier.
#[derive(Debug, Clone, Copy, PartialEq, Eq, Structural, Hash, PartialOrd, Ord)]
pub struct InstrumentId(pub i64);

impl InstrumentId {
    /// The decimal text of the identifier, as `Display` writes it.
    pub fn to_string(&self) -> (s: String)
        ensures
            s@ == int_decimal(self.0 as int),
    {
        i64_to_string(self.0)
    }
}

impl From<i64> for InstrumentId {
    fn from(v: i64) -> (r: Self) {
        InstrumentId(v)
    }
}

impl FromSpecImpl<i64> for InstrumentId {
    open spec fn obeys_from_spec() -> bool {
        true
    }

    open spec fn from_spec(v: i64) -> Self {
        InstrumentId(v)
    }
}

impl From<InstrumentId> for i64 {
    fn from(v: InstrumentId) -> (r: i64) {
        v.0
    }
}

impl FromSpecImpl<InstrumentId> for i64 {
    open spec fn obeys_from_spec() -> bool {
        true
    }

    open spec fn from_spec(v: InstrumentId) -> i64 {
        v.0
    }
}

/// `market_id` — Nordnet market identifier.
#[derive(Debug, Clone, Copy, PartialEq, Eq, Structural, Hash, PartialOrd, Ord)]
pub struct MarketId(pub i64);

impl MarketId {
    /// The decimal text of the identifier, as `Display` writes it.
    pub fn to_string(&self) -> (s: String)
        ensures
            s@ == int_decimal(self.0 as int),
    {
        i64_to_string(self.0)
    }
}

impl From<i64> for MarketId {
    fn from(v: i64) -> (r: Self) {
        MarketId(v)
    }
}

impl FromSpecImpl<i64> for MarketId {
    open spec fn obeys_from_spec() -> bool {
        true
    }

    open spec fn from_spec(v: i64) -> Self {
        MarketId(v)
    }
}

impl From<MarketId> for i64 {
    fn from(v: MarketId) -> (r: i64) {
        v.0
    }
}

impl FromSpecImpl<MarketId> for i64 {
    open spec fn obeys_from_spec() -> bool {
        true
    }

    open spec fn from_spec(v: MarketId) -> i64 {
        v.0
    }
}

/// `tick_size_id` — tick size table identifier.
#[derive(Debug, Clone, Copy, PartialEq, Eq, Structural, Hash, PartialOrd, Ord)]
pub struct TickSizeId(pub i64);

impl TickSizeId {
    /// The decimal text of the identifier, as `Display` writes it.
    pub fn to_string(&self) -> (s: String)
        ensures
            s@ == int_decimal(self.0 as int),
    {
        i64_to_string(self.0)
    }
}

impl From<i64> for TickSizeId {
    fn from(v: i64) -> (r: Self) {
        TickSizeId(v)
    }
}

impl FromSpecImpl<i64> for TickSizeId {
    open spec fn obeys_from_spec() -> bool {
        true
    }

    open spec fn from_spec(v: i64) -> Self {
        TickSizeId(v)
    }
}

impl From<TickSizeId> for i64 {
    fn from(v: TickSizeId) -> (r: i64) {
        v.0
    }
}

impl FromSpecImpl<TickSizeId> for i64 {
    open spec fn obeys_from_spec() -> bool {
        true
    }

    open spec fn from_spec(v: TickSizeId) -> i64 {
        v.0
    }
}

/// `issuer_id` — instrument issuer identifier.
#[derive(Debug, Clone, Copy, PartialEq, Eq, Structural, Hash, PartialOrd, Ord)]
pub struct IssuerId(pub i64);

impl IssuerId {
    /// The decimal text of the identifier, as `Display` writes it.
    pub fn to_string(&self) -> (s: String)
        ensures
            s@ == int_decimal(self.0 as int),
    {
        i64_to_string(self.0)
    }
}

impl From<i64> for IssuerId {
    fn from(v: i64) -> (r: Self) {
        IssuerId(v)
    }
}

impl FromSpecImpl<i64> for IssuerId {
    open spec fn obeys_from_spec() -> bool {
        true
    }

    open spec fn from_spec(v: i64) -> Self {
        IssuerId(v)
    }
}

impl From<IssuerId> for i64 {
    fn from(v: IssuerId) -> (r: i64) {
        v.0
    }
}

impl FromSpecImpl<IssuerId> for i64 {
    open spec fn obeys_from_spec() -> bool {
        true
    }

    open spec fn from_spec(v: IssuerId) -> i64 {
        v.0
    }
}

/// `item_id` — news article identifier.
#[derive(Debug, Clone, Copy, PartialEq, Eq, Structural, Hash, PartialOrd, Ord)]
pub struct NewsId(pub i64);

impl NewsId {
    /// The decimal text of the identifier, as `Display` writes it.
    pub fn to_string(&self) -> (s: String)
        ensures
            s@ == int_decimal(self.0 as int),
    {
        i64_to_string(self.0)
    }
}

impl From<i64> for NewsId {
    fn from(v: i64) -> (r: Self) {
        NewsId(v)
    }
}

impl FromSpecImpl<i64> for NewsId {
    open spec fn obeys_from_spec() -> bool {
        true
    }

    open spec fn from_spec(v: i64) -> Self {
        NewsId(v)
    }
}

impl From<NewsId> for i64 {
    fn from(v: NewsId) -> (r: i64) {
        v.0
    }
}

impl FromSpecImpl<NewsId> for i64 {
    open spec fn obeys_from_spec() -> bool {
        true
    }

    open spec fn from_spec(v: NewsId) -> i64 {
        v.0
    }
}

/// Tradable identifier (`identifier` field).
#[derive(Debug, Clone, PartialEq, Eq, Hash, PartialOrd, Ord)]
pub struct TradableId(pub String);

impl TradableId {
    /// The identifier text, as `Display` writes it.
    pub fn to_string(&self) -> (s: String)
        ensures
            s@ == self.0@,
    {
        self.0.clone()
    }
}

impl From<String> for TradableId {
    fn from(v: String) -> (r: Self) {
        TradableId(v)
    }
}

impl FromSpecImpl<String> for TradableId {
    open spec fn obeys_from_spec() -> bool {
        true
    }

    open spec fn from_spec(v: String) -> Self {
        TradableId(v)
    }
}

impl From<TradableId> for String {
    fn from(v: TradableId) -> (r: String) {
        v.0
    }
}

impl FromSpecImpl<TradableId> for String {
    open spec fn obeys_from_spec() -> bool {
        true
    }

    open spec fn from_spec(v: TradableId) -> String {
        v.0
    }
}

} // verus!
