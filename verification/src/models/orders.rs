//! Order requests and the closed sets of values that their fields take.

use vstd::prelude::*;
use crate::ids::{MarketId, TradableId};
use crate::models::shared::Currency;
use crate::text::str_eq;

verus! {

/// `rust_decimal::Decimal`, an exact decimal number; prices and trigger
/// values are carried in it.
#[verifier::external_type_specification]
#[verifier::external_body]
pub struct ExDecimal(rust_decimal::Decimal);

/// Order side.
#[derive(Debug, Clone, Copy, PartialEq, Eq, Structural)]
pub enum OrderSide {
    Buy,
    Sell,
}

/// Order type.
#[derive(Debug, Clone, Copy, PartialEq, Eq, Structural)]
pub enum OrderType {
    Normal,
    Limit,
    FillAndKill,
    FillOrKill,
    StopLimit,
    StopTrailing,
    OneCancelsOther,
}

/// Activation condition of a stop order.
#[derive(Debug, Clone, Copy, PartialEq, Eq, Structural)]
pub enum OrderActivationCondition {
    StopActprice,
    StopActpricePerc,
    Manual,
    OcoStopActprice,
}

/// The wire name of a side.
pub open spec fn side_name(s: OrderSide) -> Seq<char> {
    match s {
        OrderSide::Buy => "BUY"@,
        OrderSide::Sell => "SELL"@,
    }
}

/// The wire name of an order type.
pub open spec fn order_type_name(t: OrderType) -> Seq<char> {
    match t {
        OrderType::Normal => "NORMAL"@,
        OrderType::Limit => "LIMIT"@,
        OrderType::FillAndKill => "FAK"@,
        OrderType::FillOrKill => "FOK"@,
        OrderType::StopLimit => "STOP_LIMIT"@,
        OrderType::StopTrailing => "STOP_TRAILING"@,
        OrderType::OneCancelsOther => "OCO"@,
    }
}

/// The wire name of an activation condition.
pub open spec fn activation_name(a: OrderActivationCondition) -> Seq<char> {
    match a {
        OrderActivationCondition::StopActprice => "STOP_ACTPRICE"@,
        OrderActivationCondition::StopActpricePerc => "STOP_ACTPRICE_PERC"@,
        OrderActivationCondition::Manual => "MANUAL"@,
        OrderActivationCondition::OcoStopActprice => "OCO_STOP_ACTPRICE"@,
    }
}

impl OrderSide {
    /// The wire name (`BUY`, `SELL`).
    pub fn as_str(&self) -> (s: &'static str)
        ensures
            s@ == side_name(*self),
    {
        proof {
            reveal_strlit("BUY");
            reveal_strlit("SELL");
        }
        match self {
            OrderSide::Buy => "BUY",
            OrderSide::Sell => "SELL",
        }
    }

    /// The side whose wire name is exactly `s`, if any.
    pub fn parse(s: &str) -> (r: Option<OrderSide>)
        ensures
            r matches Some(v) ==> side_name(v) == s@,
            r is None ==> forall|v: OrderSide| side_name(v) != s@,
    {
        if str_eq(s, "BUY") {
            Some(OrderSide::Buy)
        } else if str_eq(s, "SELL") {
            Some(OrderSide::Sell)
        } else {
            proof {
                reveal_strlit("BUY");
                reveal_strlit("SELL");
            }
            None
        }
    }
}

impl OrderType {
    /// The wire name (`NORMAL`, `LIMIT`, `FAK`, `FOK`, `STOP_LIMIT`,
    /// `STOP_TRAILING`, `OCO`).
    pub fn as_str(&self) -> (s: &'static str)
        ensures
            s@ == order_type_name(*self),
    {
        proof {
            reveal_strlit("NORMAL");
            reveal_strlit("LIMIT");
            reveal_strlit("FAK");
            reveal_strlit("FOK");
            reveal_strlit("STOP_LIMIT");
            reveal_strlit("STOP_TRAILING");
            reveal_strlit("OCO");
        }
        match self {
            OrderType::Normal => "NORMAL",
            OrderType::Limit => "LIMIT",
            OrderType::FillAndKill => "FAK",
            OrderType::FillOrKill => "FOK",
            OrderType::StopLimit => "STOP_LIMIT",
            OrderType::StopTrailing => "STOP_TRAILING",
            OrderType::OneCancelsOther => "OCO",
        }
    }

    /// The order type whose wire name is exactly `s`, if any.
    pub fn parse(s: &str) -> (r: Option<OrderType>)
        ensures
            r matches Some(v) ==> order_type_name(v) == s@,
            r is None ==> forall|v: OrderType| order_type_name(v) != s@,
    {
        proof {
            reveal_strlit("NORMAL");
            reveal_strlit("LIMIT");
            reveal_strlit("FAK");
            reveal_strlit("FOK");
            reveal_strlit("STOP_LIMIT");
            reveal_strlit("STOP_TRAILING");
            reveal_strlit("OCO");
        }
        if str_eq(s, "NORMAL") {
            Some(OrderType::Normal)
        } else if str_eq(s, "LIMIT") {
            Some(OrderType::Limit)
        } else if str_eq(s, "FAK") {
            Some(OrderType::FillAndKill)
        } else if str_eq(s, "FOK") {
            Some(OrderType::FillOrKill)
        } else if str_eq(s, "STOP_LIMIT") {
            Some(OrderType::StopLimit)
        } else if str_eq(s, "STOP_TRAILING") {
            Some(OrderType::StopTrailing)
        } else if str_eq(s, "OCO") {
            Some(OrderType::OneCancelsOther)
        } else {
            None
        }
    }
}

impl OrderActivationCondition {
    /// The wire name (`STOP_ACTPRICE`, `STOP_ACTPRICE_PERC`, `MANUAL`,
    /// `OCO_STOP_ACTPRICE`).
    pub fn as_str(&self) -> (s: &'static str)
        ensures
            s@ == activation_name(*self),
    {
        proof {
            reveal_strlit("STOP_ACTPRICE");
            reveal_strlit("STOP_ACTPRICE_PERC");
            reveal_strlit("MANUAL");
            reveal_strlit("OCO_STOP_ACTPRICE");
        }
        match self {
            OrderActivationCondition::StopActprice => "STOP_ACTPRICE",
            OrderActivationCondition::StopActpricePerc => "STOP_ACTPRICE_PERC",
            OrderActivationCondition::Manual => "MANUAL",
            OrderActivationCondition::OcoStopActprice => "OCO_STOP_ACTPRICE",
        }
    }

    /// The activation condition whose wire name is exactly `s`, if any.
    pub fn parse(s: &str) -> (r: Option<OrderActivationCondition>)
        ensures
            r matches Some(v) ==> activation_name(v) == s@,
            r is None ==> forall|v: OrderActivationCondition| activation_name(v) != s@,
    {
        proof {
            reveal_strlit("STOP_ACTPRICE");
            reveal_strlit("STOP_ACTPRICE_PERC");
            reveal_strlit("MANUAL");
            reveal_strlit("OCO_STOP_ACTPRICE");
        }
        if str_eq(s, "STOP_ACTPRICE") {
            Some(OrderActivationCondition::StopActprice)
        } else if str_eq(s, "STOP_ACTPRICE_PERC") {
            Some(OrderActivationCondition::StopActpricePerc)
        } else if str_eq(s, "MANUAL") {
            Some(OrderActivationCondition::Manual)
        } else if str_eq(s, "OCO_STOP_ACTPRICE") {
            Some(OrderActivationCondition::OcoStopActprice)
        } else {
            None
        }
    }
}

/// The body of `POST /accounts/{accid}/orders`.
#[derive(Debug, Clone)]
pub struct PlaceOrderRequest {
    /// Activation condition of a stop order.
    pub activation_condition: Option<OrderActivationCondition>,
    /// Currency of the price.
    pub currency: Option<Currency>,
    /// `true` if the order may trade in US pre-market hours.
    pub extended_hours: Option<bool>,
    /// The tradable identifier.
    pub identifier: Option<TradableId>,
    /// The market of the tradable.
    pub market_id: MarketId,
    /// The visible part of an iceberg order.
    pub open_volume: Option<i64>,
    /// The order type.
    pub order_type: Option<OrderType>,
    /// Price limit.
    pub price: Option<rust_decimal::Decimal>,
    /// Free-text reference.
    pub reference: Option<String>,
    /// Buy or sell.
    pub side: OrderSide,
    /// Target value of a percentage stop order.
    pub target_value: Option<rust_decimal::Decimal>,
    /// Trigger condition: `<=` or `>=`.
    pub trigger_condition: Option<String>,
    /// Trigger value of a stop order.
    pub trigger_value: Option<rust_decimal::Decimal>,
    /// Cancel date, `YYYY-MM-DD`.
    pub valid_until: Option<String>,
    /// Order volume.
    pub volume: i64,
}

/// The body of `PUT /accounts/{accid}/orders/{order_id}`.
#[derive(Debug, Clone)]
pub struct ModifyOrderRequest {
    /// Currency of the new price; needed when the price changes.
    pub currency: Option<Currency>,
    /// New visible volume.
    pub open_volume: Option<i64>,
    /// New price.
    pub price: Option<rust_decimal::Decimal>,
    /// New total volume.
    pub volume: Option<i64>,
}

} // verus!
