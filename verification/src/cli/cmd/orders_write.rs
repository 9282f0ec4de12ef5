//! `nordnet orders place|modify|activate|cancel`: the arguments, and the
//! request bodies made of them. Prices and trigger values are given as decimal text and read
//! with `rust_decimal`.

use vstd::prelude::*;
use crate::ids::{MarketId, TradableId};
use crate::models::orders::{
    ModifyOrderRequest,
    OrderActivationCondition,
    OrderSide,
    OrderType,
    PlaceOrderRequest,
};
use crate::models::shared::Currency;
use crate::text::opt_string_view;

verus! {

/// What `Decimal::from_str` reads from `s`: the number, when `s` is a
/// decimal number (possibly in scientific notation) within the range and
/// precision of a `Decimal`; none otherwise. Reading is a function of the
/// text alone.
pub uninterp spec fn decimal_value(s: Seq<char>) -> Option<rust_decimal::Decimal>;

/// Whether `Decimal::from_str` accepts `s`.
pub open spec fn decimal_parses(s: Seq<char>) -> bool {
    decimal_value(s) is Some
}

/// `rust_decimal::Decimal::from_str`. It succeeds exactly on the texts that
/// it reads, and gives the number read (that is the name
/// [`decimal_value`]); its error is kept as its message.
#[verifier::external_body]
fn decimal_from_str(s: &str) -> (r: Result<rust_decimal::Decimal, String>)
    ensures
        r is Ok <==> decimal_parses(s@),
        r matches Ok(d) ==> decimal_value(s@) == Some(d),
{
    <rust_decimal::Decimal as core::str::FromStr>::from_str(s).map_err(|e| e.to_string())
}

/// Why order arguments were refused.
#[derive(Debug, Clone, PartialEq, Eq)]
pub enum OrderArgsError {
    /// A decimal argument that `rust_decimal` does not read: the text as
    /// given and the parser's message.
    InvalidDecimal { input: String, reason: String },
}

/// Whether an optional decimal argument is absent or readable.
pub open spec fn decimal_ok(s: Option<String>) -> bool {
    match s {
        Some(v) => decimal_parses(v@),
        None => true,
    }
}

/// The number an optional decimal argument stands for: absent stays
/// absent, a given text is the number read from it.
pub open spec fn decimal_arg(s: Option<String>) -> Option<rust_decimal::Decimal> {
    match s {
        Some(v) => decimal_value(v@),
        None => None,
    }
}

/// `e` reports the decimal argument `s`.
pub open spec fn reports(e: OrderArgsError, s: Option<String>) -> bool {
    match e {
        OrderArgsError::InvalidDecimal { input, reason: _ } => s matches Some(v) && input@ == v@,
    }
}

/// Read an optional decimal argument: absent stays absent.
pub fn parse_decimal_opt(s: &Option<String>) -> (r: Result<Option<rust_decimal::Decimal>, OrderArgsError>)
    ensures
        r is Ok <==> decimal_ok(*s),
        s is None ==> r matches Ok(None),
        s is Some && r is Ok ==> r matches Ok(Some(_)),
        r matches Ok(d) ==> d == decimal_arg(*s),
        r matches Err(e) ==> reports(e, *s),
{
    match s {
        None => Ok(None),
        Some(v) => match decimal_from_str(v.as_str()) {
            Ok(d) => Ok(Some(d)),
            Err(reason) => Err(OrderArgsError::InvalidDecimal { input: v.clone(), reason }),
        },
    }
}

/// The arguments of `nordnet orders place`.
#[derive(Debug, Clone)]
pub struct PlaceArgs {
    pub accid: i64,
    pub market_id: i64,
    pub side: OrderSide,
    pub volume: i64,
    pub activation_condition: Option<OrderActivationCondition>,
    pub currency: Option<String>,
    pub extended_hours: Option<bool>,
    pub identifier: Option<String>,
    pub open_volume: Option<i64>,
    pub order_type: Option<OrderType>,
    pub price: Option<String>,
    pub reference: Option<String>,
    pub target_value: Option<String>,
    pub trigger_condition: Option<String>,
    pub trigger_value: Option<String>,
    pub valid_until: Option<String>,
}

/// The view of an optional currency.
pub open spec fn currency_view(c: Option<Currency>) -> Option<Seq<char>> {
    match c {
        Some(x) => Some(x.0@),
        None => None,
    }
}

/// The view of an optional tradable identifier.
pub open spec fn identifier_view(t: Option<TradableId>) -> Option<Seq<char>> {
    match t {
        Some(x) => Some(x.0@),
        None => None,
    }
}

fn currency_of(s: Option<String>) -> (r: Option<Currency>)
    ensures
        currency_view(r) == opt_string_view(s),
{
    match s {
        Some(v) => Some(Currency(v)),
        None => None,
    }
}

/// `q` is the order body for `args`: every field carried over as given,
/// and each decimal field the number read from its own argument.
pub open spec fn places(args: PlaceArgs, q: PlaceOrderRequest) -> bool {
    &&& q.activation_condition == args.activation_condition
    &&& currency_view(q.currency) == opt_string_view(args.currency)
    &&& q.extended_hours == args.extended_hours
    &&& identifier_view(q.identifier) == opt_string_view(args.identifier)
    &&& q.market_id.0 == args.market_id
    &&& q.open_volume == args.open_volume
    &&& q.order_type == args.order_type
    &&& q.price is Some == args.price is Some
    &&& q.price == decimal_arg(args.price)
    &&& opt_string_view(q.reference) == opt_string_view(args.reference)
    &&& q.side == args.side
    &&& q.target_value is Some == args.target_value is Some
    &&& q.target_value == decimal_arg(args.target_value)
    &&& opt_string_view(q.trigger_condition) == opt_string_view(args.trigger_condition)
    &&& q.trigger_value is Some == args.trigger_value is Some
    &&& q.trigger_value == decimal_arg(args.trigger_value)
    &&& opt_string_view(q.valid_until) == opt_string_view(args.valid_until)
    &&& q.volume == args.volume
}

/// The body of `POST /accounts/{accid}/orders` for the arguments: each
/// decimal argument read in turn (price, target value, trigger value), the
/// first unreadable one refused.
pub fn place_order_request(args: PlaceArgs) -> (r: Result<PlaceOrderRequest, OrderArgsError>)
    ensures
        r is Ok <==> decimal_ok(args.price) && decimal_ok(args.target_value) && decimal_ok(args.trigger_value),
        r matches Err(e) ==> if !decimal_ok(args.price) {
            reports(e, args.price)
        } else if !decimal_ok(args.target_value) {
            reports(e, args.target_value)
        } else {
            reports(e, args.trigger_value)
        },
        r matches Ok(q) ==> places(args, q),
{
    let price = match parse_decimal_opt(&args.price) {
        Ok(p) => p,
        Err(e) => {
            return Err(e);
        },
    };
    let target_value = match parse_decimal_opt(&args.target_value) {
        Ok(p) => p,
        Err(e) => {
            return Err(e);
        },
    };
    let trigger_value = match parse_decimal_opt(&args.trigger_value) {
        Ok(p) => p,
        Err(e) => {
            return Err(e);
        },
    };
    let identifier = match args.identifier {
        Some(v) => Some(TradableId(v)),
        None => None,
    };
    Ok(PlaceOrderRequest {
        activation_condition: args.activation_condition,
        currency: currency_of(args.currency),
        extended_hours: args.extended_hours,
        identifier,
        market_id: MarketId(args.market_id),
        open_volume: args.open_volume,
        order_type: args.order_type,
        price,
        reference: args.reference,
        side: args.side,
        target_value,
        trigger_condition: args.trigger_condition,
        trigger_value,
        valid_until: args.valid_until,
        volume: args.volume,
    })
}

/// An account and one of its orders (`activate`, `cancel`).
#[derive(Debug, Clone, Copy, PartialEq, Eq, Structural)]
pub struct OrderRefArgs {
    pub accid: i64,
    pub order_id: i64,
}

/// The arguments of `nordnet orders modify`.
#[derive(Debug, Clone)]
pub struct ModifyArgs {
    pub accid: i64,
    pub order_id: i64,
    pub price: Option<String>,
    pub currency: Option<String>,
    pub volume: Option<i64>,
    pub open_volume: Option<i64>,
}

/// The body of `PUT /accounts/{accid}/orders/{order_id}` for the
/// arguments; an unreadable price is refused.
pub fn modify_order_request(args: ModifyArgs) -> (r: Result<ModifyOrderRequest, OrderArgsError>)
    ensures
        r is Ok <==> decimal_ok(args.price),
        r matches Err(e) ==> reports(e, args.price),
        r matches Ok(q) ==> {
            &&& currency_view(q.currency) == opt_string_view(args.currency)
            &&& q.open_volume == args.open_volume
            &&& q.price is Some == args.price is Some
            &&& q.price == decimal_arg(args.price)
            &&& q.volume == args.volume
        },
{
    let price = match parse_decimal_opt(&args.price) {
        Ok(p) => p,
        Err(e) => {
            return Err(e);
        },
    };
    Ok(ModifyOrderRequest {
        currency: currency_of(args.currency),
        open_volume: args.open_volume,
        price,
        volume: args.volume,
    })
}

/// The write-side operations of `nordnet orders`.
#[derive(Debug, Clone)]
pub enum Cmd {
    Place(PlaceArgs),
    Modify(ModifyArgs),
    Activate(OrderRefArgs),
    Cancel(OrderRefArgs),
}

/// Law: in an order body, the price is the number written in the price
/// argument, the target value the one in the target-value argument and the
/// trigger value the one in the trigger-value argument; an argument left out
/// leaves its field out.
pub proof fn placed_decimals_read_their_own_argument(args: PlaceArgs, q: PlaceOrderRequest)
    requires
        places(args, q),
    ensures
        args.price matches Some(t) ==> q.price == decimal_value(t@),
        args.target_value matches Some(t) ==> q.target_value == decimal_value(t@),
        args.trigger_value matches Some(t) ==> q.trigger_value == decimal_value(t@),
        args.price is None ==> q.price is None,
        args.target_value is None ==> q.target_value is None,
        args.trigger_value is None ==> q.trigger_value is None,
{
}

/// Law: the price never takes another argument's number: when the price
/// and the trigger value (or the target value) are written as different
/// numbers, the body's price differs from its trigger value (or target
/// value); and two bodies whose price arguments read alike have the same
/// price, whatever their other arguments.
pub proof fn placed_price_is_not_another_argument(
    a1: PlaceArgs,
    q1: PlaceOrderRequest,
    a2: PlaceArgs,
    q2: PlaceOrderRequest,
)
    requires
        places(a1, q1),
        places(a2, q2),
    ensures
        (a1.price matches Some(p) && a1.trigger_value matches Some(t) && decimal_value(p@) != decimal_value(t@))
            ==> q1.price != q1.trigger_value,
        (a1.price matches Some(p) && a1.target_value matches Some(t) && decimal_value(p@) != decimal_value(t@))
            ==> q1.price != q1.target_value,
        (a1.price matches Some(p1) && a2.price matches Some(p2) && p1@ == p2@) ==> q1.price == q2.price,
{
}

} // verus!
