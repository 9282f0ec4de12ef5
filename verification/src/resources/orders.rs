//! The `orders` group. Orders are placed and modified with form-encoded
//! bodies, as the API documents every body parameter as form data.

use vstd::prelude::*;
use crate::client::{ApiRequest, Body, BlankBody, Client, Method, is_bodiless, is_get};
use crate::ids::{AccountId, OrderId};
use crate::models::orders::{ModifyOrderRequest, PlaceOrderRequest};
use crate::resources::accounts::{account_path, account_path_string};
use crate::resources::{bool_str, bool_text};
use crate::text::{int_decimal, push_i64, push_str};

verus! {

/// `/accounts/{accid}/orders/{order_id}{suffix}`.
pub open spec fn order_path(accid: AccountId, order_id: OrderId, suffix: Seq<char>) -> Seq<char> {
    account_path(accid, "/orders/"@) + int_decimal(order_id.0 as int) + suffix
}

fn order_path_string(accid: AccountId, order_id: OrderId, suffix: &str) -> (s: String)
    ensures
        s@ == order_path(accid, order_id, suffix@),
{
    let mut s = account_path_string(accid, "/orders/");
    push_i64(&mut s, order_id.0);
    push_str(&mut s, suffix);
    assert(s@ =~= order_path(accid, order_id, suffix@));
    s
}

/// The path of [`Client::list_orders`].
pub open spec fn list_orders_path(accid: AccountId, deleted: Option<bool>) -> Seq<char> {
    match deleted {
        Some(d) => account_path(accid, "/orders"@) + "?deleted="@ + bool_text(d),
        None => account_path(accid, "/orders"@),
    }
}

impl Client {
    /// `GET /accounts/{accid}/orders` — the orders of an account;
    /// `deleted: Some(true)` also lists those deleted today.
    pub fn list_orders(&self, accid: AccountId, deleted: Option<bool>) -> (r: ApiRequest<()>)
        ensures
            is_get(r, list_orders_path(accid, deleted), BlankBody::EmptyResult),
    {
        let mut path = account_path_string(accid, "/orders");
        if let Some(d) = deleted {
            push_str(&mut path, "?deleted=");
            push_str(&mut path, bool_str(d));
        }
        self.get(path.as_str()).empty_on_blank()
    }

    /// `POST /accounts/{accid}/orders` — a new order, form-encoded.
    pub fn place_order<'a>(&self, accid: AccountId, request: &'a PlaceOrderRequest) -> (r: ApiRequest<
        &'a PlaceOrderRequest,
    >)
        ensures
            r.method == Method::Post,
            r.path@ == account_path(accid, "/orders"@),
            r.body == Body::Form(request),
            r.blank_body == BlankBody::Decode,
    {
        let path = account_path_string(accid, "/orders");
        self.post_form(path.as_str(), request)
    }

    /// `PUT /accounts/{accid}/orders/{order_id}` — a new price or volume,
    /// form-encoded.
    pub fn modify_order<'a>(
        &self,
        accid: AccountId,
        order_id: OrderId,
        request: &'a ModifyOrderRequest,
    ) -> (r: ApiRequest<&'a ModifyOrderRequest>)
        ensures
            r.method == Method::Put,
            r.path@ == order_path(accid, order_id, Seq::empty()),
            r.body == Body::Form(request),
            r.blank_body == BlankBody::Decode,
    {
        let path = order_path_string(accid, order_id, "");
        proof {
            reveal_strlit("");
        }
        self.put_form(path.as_str(), request)
    }

    /// `PUT /accounts/{accid}/orders/{order_id}/activate` with no body.
    pub fn activate_order(&self, accid: AccountId, order_id: OrderId) -> (r: ApiRequest<()>)
        ensures
            is_bodiless(r, Method::Put, order_path(accid, order_id, "/activate"@), BlankBody::Decode),
    {
        let path = order_path_string(accid, order_id, "/activate");
        self.put_empty(path.as_str())
    }

    /// `DELETE /accounts/{accid}/orders/{order_id}`.
    pub fn cancel_order(&self, accid: AccountId, order_id: OrderId) -> (r: ApiRequest<()>)
        ensures
            is_bodiless(r, Method::Delete, order_path(accid, order_id, Seq::empty()), BlankBody::Decode),
    {
        let path = order_path_string(accid, order_id, "");
        proof {
            reveal_strlit("");
        }
        self.delete(path.as_str())
    }
}

} // verus!
