//! Provider responses and their classification. The wire shape of an order
//! response is the same for an order status reply and an order creation reply,
//! so the kind is told by the method of the request that was issued last.

use crate::constants::{LSPS1_CREATE_ORDER_METHOD, LSPS1_GET_ORDER_METHOD};
use vstd::prelude::*;

verus! {

/// A decoded order response: the order id and the order that the provider
/// offers, in serialized form.
#[derive(Debug, Clone, PartialEq, Eq)]
pub struct OrderResponse {
    pub id: String,
    pub result: String,
}

/// An order response as a mathematical value.
pub struct OrderResponseView {
    pub id: Seq<char>,
    pub result: Seq<char>,
}

impl View for OrderResponse {
    type V = OrderResponseView;

    open spec fn view(&self) -> OrderResponseView {
        OrderResponseView { id: self.id@, result: self.result@ }
    }
}

/// What the two decode attempts on one message body gave. Both are made on
/// every forwarded body, whatever the other gave.
#[derive(Debug, Clone, PartialEq, Eq)]
pub struct DecodedBody {
    /// Whether the body decoded as a node information response.
    pub get_info_decoded: bool,
    /// The body as an order response, where it decoded as one.
    pub order: Option<OrderResponse>,
}

/// The decode attempts as a mathematical value.
pub struct DecodedBodyView {
    pub get_info_decoded: bool,
    pub order: Option<OrderResponseView>,
}

impl View for DecodedBody {
    type V = DecodedBodyView;

    open spec fn view(&self) -> DecodedBodyView {
        DecodedBodyView {
            get_info_decoded: self.get_info_decoded,
            order: match self.order {
                Some(response) => Some(response@),
                None => None,
            },
        }
    }
}

/// What a message body is taken for.
#[derive(Debug, PartialEq, Eq, Structural, Clone, Copy)]
pub enum ResponseKind {
    /// The body is not an order response; it is dropped.
    NotAnOrder,
    /// An order response after an order status request: for information only.
    GetOrder,
    /// An order response after an order creation request: it goes on to validation.
    CreateOrder,
    /// An order response that no order request preceded; it is dropped.
    Unsolicited,
}

/// The kind of a body, from whether it decoded as an order response and from
/// the method that was issued last.
pub open spec fn response_kind(order_decoded: bool, last_method: Option<Seq<char>>) -> ResponseKind {
    if !order_decoded {
        ResponseKind::NotAnOrder
    } else if last_method == Some(LSPS1_GET_ORDER_METHOD@) {
        ResponseKind::GetOrder
    } else if last_method == Some(LSPS1_CREATE_ORDER_METHOD@) {
        ResponseKind::CreateOrder
    } else {
        ResponseKind::Unsolicited
    }
}

/// Classifies a message body.
pub fn classify(order_decoded: bool, last_method: Option<&String>) -> (kind: ResponseKind)
    ensures
        kind == response_kind(
            order_decoded,
            match last_method {
                Some(name) => Some(name@),
                None => None,
            },
        ),
{
    if !order_decoded {
        return ResponseKind::NotAnOrder;
    }
    match last_method {
        None => ResponseKind::Unsolicited,
        Some(name) => {
            if *name == LSPS1_GET_ORDER_METHOD.to_owned() {
                ResponseKind::GetOrder
            } else if *name == LSPS1_CREATE_ORDER_METHOD.to_owned() {
                ResponseKind::CreateOrder
            } else {
                ResponseKind::Unsolicited
            }
        },
    }
}

} // verus!
