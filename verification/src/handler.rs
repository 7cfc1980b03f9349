//! What is done about a forwarded message once its body has been decoded:
//! classification, validation against the registry, and the decision to pay.

use crate::constants::LSPS1_CREATE_ORDER_METHOD;
use crate::engine::{terms_consistent, validate, verdict, Verdict};
use crate::registry::{PendingOrderRegistry, RegistryView};
use crate::response::{
    classify, response_kind, DecodedBody, OrderResponse, OrderResponseView, ResponseKind,
};
use vstd::prelude::*;

verus! {

/// What is to be done about a decoded message body.
#[derive(Debug, Clone, PartialEq, Eq)]
pub enum Decision {
    /// The body is not an order response: this is logged and the message dropped.
    NotAnOrder,
    /// A reply to an order status request: it is logged for information, and
    /// nothing is validated or paid.
    GetOrderInfo,
    /// An order response that no order request preceded: the message is dropped.
    Unsolicited,
    /// No order was issued under the response's id: nothing is done and
    /// nothing is reported.
    UnknownOrder,
    /// The response does not match what was requested: a validation failure is
    /// reported and nothing is paid.
    Rejected,
    /// The response matches what was requested: the order it holds is to be
    /// paid, once.
    Pay(OrderResponse),
}

/// A `Decision` as a mathematical value.
pub enum DecisionView {
    NotAnOrder,
    GetOrderInfo,
    Unsolicited,
    UnknownOrder,
    Rejected,
    Pay(OrderResponseView),
}

impl View for Decision {
    type V = DecisionView;

    open spec fn view(&self) -> DecisionView {
        match self {
            Decision::NotAnOrder => DecisionView::NotAnOrder,
            Decision::GetOrderInfo => DecisionView::GetOrderInfo,
            Decision::Unsolicited => DecisionView::Unsolicited,
            Decision::UnknownOrder => DecisionView::UnknownOrder,
            Decision::Rejected => DecisionView::Rejected,
            Decision::Pay(response) => DecisionView::Pay(response@),
        }
    }
}

/// What came of one decoded message body.
#[derive(Debug, Clone, PartialEq, Eq)]
pub struct Report {
    /// Whether the body decoded as a node information response; this is only
    /// logged and has no bearing on the decision.
    pub get_info_decoded: bool,
    /// What is to be done about the body as an order response.
    pub decision: Decision,
}

/// The decision on a body that decoded to `order`, in a given registry.
pub open spec fn decision(registry: RegistryView, order: Option<OrderResponseView>) -> DecisionView {
    match response_kind(order is Some, registry.last_method) {
        ResponseKind::NotAnOrder => DecisionView::NotAnOrder,
        ResponseKind::GetOrder => DecisionView::GetOrderInfo,
        ResponseKind::Unsolicited => DecisionView::Unsolicited,
        ResponseKind::CreateOrder => match verdict(registry.orders, order->Some_0) {
            Verdict::UnknownOrder => DecisionView::UnknownOrder,
            Verdict::Rejected => DecisionView::Rejected,
            Verdict::Approved => DecisionView::Pay(order->Some_0),
        },
    }
}

/// Decides what to do about a decoded message body. The registry is only
/// read: no decision adds, changes or removes an order.
pub fn decide(registry: &PendingOrderRegistry, decoded: DecodedBody) -> (r: Report)
    ensures
        r.get_info_decoded == decoded.get_info_decoded,
        r.decision@ == decision(registry@, decoded@.order),
{
    let get_info_decoded = decoded.get_info_decoded;
    let kind = classify(decoded.order.is_some(), registry.last_method());
    let decision = match decoded.order {
        None => Decision::NotAnOrder,
        Some(response) => match kind {
            ResponseKind::NotAnOrder => Decision::NotAnOrder,
            ResponseKind::GetOrder => Decision::GetOrderInfo,
            ResponseKind::Unsolicited => Decision::Unsolicited,
            ResponseKind::CreateOrder => match validate(registry, &response) {
                Verdict::UnknownOrder => Decision::UnknownOrder,
                Verdict::Rejected => Decision::Rejected,
                Verdict::Approved => Decision::Pay(response),
            },
        },
    };
    Report { get_info_decoded, decision }
}

/// The number of payments that a run of deliveries asks for, each delivery
/// given as what its body decoded to. Every delivery meets the same registry,
/// since deciding never changes it.
pub open spec fn payments_requested(
    registry: RegistryView,
    deliveries: Seq<Option<OrderResponseView>>,
) -> nat
    decreases deliveries.len(),
{
    if deliveries.len() == 0 {
        0
    } else {
        payments_requested(registry, deliveries.drop_last()) + (if decision(
            registry,
            deliveries.last(),
        ) is Pay {
            1nat
        } else {
            0nat
        })
    }
}

/// A response to an order creation request whose id is in the registry and
/// whose order is consistent with the requested terms is paid, exactly once.
pub proof fn lemma_matching_order_is_paid_once(registry: RegistryView, response: OrderResponseView)
    requires
        registry.last_method == Some(LSPS1_CREATE_ORDER_METHOD@),
        registry.orders.contains_key(response.id),
        terms_consistent(registry.orders[response.id], response.result),
    ensures
        decision(registry, Some(response)) == DecisionView::Pay(response),
        payments_requested(registry, seq![Some(response)]) == 1,
{
    crate::constants::lemma_method_names_differ();
    lemma_single_delivery(registry, Some(response));
}

/// A response to an order creation request whose id is not in the registry is
/// ignored: nothing is paid and no failure is reported.
pub proof fn lemma_unknown_order_is_ignored(registry: RegistryView, response: OrderResponseView)
    requires
        registry.last_method == Some(LSPS1_CREATE_ORDER_METHOD@),
        !registry.orders.contains_key(response.id),
    ensures
        decision(registry, Some(response)) == DecisionView::UnknownOrder,
        payments_requested(registry, seq![Some(response)]) == 0,
{
    crate::constants::lemma_method_names_differ();
    lemma_single_delivery(registry, Some(response));
}

/// A response to an order creation request whose order is not consistent with
/// the requested terms is rejected: nothing is paid.
pub proof fn lemma_mismatching_order_is_rejected(
    registry: RegistryView,
    response: OrderResponseView,
)
    requires
        registry.last_method == Some(LSPS1_CREATE_ORDER_METHOD@),
        registry.orders.contains_key(response.id),
        !terms_consistent(registry.orders[response.id], response.result),
    ensures
        decision(registry, Some(response)) == DecisionView::Rejected,
        payments_requested(registry, seq![Some(response)]) == 0,
{
    crate::constants::lemma_method_names_differ();
    lemma_single_delivery(registry, Some(response));
}

/// There is no guard against duplicates: a response that is paid is paid again
/// each time it is delivered, so `n` deliveries of it ask for `n` payments.
pub proof fn lemma_duplicate_delivery_pays_again(
    registry: RegistryView,
    response: OrderResponseView,
    n: nat,
)
    requires
        decision(registry, Some(response)) is Pay,
    ensures
        payments_requested(registry, Seq::new(n, |i: int| Some(response))) == n,
    decreases n,
{
    let deliveries = Seq::new(n, |i: int| Some(response));
    if n > 0 {
        let shorter = Seq::new((n - 1) as nat, |i: int| Some(response));
        assert(deliveries.drop_last() =~= shorter);
        assert(deliveries.last() == Some(response));
        lemma_duplicate_delivery_pays_again(registry, response, (n - 1) as nat);
    }
}

/// One delivery asks for one payment if its decision is to pay, and for none
/// otherwise.
proof fn lemma_single_delivery(registry: RegistryView, order: Option<OrderResponseView>)
    ensures
        payments_requested(registry, seq![order]) == (if decision(registry, order) is Pay {
            1nat
        } else {
            0nat
        }),
{
    let deliveries = seq![order];
    assert(deliveries.drop_last() =~= Seq::<Option<OrderResponseView>>::empty());
    assert(deliveries.last() == order);
    reveal_with_fuel(payments_requested, 2);
}

} // verus!
