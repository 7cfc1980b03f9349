//! Validation of an order creation response against what was requested, and
//! the outcome of the payment that follows.

use crate::registry::PendingOrderRegistry;
use crate::response::{OrderResponse, OrderResponseView};
use vstd::prelude::*;

verus! {

/// The result of holding an order creation response against the registry.
#[derive(Debug, PartialEq, Eq, Structural, Clone, Copy)]
pub enum Verdict {
    /// No order was issued under the response's id: the response is ignored.
    UnknownOrder,
    /// The offered order differs from the requested terms: nothing is paid.
    Rejected,
    /// The offered order is the one that was requested: it is to be paid.
    Approved,
}

/// Whether an offered order is consistent with the requested terms. Terms are
/// opaque here, so they are consistent exactly when they are the same.
pub open spec fn terms_consistent(requested: Seq<char>, offered: Seq<char>) -> bool {
    requested == offered
}

/// The verdict on a response, given the orders that were issued.
pub open spec fn verdict(orders: Map<Seq<char>, Seq<char>>, response: OrderResponseView) -> Verdict {
    if !orders.contains_key(response.id) {
        Verdict::UnknownOrder
    } else if terms_consistent(orders[response.id], response.result) {
        Verdict::Approved
    } else {
        Verdict::Rejected
    }
}

/// Looks the response's id up and compares the offered order with the
/// requested terms. The registry is only read.
pub fn validate(registry: &PendingOrderRegistry, response: &OrderResponse) -> (v: Verdict)
    ensures
        v == verdict(registry@.orders, response@),
{
    match registry.order_terms(response.id.as_str()) {
        None => Verdict::UnknownOrder,
        Some(requested) => {
            if *requested == response.result {
                Verdict::Approved
            } else {
                Verdict::Rejected
            }
        },
    }
}

/// How the payment of an approved order ended. Either way the order stays in
/// the registry, and a failed payment is not tried again.
#[derive(Debug, PartialEq, Eq, Structural, Clone, Copy)]
pub enum Settlement {
    Paid,
    PayFailed,
}

/// The state an approved order reaches once the payment call has returned.
pub fn settle(payment_succeeded: bool) -> (s: Settlement)
    ensures
        s == (if payment_succeeded {
            Settlement::Paid
        } else {
            Settlement::PayFailed
        }),
{
    if payment_succeeded {
        Settlement::Paid
    } else {
        Settlement::PayFailed
    }
}

} // verus!
