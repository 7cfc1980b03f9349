//! Protocol constants shared by the whole crate.

use vstd::prelude::*;

verus! {

/// Custom-message type under which LSPS1 traffic travels; every other type is
/// left to other handlers.
pub const MESSAGE_TYPE: u16 = 0x0001;

/// JSON-RPC method name of an order creation request.
pub const LSPS1_CREATE_ORDER_METHOD: &'static str = "lsps1.create_order";

/// JSON-RPC method name of an order status request.
pub const LSPS1_GET_ORDER_METHOD: &'static str = "lsps1.get_order";

/// The result that every custom-message event is answered with, whatever
/// became of the message: no message is ever claimed for this handler alone.
pub const HOOK_RESULT: &'static str = "continue";

/// The two method names are different strings, so a recorded method can match
/// at most one of them.
pub proof fn lemma_method_names_differ()
    ensures
        LSPS1_CREATE_ORDER_METHOD@ != LSPS1_GET_ORDER_METHOD@,
{
    reveal_strlit("lsps1.create_order");
    reveal_strlit("lsps1.get_order");
    assert(LSPS1_CREATE_ORDER_METHOD@.len() == 18);
    assert(LSPS1_GET_ORDER_METHOD@.len() == 15);
}

} // verus!
