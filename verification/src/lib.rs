//! Buyer side of LSPS1 over peer-to-peer custom messages: framing of incoming
//! messages, classification of provider responses, the pending-order registry,
//! and the decision whether an order response is paid.
//!
//! One incoming event passes through three steps. `framing::dispatch` filters
//! it and hands out the body of a message of the right type. The caller
//! decodes that body as JSON and gives the outcome to `handler::decide`, which
//! classifies it and holds it against the registry. Where the decision is to
//! pay, the caller pays and `engine::settle` names the state that is reached.

pub mod constants;
pub mod engine;
pub mod framing;
pub mod handler;
pub mod registry;
pub mod response;

pub use constants::{
    HOOK_RESULT, LSPS1_CREATE_ORDER_METHOD, LSPS1_GET_ORDER_METHOD, MESSAGE_TYPE,
};
pub use engine::{settle, validate, Settlement, Verdict};
pub use framing::{dispatch, CustomMessage, Dispatch, PassReason, TransportError};
pub use handler::{decide, Decision, Report};
pub use registry::PendingOrderRegistry;
pub use response::{classify, DecodedBody, OrderResponse, ResponseKind};
