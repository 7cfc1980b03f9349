//! Framing of peer custom messages: a two-byte big-endian type followed by the
//! message body.

use crate::constants::MESSAGE_TYPE;
use vstd::prelude::*;
use vstd::string::StringSliceAdditionalSpecFns;

verus! {

/// The error of `hex::decode`, carried through unopened.
#[verifier::external_type_specification]
#[verifier::external_body]
pub struct ExFromHexError(hex::FromHexError);

/// A custom message split into its type and its body.
#[derive(Debug, Clone, PartialEq, Eq)]
pub struct CustomMessage {
    pub message_type: u16,
    pub body: Vec<u8>,
}

/// Why a payload could not be split into type and body.
#[derive(Debug, PartialEq, Eq, Structural, Clone, Copy)]
pub enum TransportError {
    /// The payload is not a hex string.
    BadHex,
    /// Fewer than two bytes: there is no room for the message type.
    TooShort,
}

/// A custom message as a mathematical value.
pub struct CustomMessageView {
    pub message_type: u16,
    pub body: Seq<u8>,
}

impl View for CustomMessage {
    type V = CustomMessageView;

    open spec fn view(&self) -> CustomMessageView {
        CustomMessageView { message_type: self.message_type, body: self.body@ }
    }
}

/// The big-endian number formed by the first two bytes.
pub open spec fn frame_type(bytes: Seq<u8>) -> u16
    recommends
        bytes.len() >= 2,
{
    (bytes[0] as int * 256 + bytes[1] as int) as u16
}

/// Everything after the two type bytes.
pub open spec fn frame_body(bytes: Seq<u8>) -> Seq<u8>
    recommends
        bytes.len() >= 2,
{
    bytes.subrange(2, bytes.len() as int)
}

/// The value of one ASCII hex digit, in either case; `None` for any other byte.
pub open spec fn hex_digit_value(c: u8) -> Option<u8> {
    if 0x30 <= c <= 0x39 {
        Some((c - 0x30) as u8)
    } else if 0x41 <= c <= 0x46 {
        Some((c - 0x41 + 10) as u8)
    } else if 0x61 <= c <= 0x66 {
        Some((c - 0x61 + 10) as u8)
    } else {
        None
    }
}

/// A hex text has an even number of bytes, each of them a hex digit.
pub open spec fn is_hex_text(text: Seq<u8>) -> bool {
    &&& text.len() % 2 == 0
    &&& forall|i: int| 0 <= i < text.len() ==> hex_digit_value(#[trigger] text[i]) is Some
}

/// The bytes a hex text stands for: each pair of digits is one byte, high
/// digit first.
pub open spec fn hex_bytes(text: Seq<u8>) -> Seq<u8>
    recommends
        is_hex_text(text),
{
    Seq::new(
        text.len() / 2,
        |i: int|
            (16 * hex_digit_value(text[2 * i]).unwrap() + hex_digit_value(
                text[2 * i + 1],
            ).unwrap()) as u8,
    )
}

/// What raw bytes split into: the type from the first two bytes, the body
/// from the rest.
pub open spec fn framed(bytes: Seq<u8>) -> Result<CustomMessageView, TransportError> {
    if bytes.len() < 2 {
        Err(TransportError::TooShort)
    } else {
        Ok(CustomMessageView { message_type: frame_type(bytes), body: frame_body(bytes) })
    }
}

/// What a payload, given as the bytes of its text, decodes to.
pub open spec fn decoded_payload(text: Seq<u8>) -> Result<CustomMessageView, TransportError> {
    if !is_hex_text(text) {
        Err(TransportError::BadHex)
    } else {
        framed(hex_bytes(text))
    }
}

/// Whether an outcome is the given mathematical one.
pub open spec fn outcome_is(
    r: Result<CustomMessage, TransportError>,
    expected: Result<CustomMessageView, TransportError>,
) -> bool {
    match r {
        Ok(message) => expected == Ok::<CustomMessageView, TransportError>(message@),
        Err(e) => expected == Err::<CustomMessageView, TransportError>(e),
    }
}

/// Calls `hex::decode` on the text. The contract restates that function: it
/// succeeds exactly on an even number of hex digits, upper or lower case, and
/// then returns one byte per pair of digits, the high digit first. Which of
/// its errors comes back is left open.
#[verifier::external_body]
fn hex_decode(text: &[u8]) -> (r: Result<Vec<u8>, hex::FromHexError>)
    ensures
        r is Ok <==> is_hex_text(text@),
        r is Ok ==> r->Ok_0@ == hex_bytes(text@),
{
    hex::decode(text)
}

impl CustomMessage {
    /// Decodes a hex payload into a custom message. Fails with `BadHex` where
    /// the payload is not hex text, and with `TooShort` where it stands for
    /// fewer than two bytes.
    pub fn from_hex(payload: &str) -> (r: Result<CustomMessage, TransportError>)
        ensures
            outcome_is(r, decoded_payload(payload.spec_bytes())),
    {
        match hex_decode(payload.as_bytes()) {
            Ok(bytes) => CustomMessage::from_bytes(bytes),
            Err(_) => Err(TransportError::BadHex),
        }
    }

    /// Splits raw bytes into message type and body. Fails exactly when there
    /// are fewer than two bytes.
    pub fn from_bytes(bytes: Vec<u8>) -> (r: Result<CustomMessage, TransportError>)
        ensures
            outcome_is(r, framed(bytes@)),
    {
        if bytes.len() < 2 {
            return Err(TransportError::TooShort);
        }
        let mut bytes = bytes;
        let high: u16 = bytes[0] as u16;
        let low: u16 = bytes[1] as u16;
        let message_type: u16 = high * 256 + low;
        let body = bytes.split_off(2);
        Ok(CustomMessage { message_type, body })
    }
}

/// Why a message is left to the other handlers without being looked into.
#[derive(Debug, PartialEq, Eq, Structural, Clone, Copy)]
pub enum PassReason {
    /// The event carries no payload string.
    NoPayload,
    /// The payload is not a framed message.
    Transport(TransportError),
    /// The message is of a type other than `MESSAGE_TYPE`.
    OtherType,
}

/// What the framer does with an incoming event.
#[derive(Debug, Clone, PartialEq, Eq)]
pub enum Dispatch {
    /// The message is not claimed and nothing of it is decoded.
    PassThrough(PassReason),
    /// The message is of type `MESSAGE_TYPE`; its body goes on to be decoded as JSON.
    Forward(Vec<u8>),
}

/// A `Dispatch` as a mathematical value.
pub enum DispatchView {
    PassThrough(PassReason),
    Forward(Seq<u8>),
}

impl View for Dispatch {
    type V = DispatchView;

    open spec fn view(&self) -> DispatchView {
        match self {
            Dispatch::PassThrough(reason) => DispatchView::PassThrough(*reason),
            Dispatch::Forward(body) => DispatchView::Forward(body@),
        }
    }
}

/// What becomes of an event whose payload, if any, is the given text: only a
/// well-framed message of type `MESSAGE_TYPE` is forwarded, and then as its body.
pub open spec fn dispatched(payload: Option<Seq<u8>>) -> DispatchView {
    match payload {
        None => DispatchView::PassThrough(PassReason::NoPayload),
        Some(text) => match decoded_payload(text) {
            Err(e) => DispatchView::PassThrough(PassReason::Transport(e)),
            Ok(message) => if message.message_type == MESSAGE_TYPE {
                DispatchView::Forward(message.body)
            } else {
                DispatchView::PassThrough(PassReason::OtherType)
            },
        },
    }
}

/// The bytes of an optional payload string.
pub open spec fn payload_text(payload: Option<&str>) -> Option<Seq<u8>> {
    match payload {
        Some(p) => Some(p.spec_bytes()),
        None => None,
    }
}

/// Filters an incoming custom-message event. It reads nothing but the payload
/// and keeps no state.
pub fn dispatch(payload: Option<&str>) -> (r: Dispatch)
    ensures
        r@ == dispatched(payload_text(payload)),
{
    match payload {
        None => Dispatch::PassThrough(PassReason::NoPayload),
        Some(text) => match CustomMessage::from_hex(text) {
            Err(e) => Dispatch::PassThrough(PassReason::Transport(e)),
            Ok(message) => {
                if message.message_type == MESSAGE_TYPE {
                    Dispatch::Forward(message.body)
                } else {
                    Dispatch::PassThrough(PassReason::OtherType)
                }
            },
        },
    }
}

/// A payload that is not hex text, or that stands for fewer than two bytes, is
/// passed through.
pub proof fn lemma_undecodable_payload_passes_through(text: Seq<u8>)
    requires
        !is_hex_text(text) || hex_bytes(text).len() < 2,
    ensures
        dispatched(Some(text)) is PassThrough,
        dispatched(Some(text)) == DispatchView::PassThrough(
            PassReason::Transport(
                if is_hex_text(text) {
                    TransportError::TooShort
                } else {
                    TransportError::BadHex
                },
            ),
        ),
{
}

/// A framed message whose first two bytes are not `MESSAGE_TYPE` is passed
/// through: no body is handed on, so nothing of it is ever decoded as JSON.
pub proof fn lemma_other_type_is_never_forwarded(text: Seq<u8>)
    requires
        is_hex_text(text),
        hex_bytes(text).len() >= 2,
        frame_type(hex_bytes(text)) != MESSAGE_TYPE,
    ensures
        dispatched(Some(text)) == DispatchView::PassThrough(PassReason::OtherType),
{
}

/// A body is forwarded exactly for a well-framed message of type `MESSAGE_TYPE`,
/// and it is then everything after the two type bytes.
pub proof fn lemma_forwarded_exactly_on_type_match(payload: Option<Seq<u8>>)
    ensures
        dispatched(payload) is Forward <==> payload is Some && is_hex_text(payload->Some_0)
            && hex_bytes(payload->Some_0).len() >= 2 && frame_type(hex_bytes(payload->Some_0))
            == MESSAGE_TYPE,
        dispatched(payload) is Forward ==> dispatched(payload)->Forward_0 == frame_body(
            hex_bytes(payload->Some_0),
        ),
{
}

} // verus!
