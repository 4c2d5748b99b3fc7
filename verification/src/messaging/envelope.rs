//! What travels inside an encrypted pairwise session.

use vstd::prelude::*;
use crate::bytes::to_vec;

verus! {

#[derive(Debug, Clone, Copy, PartialEq, Eq)]
pub enum MessageKind {
    Text,
    Attachment,
    VoiceNote,
    System,
}

/// A user message on the wire.
#[derive(Debug, PartialEq, Eq)]
pub struct WireMessage {
    pub message_id: String,
    pub conversation_id: String,
    pub delivery_order: u64,
    pub sent_at_unix_ms: i64,
    pub kind: MessageKind,
    pub body: Vec<u8>,
}

/// The abstract value of a wire message.
pub struct WireView {
    pub message_id: Seq<char>,
    pub conversation_id: Seq<char>,
    pub delivery_order: u64,
    pub sent_at_unix_ms: i64,
    pub kind: MessageKind,
    pub body: Seq<u8>,
}

impl View for WireMessage {
    type V = WireView;

    open spec fn view(&self) -> WireView {
        WireView {
            message_id: self.message_id@,
            conversation_id: self.conversation_id@,
            delivery_order: self.delivery_order,
            sent_at_unix_ms: self.sent_at_unix_ms,
            kind: self.kind,
            body: self.body@,
        }
    }
}

impl WireMessage {
    pub fn duplicate(&self) -> (r: WireMessage)
        ensures
            r@ == self@,
    {
        WireMessage {
            message_id: self.message_id.clone(),
            conversation_id: self.conversation_id.clone(),
            delivery_order: self.delivery_order,
            sent_at_unix_ms: self.sent_at_unix_ms,
            kind: self.kind,
            body: to_vec(self.body.as_slice()),
        }
    }
}

/// An acknowledgement of one delivered message.
#[derive(Debug, PartialEq, Eq)]
pub struct WireAck {
    pub message_id: String,
    pub delivery_order: u64,
}

/// The body of a messaging envelope: a message or an acknowledgement.
#[derive(Debug, PartialEq, Eq)]
pub enum MessagingEnvelopeBody {
    Message(WireMessage),
    Ack(WireAck),
}

/// A versioned messaging envelope.
#[derive(Debug, PartialEq, Eq)]
pub struct MessagingEnvelope {
    pub version: u8,
    pub body: MessagingEnvelopeBody,
}

} // verus!
