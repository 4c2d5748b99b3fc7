//! The pairwise messaging engine: outbound queue with delivery orders,
//! acknowledgement handling, ordered inbound delivery with buffering of
//! out-of-order messages, duplicate detection and bounded replay history.
//!
//! The engine decides; moving bytes through the secure session is the
//! caller's part.  For every inbound message the caller asks `classify_incoming`,
//! sends the acknowledgement it calls for, and then hands a new message to
//! `accept_incoming`.

use vstd::prelude::*;
use crate::bytes::to_vec;
use crate::device::{Device, DeviceView};
use crate::ids::{DeviceId, MemberId};
use crate::maps::{OrderMap, StrMap};
use crate::messaging::envelope::{MessageKind, WireAck, WireMessage, WireView};
use crate::messaging::error::{is_messaging_identifier, validate_identifier, MessagingError};
use crate::text::{decimal_spec, owned, push_decimal};

verus! {

/// Largest gap ahead of the next expected order that an inbound message may have.
pub const MAX_INCOMING_ORDER_GAP: u64 = 1024;

/// How many delivery orders of inbound history stay tracked for replay detection.
pub const MAX_TRACKED_INCOMING_ORDERS: u64 = 4096;

/// An outbound message awaiting acknowledgement.
#[derive(Debug, PartialEq, Eq)]
pub struct OutgoingMessage {
    message_id: String,
    conversation_id: String,
    delivery_order: u64,
    sent_at_unix_ms: i64,
    kind: MessageKind,
    body: Vec<u8>,
    attempt_count: u32,
}

pub struct OutgoingView {
    pub message_id: Seq<char>,
    pub conversation_id: Seq<char>,
    pub delivery_order: u64,
    pub sent_at_unix_ms: i64,
    pub kind: MessageKind,
    pub body: Seq<u8>,
    pub attempt_count: u32,
}

impl View for OutgoingMessage {
    type V = OutgoingView;

    closed spec fn view(&self) -> OutgoingView {
        OutgoingView {
            message_id: self.message_id@,
            conversation_id: self.conversation_id@,
            delivery_order: self.delivery_order,
            sent_at_unix_ms: self.sent_at_unix_ms,
            kind: self.kind,
            body: self.body@,
            attempt_count: self.attempt_count,
        }
    }
}

impl OutgoingMessage {
    /// Rebuilds a message from its parts, as a stored queue does.
    pub fn from_parts(message_id: &str, conversation_id: &str, delivery_order: u64, sent_at_unix_ms: i64, kind: MessageKind, body: Vec<u8>, attempt_count: u32) -> (r: OutgoingMessage)
        ensures
            r@ == (OutgoingView {
                message_id: message_id@,
                conversation_id: conversation_id@,
                delivery_order,
                sent_at_unix_ms,
                kind,
                body: body@,
                attempt_count,
            }),
    {
        OutgoingMessage {
            message_id: owned(message_id),
            conversation_id: owned(conversation_id),
            delivery_order,
            sent_at_unix_ms,
            kind,
            body,
            attempt_count,
        }
    }

    pub fn message_id(&self) -> (r: &str)
        ensures
            r@ == self@.message_id,
    {
        self.message_id.as_str()
    }

    pub fn conversation_id(&self) -> (r: &str)
        ensures
            r@ == self@.conversation_id,
    {
        self.conversation_id.as_str()
    }

    pub fn delivery_order(&self) -> (r: u64)
        ensures
            r == self@.delivery_order,
    {
        self.delivery_order
    }

    pub fn sent_at_unix_ms(&self) -> (r: i64)
        ensures
            r == self@.sent_at_unix_ms,
    {
        self.sent_at_unix_ms
    }

    pub fn kind(&self) -> (r: MessageKind)
        ensures
            r == self@.kind,
    {
        self.kind
    }

    pub fn body(&self) -> (r: &[u8])
        ensures
            r@ == self@.body,
    {
        self.body.as_slice()
    }

    pub fn attempt_count(&self) -> (r: u32)
        ensures
            r == self@.attempt_count,
    {
        self.attempt_count
    }

    pub fn duplicate(&self) -> (r: OutgoingMessage)
        ensures
            r@ == self@,
    {
        OutgoingMessage {
            message_id: self.message_id.clone(),
            conversation_id: self.conversation_id.clone(),
            delivery_order: self.delivery_order,
            sent_at_unix_ms: self.sent_at_unix_ms,
            kind: self.kind,
            body: to_vec(self.body.as_slice()),
            attempt_count: self.attempt_count,
        }
    }

    /// The wire form of this message.
    pub fn to_wire(&self) -> (r: WireMessage)
        ensures
            r@ == outgoing_wire(self@),
    {
        WireMessage {
            message_id: self.message_id.clone(),
            conversation_id: self.conversation_id.clone(),
            delivery_order: self.delivery_order,
            sent_at_unix_ms: self.sent_at_unix_ms,
            kind: self.kind,
            body: to_vec(self.body.as_slice()),
        }
    }
}

/// The wire form of an outbound message.
pub open spec fn outgoing_wire(m: OutgoingView) -> WireView {
    WireView {
        message_id: m.message_id,
        conversation_id: m.conversation_id,
        delivery_order: m.delivery_order,
        sent_at_unix_ms: m.sent_at_unix_ms,
        kind: m.kind,
        body: m.body,
    }
}

/// An inbound message released to the application in delivery order.
#[derive(Debug, PartialEq, Eq)]
pub struct DeliveredMessage {
    message_id: String,
    conversation_id: String,
    delivery_order: u64,
    sent_at_unix_ms: i64,
    sender_member_id: MemberId,
    sender_device_id: DeviceId,
    kind: MessageKind,
    body: Vec<u8>,
}

pub struct DeliveredView {
    pub message_id: Seq<char>,
    pub conversation_id: Seq<char>,
    pub delivery_order: u64,
    pub sent_at_unix_ms: i64,
    pub sender_member_id: Seq<char>,
    pub sender_device_id: Seq<char>,
    pub kind: MessageKind,
    pub body: Seq<u8>,
}

impl View for DeliveredMessage {
    type V = DeliveredView;

    closed spec fn view(&self) -> DeliveredView {
        DeliveredView {
            message_id: self.message_id@,
            conversation_id: self.conversation_id@,
            delivery_order: self.delivery_order,
            sent_at_unix_ms: self.sent_at_unix_ms,
            sender_member_id: self.sender_member_id@,
            sender_device_id: self.sender_device_id@,
            kind: self.kind,
            body: self.body@,
        }
    }
}

/// What delivering a wire message from `remote` yields.
pub open spec fn delivered_view(w: WireView, remote: DeviceView) -> DeliveredView {
    DeliveredView {
        message_id: w.message_id,
        conversation_id: w.conversation_id,
        delivery_order: w.delivery_order,
        sent_at_unix_ms: w.sent_at_unix_ms,
        sender_member_id: remote.owner_member_id,
        sender_device_id: remote.device_id,
        kind: w.kind,
        body: w.body,
    }
}

impl DeliveredMessage {
    pub fn message_id(&self) -> (r: &str)
        ensures
            r@ == self@.message_id,
    {
        self.message_id.as_str()
    }

    pub fn conversation_id(&self) -> (r: &str)
        ensures
            r@ == self@.conversation_id,
    {
        self.conversation_id.as_str()
    }

    pub fn delivery_order(&self) -> (r: u64)
        ensures
            r == self@.delivery_order,
    {
        self.delivery_order
    }

    pub fn sent_at_unix_ms(&self) -> (r: i64)
        ensures
            r == self@.sent_at_unix_ms,
    {
        self.sent_at_unix_ms
    }

    pub fn sender_member_id(&self) -> (r: &MemberId)
        ensures
            r@ == self@.sender_member_id,
    {
        &self.sender_member_id
    }

    pub fn sender_device_id(&self) -> (r: &DeviceId)
        ensures
            r@ == self@.sender_device_id,
    {
        &self.sender_device_id
    }

    pub fn kind(&self) -> (r: MessageKind)
        ensures
            r == self@.kind,
    {
        self.kind
    }

    pub fn body(&self) -> (r: &[u8])
        ensures
            r@ == self@.body,
    {
        self.body.as_slice()
    }
}

/// The result of handling one inbound envelope.
#[derive(Debug, PartialEq, Eq)]
pub struct ReceiveOutcome {
    delivered_messages: Vec<DeliveredMessage>,
    acknowledged_message_ids: Vec<String>,
}

impl ReceiveOutcome {
    pub closed spec fn delivered(&self) -> Seq<DeliveredView> {
        self.delivered_messages@.map_values(|m: DeliveredMessage| m@)
    }

    pub closed spec fn acknowledged(&self) -> Seq<Seq<char>> {
        self.acknowledged_message_ids@.map_values(|s: String| s@)
    }

    pub fn empty() -> (r: ReceiveOutcome)
        ensures
            r.delivered() == Seq::<DeliveredView>::empty(),
            r.acknowledged() == Seq::<Seq<char>>::empty(),
    {
        let r = ReceiveOutcome { delivered_messages: Vec::new(), acknowledged_message_ids: Vec::new() };
        assert(r.delivered() =~= Seq::<DeliveredView>::empty());
        assert(r.acknowledged() =~= Seq::<Seq<char>>::empty());
        r
    }

    pub fn delivered_messages(&self) -> (r: &[DeliveredMessage])
        ensures
            r@.map_values(|m: DeliveredMessage| m@) == self.delivered(),
    {
        self.delivered_messages.as_slice()
    }

    pub fn acknowledged_message_ids(&self) -> (r: &[String])
        ensures
            r@.map_values(|s: String| s@) == self.acknowledged(),
    {
        self.acknowledged_message_ids.as_slice()
    }

    pub fn is_idle(&self) -> (r: bool)
        ensures
            r == (self.delivered().len() == 0 && self.acknowledged().len() == 0),
    {
        self.delivered_messages.len() == 0 && self.acknowledged_message_ids.len() == 0
    }
}

/// A portable snapshot of the outbound queue, kept across restarts.
#[derive(Debug)]
pub struct PendingQueueSnapshot {
    pub next_outgoing_order: u64,
    pub pending_messages: Vec<OutgoingMessage>,
}

/// What to do with an inbound message before anything else happens.
#[derive(Debug, Clone, Copy, PartialEq, Eq)]
pub enum IncomingAction {
    /// Seen before: acknowledge it again and deliver nothing.
    AcknowledgeDuplicate,
    /// New: acknowledge it, then record it with `accept_incoming`.
    AcknowledgeAndAccept,
}

/// The abstract state of the engine.
pub struct EngineView {
    pub local_device: DeviceView,
    pub remote_device: DeviceView,
    pub next_outgoing_order: u64,
    pub next_expected_incoming_order: u64,
    pub pending: Map<u64, OutgoingView>,
    pub pending_index: Map<Seq<char>, u64>,
    pub outgoing_ids: Set<Seq<char>>,
    pub incoming_orders: Map<Seq<char>, u64>,
    pub incoming_index: Map<u64, Seq<char>>,
    pub buffered: Map<u64, WireView>,
}

/// The buffered messages that follow order `k` without a gap, in order.
pub open spec fn buffered_run(b: Map<u64, WireView>, k: u64) -> Seq<WireView>
    decreases b.dom().len(),
    when b.dom().finite()
{
    if b.contains_key(k) && k < u64::MAX {
        seq![b[k]] + buffered_run(b.remove(k), (k + 1) as u64)
    } else {
        Seq::empty()
    }
}

/// The lowest inbound order still tracked once `next` is expected.
pub open spec fn tracking_floor(next: u64) -> u64 {
    if next >= MAX_TRACKED_INCOMING_ORDERS { (next - MAX_TRACKED_INCOMING_ORDERS) as u64 } else { 0 }
}

/// Forgets inbound history below `floor`: the orders below it leave the order
/// index, and the ids they name leave the id index.
pub open spec fn prune_orders(orders: Map<Seq<char>, u64>, index: Map<u64, Seq<char>>, floor: u64) -> Map<Seq<char>, u64> {
    orders.remove_keys(Set::new(|id: Seq<char>| exists|o: u64| #[trigger] index.contains_key(o) && o < floor && index[o] == id))
}

pub open spec fn prune_index(index: Map<u64, Seq<char>>, floor: u64) -> Map<u64, Seq<char>> {
    index.restrict(Set::new(|o: u64| o >= floor))
}

/// How an inbound message is classified.
pub open spec fn classify_spec(s: EngineView, m: WireView) -> Result<IncomingAction, ()> {
    if !is_messaging_identifier(m.message_id) || !is_messaging_identifier(m.conversation_id) {
        Err(())
    } else if m.delivery_order > (if s.next_expected_incoming_order as int + MAX_INCOMING_ORDER_GAP as int > u64::MAX as int { u64::MAX as int } else { s.next_expected_incoming_order + MAX_INCOMING_ORDER_GAP }) {
        Err(())
    } else if s.incoming_orders.contains_key(m.message_id) {
        if s.incoming_orders[m.message_id] != m.delivery_order { Err(()) } else { Ok(IncomingAction::AcknowledgeDuplicate) }
    } else if s.incoming_index.contains_key(m.delivery_order) {
        if s.incoming_index[m.delivery_order] != m.message_id { Err(()) } else { Ok(IncomingAction::AcknowledgeDuplicate) }
    } else {
        Ok(IncomingAction::AcknowledgeAndAccept)
    }
}

/// A pending message has valid ids, its id was queued, and the id index
/// leads back to its delivery order; so no message id is pending twice.
pub open spec fn pending_entry_consistent(s: EngineView, k: u64) -> bool {
    let m = s.pending[k];
    &&& is_messaging_identifier(m.message_id)
    &&& is_messaging_identifier(m.conversation_id)
    &&& s.outgoing_ids.contains(m.message_id)
    &&& s.pending_index.contains_key(m.message_id)
    &&& s.pending_index[m.message_id] == k
}

/// The reliable delivery state of one pair of devices.
pub struct MessagingEngine {
    local_device: Device,
    remote_device: Device,
    next_outgoing_order: u64,
    next_expected_incoming_order: u64,
    pending_by_order: OrderMap<OutgoingMessage>,
    pending_index: StrMap<u64>,
    outgoing_message_ids: StrMap<()>,
    incoming_message_orders: StrMap<u64>,
    incoming_order_index: OrderMap<String>,
    buffered_incoming: OrderMap<WireMessage>,
}

impl View for MessagingEngine {
    type V = EngineView;

    closed spec fn view(&self) -> EngineView {
        EngineView {
            local_device: self.local_device@,
            remote_device: self.remote_device@,
            next_outgoing_order: self.next_outgoing_order,
            next_expected_incoming_order: self.next_expected_incoming_order,
            pending: self.pending_by_order.map(),
            pending_index: self.pending_index.map(),
            outgoing_ids: self.outgoing_message_ids.map().dom(),
            incoming_orders: self.incoming_message_orders.map(),
            incoming_index: self.incoming_order_index.map(),
            buffered: self.buffered_incoming.map(),
        }
    }
}

impl MessagingEngine {
    /// The containers are well formed and every buffered order has a successor.
    pub closed spec fn wf(&self) -> bool {
        &&& self.pending_by_order.wf()
        &&& self.pending_index.wf()
        &&& self.outgoing_message_ids.wf()
        &&& self.incoming_message_orders.wf()
        &&& self.incoming_order_index.wf()
        &&& self.buffered_incoming.wf()
        &&& forall|k: u64| #[trigger] self.buffered_incoming.map().contains_key(k) ==> k < u64::MAX
            && self.buffered_incoming.map()[k].delivery_order == k
        &&& forall|k: u64| #[trigger] self.pending_by_order.map().contains_key(k) ==> self.pending_by_order.map()[k].delivery_order == k
        &&& forall|k: u64| #[trigger] self.pending_by_order.map().contains_key(k) ==> pending_entry_consistent(
            self@,
            k,
        )
    }

    pub fn new(local_device: Device, remote_device: Device) -> (r: MessagingEngine)
        ensures
            r.wf(),
            r@ == (EngineView {
                local_device: local_device@,
                remote_device: remote_device@,
                next_outgoing_order: 0,
                next_expected_incoming_order: 0,
                pending: Map::empty(),
                pending_index: Map::empty(),
                outgoing_ids: Set::empty(),
                incoming_orders: Map::empty(),
                incoming_index: Map::empty(),
                buffered: Map::empty(),
            }),
    {
        let r = MessagingEngine {
            local_device,
            remote_device,
            next_outgoing_order: 0,
            next_expected_incoming_order: 0,
            pending_by_order: OrderMap::new(),
            pending_index: StrMap::new(),
            outgoing_message_ids: StrMap::new(),
            incoming_message_orders: StrMap::new(),
            incoming_order_index: OrderMap::new(),
            buffered_incoming: OrderMap::new(),
        };
        assert(r@.outgoing_ids =~= Set::<Seq<char>>::empty());
        r
    }

    pub fn local_device(&self) -> (r: &Device)
        ensures
            r@ == self@.local_device,
    {
        &self.local_device
    }

    pub fn remote_device(&self) -> (r: &Device)
        ensures
            r@ == self@.remote_device,
    {
        &self.remote_device
    }

    pub fn pending_count(&self) -> (r: usize)
        requires
            self.wf(),
        ensures
            r == self@.pending.len(),
    {
        self.pending_by_order.len()
    }

    /// The messages awaiting acknowledgement, in ascending delivery order.
    pub fn pending_messages(&self) -> (r: Vec<OutgoingMessage>)
        requires
            self.wf(),
        ensures
            r@.len() == self@.pending.len(),
            forall|i: int, j: int| 0 <= i < j < r@.len() ==> #[trigger] r@[i]@.delivery_order < #[trigger] r@[j]@.delivery_order,
            forall|i: int| 0 <= i < r@.len() ==> self@.pending.contains_key(#[trigger] r@[i]@.delivery_order) && self@.pending[r@[i]@.delivery_order] == r@[i]@,
    {
        proof { self.pending_by_order.lemma_wf(); }
        let keys = self.pending_by_order.keys();
        let values = self.pending_by_order.values();
        let mut out: Vec<OutgoingMessage> = Vec::new();
        let n = values.len();
        let mut i: usize = 0;
        while i < n
            invariant
                n == values@.len(),
                n == keys@.len(),
                n == self.pending_by_order.list().len(),
                self.pending_by_order.wf(),
                i <= n,
                out@.len() == i,
                forall|j: int| 0 <= j < i ==> #[trigger] out@[j]@ == values@[j]@,
                forall|j: int| 0 <= j < n ==> #[trigger] values@[j]@ == self.pending_by_order.list()[j].1,
                forall|j: int| 0 <= j < n ==> #[trigger] keys@[j] == self.pending_by_order.list()[j].0,
            decreases n - i,
        {
            out.push(values[i].duplicate());
            i = i + 1;
        }
        proof {
            self.pending_by_order.lemma_wf();
            assert forall|j: int| 0 <= j < out@.len() implies self@.pending.contains_key(#[trigger] out@[j]@.delivery_order)
                && self@.pending[out@[j]@.delivery_order] == out@[j]@ && out@[j]@.delivery_order == self.pending_by_order.list()[j].0 by {
                let e = self.pending_by_order.list()[j];
                assert(self.pending_by_order.map().contains_key(e.0));
            }
            assert forall|a: int, b: int| 0 <= a < b < out@.len() implies #[trigger] out@[a]@.delivery_order < #[trigger] out@[b]@.delivery_order by {
                assert(self.pending_by_order.list()[a].0 < self.pending_by_order.list()[b].0);
                assert(out@[a]@.delivery_order == self.pending_by_order.list()[a].0);
                assert(out@[b]@.delivery_order == self.pending_by_order.list()[b].0);
            }
        }
        out
    }

    pub fn is_pending(&self, message_id: &str) -> (r: bool)
        requires
            self.wf(),
        ensures
            r == self@.pending_index.contains_key(message_id@),
    {
        self.pending_index.contains(message_id)
    }

    pub fn next_expected_incoming_order(&self) -> (r: u64)
        ensures
            r == self@.next_expected_incoming_order,
    {
        self.next_expected_incoming_order
    }

    /// Puts a message on the outbound queue with the next delivery order.
    /// Fails on an invalid message or conversation id, or on a message id that
    /// was queued before; then nothing changes.
    pub fn queue_message(&mut self, message_id: &str, conversation_id: &str, kind: MessageKind, sent_at_unix_ms: i64, body: Vec<u8>) -> (r: Result<OutgoingMessage, MessagingError>)
        requires
            old(self).wf(),
            old(self)@.next_outgoing_order < u64::MAX,
        ensures
            final(self).wf(),
            !is_messaging_identifier(message_id@) ==> (r matches Err(MessagingError::InvalidIdentifier { field: f, value: v })
                && f == "message_id" && v@ == message_id@ && final(self)@ == old(self)@),
            is_messaging_identifier(message_id@) && !is_messaging_identifier(conversation_id@) ==> (r matches Err(
                MessagingError::InvalidIdentifier { field: f, value: v }) && f == "conversation_id" && v@ == conversation_id@
                && final(self)@ == old(self)@),
            is_messaging_identifier(message_id@) && is_messaging_identifier(conversation_id@) && old(self)@.outgoing_ids.contains(message_id@)
                ==> (r matches Err(MessagingError::DuplicateOutgoingMessageId(v)) && v@ == message_id@ && final(self)@ == old(self)@),
            is_messaging_identifier(message_id@) && is_messaging_identifier(conversation_id@) && !old(self)@.outgoing_ids.contains(message_id@)
                ==> (r matches Ok(m) && m@ == queued_view(message_id@, conversation_id@, old(self)@.next_outgoing_order, sent_at_unix_ms, kind, body@)
                && final(self)@ == (EngineView {
                    next_outgoing_order: (old(self)@.next_outgoing_order + 1) as u64,
                    pending: old(self)@.pending.insert(old(self)@.next_outgoing_order, m@),
                    pending_index: old(self)@.pending_index.insert(message_id@, old(self)@.next_outgoing_order),
                    outgoing_ids: old(self)@.outgoing_ids.insert(message_id@),
                    ..old(self)@
                })),
    {
        validate_identifier("message_id", message_id)?;
        validate_identifier("conversation_id", conversation_id)?;
        if self.outgoing_message_ids.contains(message_id) {
            return Err(MessagingError::DuplicateOutgoingMessageId(owned(message_id)));
        }
        self.outgoing_message_ids.insert(owned(message_id), ());
        let order = self.next_outgoing_order;
        let message = OutgoingMessage {
            message_id: owned(message_id),
            conversation_id: owned(conversation_id),
            delivery_order: order,
            sent_at_unix_ms,
            kind,
            body,
            attempt_count: 0,
        };
        self.next_outgoing_order = order + 1;
        self.pending_index.insert(owned(message_id), order);
        let copy = message.duplicate();
        self.pending_by_order.insert(order, copy);
        proof {
            assert(self@.outgoing_ids =~= old(self)@.outgoing_ids.insert(message_id@));
        }
        Ok(message)
    }

    /// Checks that a session joins the same two devices as this engine.
    pub fn check_session_peers(&self, session_local: &Device, session_remote: &Device) -> (r: Result<(), MessagingError>)
        ensures
            r is Ok <==> (session_local@.device_id == self@.local_device.device_id
                && session_local@.owner_member_id == self@.local_device.owner_member_id
                && session_remote@.device_id == self@.remote_device.device_id
                && session_remote@.owner_member_id == self@.remote_device.owner_member_id),
            r is Err ==> r == Err::<(), MessagingError>(MessagingError::SessionPeerMismatch),
    {
        if !session_local.device_id().same_as(self.local_device.device_id())
            || !session_local.owner_member_id().same_as(self.local_device.owner_member_id())
            || !session_remote.device_id().same_as(self.remote_device.device_id())
            || !session_remote.owner_member_id().same_as(self.remote_device.owner_member_id()) {
            return Err(MessagingError::SessionPeerMismatch);
        }
        Ok(())
    }

    /// The delivery orders of the pending messages, ascending.
    pub fn pending_orders(&self) -> (r: Vec<u64>)
        requires
            self.wf(),
        ensures
            r@.to_set() == self@.pending.dom(),
            r@.len() == self@.pending.len(),
            forall|i: int, j: int| 0 <= i < j < r@.len() ==> #[trigger] r@[i] < #[trigger] r@[j],
    {
        proof { self.pending_by_order.lemma_wf(); }
        let r = self.pending_by_order.keys();
        proof {
            assert forall|k: u64| #[trigger] r@.to_set().contains(k) == self@.pending.dom().contains(k) by {
                if self@.pending.dom().contains(k) {
                    let i = choose|i: int| 0 <= i < self.pending_by_order.list().len() && self.pending_by_order.list()[i].0 == k;
                    assert(r@[i] == k);
                }
                if r@.to_set().contains(k) {
                    let i = choose|i: int| 0 <= i < r@.len() && r@[i] == k;
                    assert(self.pending_by_order.list()[i].0 == k);
                }
            }
            assert(r@.to_set() =~= self@.pending.dom());
        }
        r
    }

    /// Marks a pending message (by delivery order) as sent once more and
    /// gives back what is to go on the wire.
    pub fn begin_send_order(&mut self, order: u64) -> (r: Result<OutgoingMessage, MessagingError>)
        requires
            old(self).wf(),
            old(self)@.pending.contains_key(order) ==> old(self)@.pending[order].attempt_count < u32::MAX,
        ensures
            final(self).wf(),
            !old(self)@.pending.contains_key(order) ==> (r matches Err(MessagingError::MissingPendingMessage(v))
                && v@ == decimal_spec(order as nat) && final(self)@ == old(self)@),
            old(self)@.pending.contains_key(order) ==> (r matches Ok(m) && m@ == (OutgoingView {
                attempt_count: (old(self)@.pending[order].attempt_count + 1) as u32,
                ..old(self)@.pending[order]
            }) && final(self)@ == (EngineView { pending: old(self)@.pending.insert(order, m@), ..old(self)@ })),
    {
        let current = match self.pending_by_order.remove(order) {
            Some(m) => m,
            None => {
                assert(self.pending_by_order.map() =~= old(self).pending_by_order.map());
                let mut text = String::new();
                push_decimal(&mut text, order);
                assert(text@ =~= decimal_spec(order as nat));
                return Err(MessagingError::MissingPendingMessage(text));
            },
        };
        let mut updated = current;
        updated.attempt_count = updated.attempt_count + 1;
        let result = updated.duplicate();
        self.pending_by_order.insert(order, updated);
        proof {
            assert(self.pending_by_order.map() =~= old(self).pending_by_order.map().insert(order, result@));
        }
        Ok(result)
    }

    /// Marks a pending message (by id) as sent once more and gives back what
    /// is to go on the wire.
    pub fn begin_send(&mut self, message_id: &str) -> (r: Result<OutgoingMessage, MessagingError>)
        requires
            old(self).wf(),
            old(self)@.pending_index.contains_key(message_id@) && old(self)@.pending.contains_key(
                old(self)@.pending_index[message_id@],
            ) ==> old(self)@.pending[old(self)@.pending_index[message_id@]].attempt_count < u32::MAX,
        ensures
            final(self).wf(),
            !old(self)@.pending_index.contains_key(message_id@) ==> (r matches Err(MessagingError::MissingPendingMessage(v))
                && v@ == message_id@ && final(self)@ == old(self)@),
            old(self)@.pending_index.contains_key(message_id@) && !old(self)@.pending.contains_key(old(self)@.pending_index[message_id@])
                ==> (r matches Err(MessagingError::MissingPendingMessage(v)) && v@ == decimal_spec(old(self)@.pending_index[message_id@] as nat)
                && final(self)@ == old(self)@),
            old(self)@.pending_index.contains_key(message_id@) && old(self)@.pending.contains_key(old(self)@.pending_index[message_id@])
                ==> ({
                let order = old(self)@.pending_index[message_id@];
                r matches Ok(m) && m@ == (OutgoingView {
                    attempt_count: (old(self)@.pending[order].attempt_count + 1) as u32,
                    ..old(self)@.pending[order]
                }) && final(self)@ == (EngineView { pending: old(self)@.pending.insert(order, m@), ..old(self)@ })
            }),
    {
        let order = match self.pending_index.get(message_id) {
            Some(o) => *o,
            None => return Err(MessagingError::MissingPendingMessage(owned(message_id))),
        };
        self.begin_send_order(order)
    }

    /// Handles an acknowledgement: the matching pending message leaves the queue.
    pub fn handle_ack(&mut self, ack: WireAck) -> (r: ReceiveOutcome)
        requires
            old(self).wf(),
        ensures
            final(self).wf(),
            r.delivered().len() == 0,
            match old(self)@.pending_index.get(ack.message_id@) {
                None => final(self)@ == old(self)@ && r.acknowledged().len() == 0,
                Some(o) => if old(self)@.pending.contains_key(o) && o == ack.delivery_order {
                    final(self)@ == (EngineView {
                        pending: old(self)@.pending.remove(o),
                        pending_index: old(self)@.pending_index.remove(ack.message_id@),
                        ..old(self)@
                    }) && r.acknowledged() == seq![ack.message_id@]
                } else if old(self)@.pending.contains_key(o) {
                    final(self)@ == old(self)@ && r.acknowledged().len() == 0
                } else {
                    final(self)@ == (EngineView { pending_index: old(self)@.pending_index.remove(ack.message_id@), ..old(self)@ })
                        && r.acknowledged().len() == 0
                },
            },
    {
        let mut outcome = ReceiveOutcome::empty();
        let order = match self.pending_index.remove(ack.message_id.as_str()) {
            Some(o) => o,
            None => {
                assert(self.pending_index.map() =~= old(self).pending_index.map());
                return outcome;
            },
        };
        let ghost old_pending = old(self).pending_by_order.map();
        match self.pending_by_order.remove(order) {
            Some(pending) => {
                assert(old_pending[order].delivery_order == order);
                if pending.delivery_order == ack.delivery_order {
                    let ghost id = ack.message_id@;
                    outcome.acknowledged_message_ids.push(ack.message_id);
                    assert(outcome.acknowledged() =~= seq![id]);
                } else {
                    self.pending_by_order.insert(order, pending);
                    self.pending_index.insert(ack.message_id, order);
                    proof {
                        assert(self.pending_by_order.map() =~= old(self).pending_by_order.map());
                        assert(self.pending_index.map() =~= old(self).pending_index.map());
                    }
                }
            },
            None => {
                assert(self.pending_by_order.map() =~= old(self).pending_by_order.map());
            },
        }
        outcome
    }

    /// Classifies an inbound message before anything is recorded: a malformed
    /// id, an order too far ahead, or an id or order seen with a different
    /// partner is an error; a message seen before is a duplicate; anything
    /// else is new.
    pub fn classify_incoming(&self, message: &WireMessage) -> (r: Result<IncomingAction, MessagingError>)
        requires
            self.wf(),
        ensures
            match classify_spec(self@, message@) {
                Ok(a) => r == Ok::<IncomingAction, MessagingError>(a),
                Err(_) => r is Err,
            },
            !is_messaging_identifier(message@.message_id) ==> (r matches Err(MessagingError::InvalidIdentifier { field: f, value: v })
                && f == "message_id" && v@ == message@.message_id),
            is_messaging_identifier(message@.message_id) && !is_messaging_identifier(message@.conversation_id)
                ==> (r matches Err(MessagingError::InvalidIdentifier { field: f, value: v }) && f == "conversation_id"
                && v@ == message@.conversation_id),
            is_messaging_identifier(message@.message_id) && is_messaging_identifier(message@.conversation_id)
                && message.delivery_order > (if self@.next_expected_incoming_order as int + MAX_INCOMING_ORDER_GAP as int > u64::MAX as int { u64::MAX as int } else { self@.next_expected_incoming_order + MAX_INCOMING_ORDER_GAP })
                ==> r == Err::<IncomingAction, MessagingError>(MessagingError::IncomingOrderTooFarAhead {
                    expected: self@.next_expected_incoming_order,
                    received: message.delivery_order,
                    max_gap: MAX_INCOMING_ORDER_GAP,
                }),
            classify_spec(self@, message@) is Err && is_messaging_identifier(message@.message_id) && is_messaging_identifier(message@.conversation_id)
                && self@.incoming_orders.contains_key(message@.message_id)
                && message.delivery_order <= (if self@.next_expected_incoming_order as int + MAX_INCOMING_ORDER_GAP as int > u64::MAX as int { u64::MAX as int } else { self@.next_expected_incoming_order + MAX_INCOMING_ORDER_GAP })
                ==> (r matches Err(MessagingError::MessageIdConflict(v)) && v@ == message@.message_id),
            classify_spec(self@, message@) is Err && is_messaging_identifier(message@.message_id) && is_messaging_identifier(message@.conversation_id)
                && !self@.incoming_orders.contains_key(message@.message_id)
                && message.delivery_order <= (if self@.next_expected_incoming_order as int + MAX_INCOMING_ORDER_GAP as int > u64::MAX as int { u64::MAX as int } else { self@.next_expected_incoming_order + MAX_INCOMING_ORDER_GAP })
                ==> r == Err::<IncomingAction, MessagingError>(MessagingError::MessageOrderConflict(message.delivery_order)),
    {
        validate_identifier("message_id", message.message_id.as_str())?;
        validate_identifier("conversation_id", message.conversation_id.as_str())?;
        let limit = self.next_expected_incoming_order.saturating_add(MAX_INCOMING_ORDER_GAP);
        if message.delivery_order > limit {
            return Err(MessagingError::IncomingOrderTooFarAhead {
                expected: self.next_expected_incoming_order,
                received: message.delivery_order,
                max_gap: MAX_INCOMING_ORDER_GAP,
            });
        }
        match self.incoming_message_orders.get(message.message_id.as_str()) {
            Some(existing) => {
                if *existing != message.delivery_order {
                    return Err(MessagingError::MessageIdConflict(message.message_id.clone()));
                }
                return Ok(IncomingAction::AcknowledgeDuplicate);
            },
            None => {},
        }
        match self.incoming_order_index.get(message.delivery_order) {
            Some(existing) => {
                if !crate::text::str_eq(existing.as_str(), message.message_id.as_str()) {
                    return Err(MessagingError::MessageOrderConflict(message.delivery_order));
                }
                Ok(IncomingAction::AcknowledgeDuplicate)
            },
            None => Ok(IncomingAction::AcknowledgeAndAccept),
        }
    }
}

impl MessagingEngine {
    /// Forgets inbound history more than the tracking window behind the next
    /// expected order.
    fn prune_incoming_history(&mut self)
        requires
            old(self).wf(),
        ensures
            final(self).wf(),
            final(self)@ == (EngineView {
                incoming_orders: prune_orders(old(self)@.incoming_orders, old(self)@.incoming_index, tracking_floor(old(self)@.next_expected_incoming_order)),
                incoming_index: prune_index(old(self)@.incoming_index, tracking_floor(old(self)@.next_expected_incoming_order)),
                ..old(self)@
            }),
    {
        let minimum = self.next_expected_incoming_order.saturating_sub(MAX_TRACKED_INCOMING_ORDERS);
        let ghost floor = tracking_floor(old(self)@.next_expected_incoming_order);
        assert(minimum == floor);
        let ghost idx0 = old(self)@.incoming_index;
        let ghost ord0 = old(self)@.incoming_orders;
        let ghost mut lo: u64 = 0;
        assert(self@.incoming_index =~= idx0.restrict(Set::new(|o: u64| o >= lo)));
        assert(self@.incoming_orders =~= ord0.remove_keys(Set::new(|id: Seq<char>| exists|o: u64| #[trigger] idx0.contains_key(o) && o < lo && idx0[o] == id)));
        loop
            invariant
                self.wf(),
                self@ == (EngineView { incoming_orders: self@.incoming_orders, incoming_index: self@.incoming_index, ..old(self)@ }),
                lo <= minimum,
                minimum == floor,
                self@.incoming_index == idx0.restrict(Set::new(|o: u64| o >= lo)),
                self@.incoming_orders == ord0.remove_keys(Set::new(|id: Seq<char>| exists|o: u64| #[trigger] idx0.contains_key(o) && o < lo && idx0[o] == id)),
            ensures
                self.wf(),
                self@ == (EngineView {
                    incoming_orders: prune_orders(ord0, idx0, floor),
                    incoming_index: prune_index(idx0, floor),
                    ..old(self)@
                }),
            decreases self@.incoming_index.len(),
        {
            proof { self.incoming_order_index.lemma_wf(); lemma_dom_len_of(&self.incoming_order_index); }
            let first = match self.incoming_order_index.first_key() {
                Some(k) => k,
                None => {
                    proof {
                        assert(self@.incoming_index.dom() =~= Set::<u64>::empty()) by {
                            if exists|k: u64| self@.incoming_index.contains_key(k) {
                                let k = choose|k: u64| self@.incoming_index.contains_key(k);
                                vstd::set_lib::lemma_set_empty_equivalency_len(self@.incoming_index.dom());
                            }
                        }
                        lemma_restrict_done(idx0, ord0, lo, floor, self@.incoming_index);
                        assert(self@ == EngineView {
                            incoming_orders: prune_orders(ord0, idx0, floor),
                            incoming_index: prune_index(idx0, floor),
                            ..old(self)@
                        });
                    }
                    break;
                },
            };
            if first >= minimum {
                proof {
                    lemma_restrict_done(idx0, ord0, lo, floor, self@.incoming_index);
                }
                break;
            }
            let ghost before = self@.incoming_index;
            let id = self.incoming_order_index.remove(first).unwrap();
            self.incoming_message_orders.remove(id.as_str());
            proof {
                let new_lo = (first + 1) as u64;
                assert(self@.incoming_index =~= idx0.restrict(Set::new(|o: u64| o >= new_lo))) by {
                    assert forall|o: u64| #[trigger] self@.incoming_index.contains_key(o) == idx0.restrict(Set::new(|o: u64| o >= new_lo)).contains_key(o) by {
                        if idx0.contains_key(o) && lo <= o && o < first {
                            assert(before.contains_key(o));
                        }
                    }
                }
                let s_old = Set::new(|i: Seq<char>| exists|o: u64| #[trigger] idx0.contains_key(o) && o < lo && idx0[o] == i);
                let s_new = Set::new(|i: Seq<char>| exists|o: u64| #[trigger] idx0.contains_key(o) && o < new_lo && idx0[o] == i);
                assert(s_new =~= s_old.insert(id@)) by {
                    assert forall|i: Seq<char>| #[trigger] s_new.contains(i) == s_old.insert(id@).contains(i) by {
                        if s_new.contains(i) {
                            let o = choose|o: u64| #[trigger] idx0.contains_key(o) && o < new_lo && idx0[o] == i;
                            if o >= lo && o != first {
                                assert(before.contains_key(o));
                            }
                        }
                        if i == id@ {
                            assert(idx0.contains_key(first) && first < new_lo && idx0[first] == i);
                        }
                    }
                }
                assert(self@.incoming_orders =~= ord0.remove_keys(s_new));
                lo = new_lo;
            }
        }
    }
}

impl MessagingEngine {
    fn deliver_one(&mut self, message: WireMessage, out: &mut Vec<DeliveredMessage>)
        requires
            old(self).wf(),
            message.delivery_order == old(self)@.next_expected_incoming_order,
            old(self)@.next_expected_incoming_order < u64::MAX,
        ensures
            final(self).wf(),
            final(self)@ == (EngineView {
                next_expected_incoming_order: (old(self)@.next_expected_incoming_order + 1) as u64,
                incoming_orders: prune_orders(old(self)@.incoming_orders, old(self)@.incoming_index, tracking_floor((old(self)@.next_expected_incoming_order + 1) as u64)),
                incoming_index: prune_index(old(self)@.incoming_index, tracking_floor((old(self)@.next_expected_incoming_order + 1) as u64)),
                ..old(self)@
            }),
            final(out)@.map_values(|m: DeliveredMessage| m@) == old(out)@.map_values(|m: DeliveredMessage| m@).push(delivered_view(message@, old(self)@.remote_device)),
    {
        let ghost mv = message@;
        let delivered = DeliveredMessage {
            message_id: message.message_id,
            conversation_id: message.conversation_id,
            delivery_order: message.delivery_order,
            sent_at_unix_ms: message.sent_at_unix_ms,
            sender_member_id: self.remote_device.owner_member_id().duplicate(),
            sender_device_id: self.remote_device.device_id().duplicate(),
            kind: message.kind,
            body: message.body,
        };
        assert(delivered@ == delivered_view(mv, self@.remote_device));
        out.push(delivered);
        assert(out@.map_values(|m: DeliveredMessage| m@) =~= old(out)@.map_values(|m: DeliveredMessage| m@).push(delivered_view(mv, old(self)@.remote_device)));
        self.next_expected_incoming_order = self.next_expected_incoming_order + 1;
        self.prune_incoming_history();
    }

    /// Records a new inbound message (one that `classify_incoming` called
    /// new, and whose acknowledgement was sent).  An old order is only
    /// remembered; an order ahead of the next expected one is buffered; the
    /// next expected order is delivered together with every buffered message
    /// that follows it without a gap.
    #[verifier::rlimit(60)]
    pub fn accept_incoming(&mut self, message: WireMessage) -> (r: ReceiveOutcome)
        requires
            old(self).wf(),
            classify_spec(old(self)@, message@) == Ok::<IncomingAction, ()>(IncomingAction::AcknowledgeAndAccept),
            message.delivery_order < u64::MAX,
        ensures
            final(self).wf(),
            r.acknowledged().len() == 0,
            ({
                let s = old(self)@;
                let o = message@.delivery_order;
                let ord1 = s.incoming_orders.insert(message@.message_id, o);
                let idx1 = s.incoming_index.insert(o, message@.message_id);
                if o < s.next_expected_incoming_order {
                    final(self)@ == (EngineView { incoming_orders: ord1, incoming_index: idx1, ..s })
                        && r.delivered().len() == 0
                } else if o > s.next_expected_incoming_order {
                    final(self)@ == (EngineView { incoming_orders: ord1, incoming_index: idx1, buffered: s.buffered.insert(o, message@), ..s })
                        && r.delivered().len() == 0
                } else {
                    let run = buffered_run(s.buffered, (o + 1) as u64);
                    let n = o + 1 + run.len();
                    n <= u64::MAX && final(self)@ == (EngineView {
                        next_expected_incoming_order: n as u64,
                        buffered: s.buffered.remove_keys(Set::new(|k: u64| o < k < n)),
                        incoming_orders: prune_orders(ord1, idx1, tracking_floor(n as u64)),
                        incoming_index: prune_index(idx1, tracking_floor(n as u64)),
                        ..s
                    }) && r.delivered() == seq![delivered_view(message@, s.remote_device)] + run.map_values(|w: WireView| delivered_view(w, s.remote_device))
                }
            }),
    {
        let ghost s = old(self)@;
        let ghost mv = message@;
        let order = message.delivery_order;
        self.incoming_message_orders.insert(message.message_id.clone(), order);
        self.incoming_order_index.insert(order, message.message_id.clone());
        let ghost s1 = self@;
        let mut outcome = ReceiveOutcome::empty();
        if order < self.next_expected_incoming_order {
            return outcome;
        }
        if order > self.next_expected_incoming_order {
            self.buffered_incoming.insert(order, message);
            return outcome;
        }
        self.deliver_one(message, &mut outcome.delivered_messages);
        let ghost mut prefix: Seq<WireView> = Seq::empty();
        proof {
            lemma_dom_len_of(&self.buffered_incoming);
            assert(self@.buffered =~= s.buffered.remove_keys(Set::new(|k: u64| order < k < self@.next_expected_incoming_order)));
            assert(outcome.delivered() =~= seq![delivered_view(mv, s.remote_device)] + prefix.map_values(|w: WireView| delivered_view(w, s.remote_device)));
        }
        loop
            invariant
                self.wf(),
                s1.incoming_orders == s.incoming_orders.insert(mv.message_id, order),
                s1.incoming_index == s.incoming_index.insert(order, mv.message_id),
                order == s.next_expected_incoming_order,
                self@.next_expected_incoming_order == order + 1 + prefix.len(),
                self@ == (EngineView {
                    next_expected_incoming_order: self@.next_expected_incoming_order,
                    buffered: s.buffered.remove_keys(Set::new(|k: u64| order < k < self@.next_expected_incoming_order)),
                    incoming_orders: prune_orders(s1.incoming_orders, s1.incoming_index, tracking_floor(self@.next_expected_incoming_order)),
                    incoming_index: prune_index(s1.incoming_index, tracking_floor(self@.next_expected_incoming_order)),
                    ..s
                }),
                s.buffered.dom().finite(),
                buffered_run(s.buffered, (order + 1) as u64) == prefix + buffered_run(self@.buffered, self@.next_expected_incoming_order),
                outcome.delivered() == seq![delivered_view(mv, s.remote_device)] + prefix.map_values(|w: WireView| delivered_view(w, s.remote_device)),
                outcome.acknowledged().len() == 0,
            ensures
                self.wf(),
                self@ == (EngineView {
                    next_expected_incoming_order: self@.next_expected_incoming_order,
                    buffered: s.buffered.remove_keys(Set::new(|k: u64| order < k < self@.next_expected_incoming_order)),
                    incoming_orders: prune_orders(s1.incoming_orders, s1.incoming_index, tracking_floor(self@.next_expected_incoming_order)),
                    incoming_index: prune_index(s1.incoming_index, tracking_floor(self@.next_expected_incoming_order)),
                    ..s
                }),
                self@.next_expected_incoming_order == order + 1 + prefix.len(),
                buffered_run(s.buffered, (order + 1) as u64) == prefix,
                outcome.delivered() == seq![delivered_view(mv, s.remote_device)] + prefix.map_values(|w: WireView| delivered_view(w, s.remote_device)),
                outcome.acknowledged().len() == 0,
            decreases self@.buffered.len(),
        {
            proof { lemma_dom_len_of(&self.buffered_incoming); }
            let next = self.next_expected_incoming_order;
            let ghost before = self@;
            match self.buffered_incoming.remove(next) {
                None => {
                    proof {
                        assert(self.buffered_incoming.map() =~= before.buffered);
                        assert(buffered_run(before.buffered, next) == Seq::<WireView>::empty());
                        assert(prefix + Seq::<WireView>::empty() =~= prefix);
                    }
                    break;
                },
                Some(m) => {
                    let ghost w = m@;
                    proof {
                        assert(next < u64::MAX);
                        assert(buffered_run(before.buffered, next) == seq![w] + buffered_run(before.buffered.remove(next), (next + 1) as u64));
                    }
                    self.deliver_one(m, &mut outcome.delivered_messages);
                    proof {
                        lemma_prune_compose(s1.incoming_orders, s1.incoming_index, tracking_floor(next), tracking_floor((next + 1) as u64));
                        assert(self@.buffered =~= s.buffered.remove_keys(Set::new(|k: u64| order < k < self@.next_expected_incoming_order)));
                        let old_prefix = prefix;
                        prefix = prefix.push(w);
                        assert(old_prefix + (seq![w] + buffered_run(self@.buffered, self@.next_expected_incoming_order)) =~= prefix + buffered_run(self@.buffered, self@.next_expected_incoming_order));
                        assert(prefix.map_values(|x: WireView| delivered_view(x, s.remote_device)) =~= old_prefix.map_values(|x: WireView| delivered_view(x, s.remote_device)).push(delivered_view(w, s.remote_device)));
                        assert(outcome.delivered() =~= seq![delivered_view(mv, s.remote_device)] + prefix.map_values(|x: WireView| delivered_view(x, s.remote_device)));
                    }
                },
            }
        }
        outcome
    }
}

/// The views of a sequence of outbound messages.
pub open spec fn outgoing_views(s: Seq<OutgoingMessage>) -> Seq<OutgoingView> {
    s.map_values(|m: OutgoingMessage| m@)
}

/// Why restoring a pending queue stopped.
pub enum RestoreFailure {
    InvalidMessageId(Seq<char>),
    InvalidConversationId(Seq<char>),
    Duplicate(Seq<char>),
}

/// Restoring one pending message.
pub open spec fn restore_step(s: EngineView, m: OutgoingView) -> Result<EngineView, RestoreFailure> {
    if !is_messaging_identifier(m.message_id) {
        Err(RestoreFailure::InvalidMessageId(m.message_id))
    } else if !is_messaging_identifier(m.conversation_id) {
        Err(RestoreFailure::InvalidConversationId(m.conversation_id))
    } else if s.outgoing_ids.contains(m.message_id) {
        Err(RestoreFailure::Duplicate(m.message_id))
    } else {
        Ok(EngineView {
            outgoing_ids: s.outgoing_ids.insert(m.message_id),
            pending_index: s.pending_index.insert(m.message_id, m.delivery_order),
            pending: s.pending.insert(m.delivery_order, m),
            ..s
        })
    }
}

/// Restoring pending messages in turn, stopping at the first failure with
/// the state reached so far.
pub open spec fn restore_all(s: EngineView, ms: Seq<OutgoingView>) -> (EngineView, Option<RestoreFailure>)
    decreases ms.len(),
{
    if ms.len() == 0 {
        (s, None)
    } else {
        match restore_step(s, ms[0]) {
            Err(f) => (s, Some(f)),
            Ok(s2) => restore_all(s2, ms.drop_first()),
        }
    }
}

/// The pending messages of a list, by delivery order.
pub open spec fn pending_map_of(ms: Seq<OutgoingView>) -> Map<u64, OutgoingView> {
    Map::new(
        |k: u64| exists|i: int| 0 <= i < ms.len() && #[trigger] ms[i].delivery_order == k,
        |k: u64| ms[choose|i: int| 0 <= i < ms.len() && #[trigger] ms[i].delivery_order == k],
    )
}

/// A list of pending messages as an export gives them: valid ids, ascending
/// delivery orders, and no message id twice.
pub open spec fn restorable_list(ms: Seq<OutgoingView>) -> bool {
    &&& forall|i: int| 0 <= i < ms.len() ==> is_messaging_identifier(#[trigger] ms[i].message_id)
        && is_messaging_identifier(ms[i].conversation_id)
    &&& forall|i: int, j: int| 0 <= i < j < ms.len() ==> #[trigger] ms[i].delivery_order < #[trigger] ms[j].delivery_order
    &&& forall|i: int, j: int| 0 <= i < j < ms.len() ==> #[trigger] ms[i].message_id != #[trigger] ms[j].message_id
}

proof fn lemma_restore_list(s: EngineView, ms: Seq<OutgoingView>)
    requires
        restorable_list(ms),
        forall|i: int| 0 <= i < ms.len() ==> !s.outgoing_ids.contains(#[trigger] ms[i].message_id),
    ensures
        restore_all(s, ms).1 is None,
        restore_all(s, ms).0 == (EngineView {
            pending: restore_all(s, ms).0.pending,
            pending_index: restore_all(s, ms).0.pending_index,
            outgoing_ids: restore_all(s, ms).0.outgoing_ids,
            ..s
        }),
        restore_all(s, ms).0.pending == s.pending.union_prefer_right(pending_map_of(ms)),
        forall|i: int| 0 <= i < ms.len() ==> #[trigger] restore_all(s, ms).0.pending_index.contains_key(ms[i].message_id)
            && restore_all(s, ms).0.pending_index[ms[i].message_id] == ms[i].delivery_order
            && restore_all(s, ms).0.outgoing_ids.contains(ms[i].message_id),
    decreases ms.len(),
{
    if ms.len() == 0 {
        assert(pending_map_of(ms) =~= Map::<u64, OutgoingView>::empty());
        assert(s.pending.union_prefer_right(pending_map_of(ms)) =~= s.pending);
    } else {
        let rest = ms.drop_first();
        let m0 = ms[0];
        let s1 = EngineView {
            outgoing_ids: s.outgoing_ids.insert(m0.message_id),
            pending_index: s.pending_index.insert(m0.message_id, m0.delivery_order),
            pending: s.pending.insert(m0.delivery_order, m0),
            ..s
        };
        assert(restore_step(s, m0) == Ok::<EngineView, RestoreFailure>(s1));
        assert forall|i: int, j: int| 0 <= i < j < rest.len() implies #[trigger] rest[i].delivery_order
            < #[trigger] rest[j].delivery_order by {
            assert(rest[i] == ms[i + 1] && rest[j] == ms[j + 1]);
        }
        assert forall|i: int, j: int| 0 <= i < j < rest.len() implies #[trigger] rest[i].message_id
            != #[trigger] rest[j].message_id by {
            assert(rest[i] == ms[i + 1] && rest[j] == ms[j + 1]);
        }
        assert forall|i: int| 0 <= i < rest.len() implies !s1.outgoing_ids.contains(#[trigger] rest[i].message_id) by {
            assert(rest[i] == ms[i + 1]);
            assert(ms[0].message_id != ms[i + 1].message_id);
        }
        assert forall|i: int| 0 <= i < rest.len() implies is_messaging_identifier(#[trigger] rest[i].message_id)
            && is_messaging_identifier(rest[i].conversation_id) by {
            assert(rest[i] == ms[i + 1]);
        }
        lemma_restore_list(s1, rest);
        let r = restore_all(s1, rest).0;
        assert(restore_all(s, ms) == restore_all(s1, rest));
        assert forall|k: u64| #[trigger] pending_map_of(ms).contains_key(k) == (k == m0.delivery_order
            || pending_map_of(rest).contains_key(k)) by {
            if pending_map_of(ms).contains_key(k) {
                let i = choose|i: int| 0 <= i < ms.len() && #[trigger] ms[i].delivery_order == k;
                if i > 0 {
                    assert(rest[i - 1] == ms[i]);
                }
            }
            if pending_map_of(rest).contains_key(k) {
                let i = choose|i: int| 0 <= i < rest.len() && #[trigger] rest[i].delivery_order == k;
                assert(ms[i + 1] == rest[i]);
            }
            if k == m0.delivery_order {
                assert(ms[0].delivery_order == k);
            }
        }
        assert forall|k: u64| #[trigger] pending_map_of(ms).contains_key(k) implies pending_map_of(ms)[k] == (if k
            == m0.delivery_order { m0 } else { pending_map_of(rest)[k] }) by {
            let i = choose|i: int| 0 <= i < ms.len() && #[trigger] ms[i].delivery_order == k;
            if k == m0.delivery_order {
                if i != 0 {
                    assert(ms[0].delivery_order < ms[i].delivery_order);
                }
            } else {
                assert(i != 0);
                assert(rest[i - 1] == ms[i]);
                let j = choose|j: int| 0 <= j < rest.len() && #[trigger] rest[j].delivery_order == k;
                assert(ms[j + 1] == rest[j]);
                if j + 1 < i {
                    assert(ms[j + 1].delivery_order < ms[i].delivery_order);
                } else if j + 1 > i {
                    assert(ms[i].delivery_order < ms[j + 1].delivery_order);
                }
            }
        }
        assert(!pending_map_of(rest).contains_key(m0.delivery_order)) by {
            if pending_map_of(rest).contains_key(m0.delivery_order) {
                let j = choose|j: int| 0 <= j < rest.len() && #[trigger] rest[j].delivery_order == m0.delivery_order;
                assert(ms[j + 1] == rest[j]);
                assert(ms[0].delivery_order < ms[j + 1].delivery_order);
            }
        }
        assert(r.pending =~= s.pending.union_prefer_right(pending_map_of(ms)));
        assert forall|i: int| 0 <= i < ms.len() implies #[trigger] r.pending_index.contains_key(ms[i].message_id)
            && r.pending_index[ms[i].message_id] == ms[i].delivery_order && r.outgoing_ids.contains(ms[i].message_id) by {
            if i > 0 {
                assert(rest[i - 1] == ms[i]);
            } else {
                assert forall|j: int| 0 <= j < rest.len() implies #[trigger] rest[j].message_id != m0.message_id by {
                    assert(ms[j + 1] == rest[j]);
                }
                lemma_restore_keeps(s1, rest, m0.message_id);
            }
        }
    }
}

proof fn lemma_restore_keeps(s: EngineView, ms: Seq<OutgoingView>, id: Seq<char>)
    requires
        forall|j: int| 0 <= j < ms.len() ==> #[trigger] ms[j].message_id != id,
    ensures
        s.pending_index.contains_key(id) ==> restore_all(s, ms).0.pending_index.contains_key(id)
            && restore_all(s, ms).0.pending_index[id] == s.pending_index[id],
        s.outgoing_ids.contains(id) ==> restore_all(s, ms).0.outgoing_ids.contains(id),
    decreases ms.len(),
{
    if ms.len() > 0 {
        match restore_step(s, ms[0]) {
            Err(_) => {},
            Ok(s1) => {
                assert forall|j: int| 0 <= j < ms.drop_first().len() implies #[trigger] ms.drop_first()[j].message_id != id by {
                    assert(ms.drop_first()[j] == ms[j + 1]);
                }
                lemma_restore_keeps(s1, ms.drop_first(), id);
            },
        }
    }
}

/// Restoring an exported queue into an engine that has queued nothing gives
/// the queue back: every message is pending again under its delivery order,
/// each id is known and pending, the outbound counter resumes at the
/// snapshot's, and restoring the same non-empty snapshot once more fails on
/// the first message id as a duplicate.
pub proof fn lemma_restore_round_trip(exported: Map<u64, OutgoingView>, ms: Seq<OutgoingView>, next_outgoing_order: u64, fresh: EngineView)
    requires
        exported.dom().finite(),
        restorable_list(ms),
        ms.len() == exported.len(),
        forall|i: int| 0 <= i < ms.len() ==> exported.contains_key(#[trigger] ms[i].delivery_order)
            && exported[ms[i].delivery_order] == ms[i],
        fresh.pending == Map::<u64, OutgoingView>::empty(),
        fresh.pending_index == Map::<Seq<char>, u64>::empty(),
        fresh.outgoing_ids == Set::<Seq<char>>::empty(),
        fresh.next_outgoing_order == 0,
    ensures
        ({
            let (s2, failure) = restore_all(fresh, ms);
            let restored = EngineView {
                next_outgoing_order: if next_outgoing_order > s2.next_outgoing_order { next_outgoing_order } else { s2.next_outgoing_order },
                ..s2
            };
            &&& failure is None
            &&& restored.pending == exported
            &&& restored.next_outgoing_order == next_outgoing_order
            &&& forall|i: int| 0 <= i < ms.len() ==> #[trigger] restored.pending_index.contains_key(ms[i].message_id)
                && restored.pending_index[ms[i].message_id] == ms[i].delivery_order
                && restored.outgoing_ids.contains(ms[i].message_id)
            &&& ms.len() > 0 ==> restore_all(restored, ms) == (restored, Some(RestoreFailure::Duplicate(ms[0].message_id)))
        }),
{
    lemma_restore_list(fresh, ms);
    let s2 = restore_all(fresh, ms).0;
    assert(fresh.pending.union_prefer_right(pending_map_of(ms)) =~= pending_map_of(ms));
    let keys = Set::new(|k: u64| exists|i: int| 0 <= i < ms.len() && #[trigger] ms[i].delivery_order == k);
    assert(pending_map_of(ms).dom() =~= keys);
    let orders = ms.map_values(|m: OutgoingView| m.delivery_order);
    assert(orders.to_set() =~= keys) by {
        assert forall|k: u64| keys.contains(k) implies orders.to_set().contains(k) by {
            let i = choose|i: int| 0 <= i < ms.len() && #[trigger] ms[i].delivery_order == k;
            assert(orders[i] == k);
        }
        assert forall|k: u64| orders.to_set().contains(k) implies keys.contains(k) by {
            let i = choose|i: int| 0 <= i < orders.len() && orders[i] == k;
            assert(ms[i].delivery_order == k);
        }
    }
    assert(orders.no_duplicates()) by {
        assert forall|i: int, j: int| 0 <= i < orders.len() && 0 <= j < orders.len() && i != j implies orders[i] != orders[j] by {
            if i < j {
                assert(ms[i].delivery_order < ms[j].delivery_order);
            } else {
                assert(ms[j].delivery_order < ms[i].delivery_order);
            }
        }
    }
    orders.unique_seq_to_set();
    assert(keys.subset_of(exported.dom())) by {
        assert forall|k: u64| keys.contains(k) implies exported.dom().contains(k) by {
            let i = choose|i: int| 0 <= i < ms.len() && #[trigger] ms[i].delivery_order == k;
        }
    }
    vstd::set_lib::lemma_len_subset(keys, exported.dom());
    vstd::set_lib::lemma_subset_equality(keys, exported.dom());
    assert forall|k: u64| #[trigger] exported.contains_key(k) implies pending_map_of(ms)[k] == exported[k] by {
        let i = choose|i: int| 0 <= i < ms.len() && #[trigger] ms[i].delivery_order == k;
    }
    assert(pending_map_of(ms) =~= exported);
    if ms.len() > 0 {
        let restored = EngineView {
            next_outgoing_order: if next_outgoing_order > s2.next_outgoing_order { next_outgoing_order } else { s2.next_outgoing_order },
            ..s2
        };
        assert(restore_all(fresh, ms).0.pending_index.contains_key(ms[0].message_id));
        assert(restored.outgoing_ids.contains(ms[0].message_id));
        assert(restore_step(restored, ms[0]) == Err::<EngineView, RestoreFailure>(RestoreFailure::Duplicate(ms[0].message_id)));
        assert(restore_all(restored, ms) == (restored, Some(RestoreFailure::Duplicate(ms[0].message_id))));
    }
}

impl MessagingEngine {
    /// The outbound queue as a snapshot that survives a restart.
    pub fn export_pending_queue(&self) -> (r: PendingQueueSnapshot)
        requires
            self.wf(),
        ensures
            r.next_outgoing_order == self@.next_outgoing_order,
            restorable_list(outgoing_views(r.pending_messages@)),
            self@.pending.dom().finite(),
            r.pending_messages@.len() == self@.pending.len(),
            forall|i: int, j: int| 0 <= i < j < r.pending_messages@.len() ==> #[trigger] r.pending_messages@[i]@.delivery_order < #[trigger] r.pending_messages@[j]@.delivery_order,
            forall|i: int| 0 <= i < r.pending_messages@.len() ==> self@.pending.contains_key(#[trigger] r.pending_messages@[i]@.delivery_order)
                && self@.pending[r.pending_messages@[i]@.delivery_order] == r.pending_messages@[i]@,
    {
        let pending_messages = self.pending_messages();
        proof {
            let ms = outgoing_views(pending_messages@);
            assert forall|i: int| 0 <= i < ms.len() implies is_messaging_identifier(#[trigger] ms[i].message_id)
                && is_messaging_identifier(ms[i].conversation_id) by {
                assert(ms[i] == pending_messages@[i]@);
                assert(self@.pending.contains_key(pending_messages@[i]@.delivery_order));
                assert(pending_entry_consistent(self@, pending_messages@[i]@.delivery_order));
            }
            assert forall|i: int, j: int| 0 <= i < j < ms.len() implies #[trigger] ms[i].delivery_order
                < #[trigger] ms[j].delivery_order by {
                assert(ms[i] == pending_messages@[i]@ && ms[j] == pending_messages@[j]@);
            }
            assert forall|i: int, j: int| 0 <= i < j < ms.len() implies #[trigger] ms[i].message_id
                != #[trigger] ms[j].message_id by {
                assert(ms[i] == pending_messages@[i]@ && ms[j] == pending_messages@[j]@);
                assert(pending_entry_consistent(self@, pending_messages@[i]@.delivery_order));
                assert(pending_entry_consistent(self@, pending_messages@[j]@.delivery_order));
                assert(pending_messages@[i]@.delivery_order < pending_messages@[j]@.delivery_order);
            }
            self.pending_by_order.lemma_wf();
            let keys = self.pending_by_order.list().map_values(|e: (u64, OutgoingView)| e.0);
            assert(self@.pending.dom() =~= keys.to_set()) by {
                assert forall|k: u64| #[trigger] self@.pending.dom().contains(k) implies keys.to_set().contains(k) by {
                    let i = choose|i: int| 0 <= i < self.pending_by_order.list().len() && #[trigger] self.pending_by_order.list()[i].0 == k;
                    assert(keys[i] == k);
                }
                assert forall|k: u64| #[trigger] keys.to_set().contains(k) implies self@.pending.dom().contains(k) by {
                    let i = choose|i: int| 0 <= i < keys.len() && keys[i] == k;
                    assert(self.pending_by_order.list()[i].0 == k);
                }
            }
        }
        PendingQueueSnapshot { next_outgoing_order: self.next_outgoing_order, pending_messages }
    }

    /// Restores an exported queue into this engine, message by message; the
    /// first invalid or already-known message id stops it with an error.  The
    /// outbound order counter then moves up to the snapshot's where that is higher.
    pub fn restore_pending_queue(&mut self, snapshot: PendingQueueSnapshot) -> (r: Result<(), MessagingError>)
        requires
            old(self).wf(),
        ensures
            final(self).wf(),
            ({
                let (s2, failure) = restore_all(old(self)@, outgoing_views(snapshot.pending_messages@));
                match failure {
                    None => r is Ok && final(self)@ == (EngineView {
                        next_outgoing_order: if snapshot.next_outgoing_order > s2.next_outgoing_order { snapshot.next_outgoing_order } else { s2.next_outgoing_order },
                        ..s2
                    }),
                    Some(RestoreFailure::InvalidMessageId(v)) => final(self)@ == s2 && (r matches Err(MessagingError::InvalidIdentifier { field: f, value: x }) && f == "message_id" && x@ == v),
                    Some(RestoreFailure::InvalidConversationId(v)) => final(self)@ == s2 && (r matches Err(MessagingError::InvalidIdentifier { field: f, value: x }) && f == "conversation_id" && x@ == v),
                    Some(RestoreFailure::Duplicate(v)) => final(self)@ == s2 && (r matches Err(MessagingError::DuplicateOutgoingMessageId(x)) && x@ == v),
                }
            }),
    {
        let ghost all = outgoing_views(snapshot.pending_messages@);
        let next = snapshot.next_outgoing_order;
        let mut done: usize = 0;
        assert(all.skip(0) =~= all);
        let total = snapshot.pending_messages.len();
        while done < total
            invariant
                self.wf(),
                total == all.len(),
                done <= total,
                all == outgoing_views(snapshot.pending_messages@),
                restore_all(old(self)@, all) == restore_all(self@, all.skip(done as int)),
            decreases total - done,
        {
            let message = snapshot.pending_messages[done].duplicate();
            let ghost rest = all.skip(done as int);
            proof {
                assert(message@ == all[done as int]);
                assert(rest[0] == message@);
                assert(rest.drop_first() =~= all.skip(done + 1));
            }
            let ghost before = self@;
            proof {
                assert(restore_all(self@, rest) == match restore_step(self@, rest[0]) {
                    Err(f) => (self@, Some(f)),
                    Ok(s2) => restore_all(s2, rest.drop_first()),
                });
            }
            match validate_identifier("message_id", message.message_id.as_str()) {
                Ok(()) => {},
                Err(e) => {
                    proof {
                        assert(!is_messaging_identifier(rest[0].message_id));
                        assert(restore_all(old(self)@, all) == (self@, Some(RestoreFailure::InvalidMessageId(rest[0].message_id))));
                        assert(e matches MessagingError::InvalidIdentifier { field: f, value: x } && f == "message_id" && x@ == rest[0].message_id);
                    }
                    return Err(e);
                },
            }
            match validate_identifier("conversation_id", message.conversation_id.as_str()) {
                Ok(()) => {},
                Err(e) => {
                    proof {
                        assert(!is_messaging_identifier(rest[0].conversation_id));
                        assert(restore_all(old(self)@, all) == (self@, Some(RestoreFailure::InvalidConversationId(rest[0].conversation_id))));
                    }
                    return Err(e);
                },
            }
            if self.outgoing_message_ids.contains(message.message_id.as_str()) {
                return Err(MessagingError::DuplicateOutgoingMessageId(message.message_id));
            }
            self.outgoing_message_ids.insert(message.message_id.clone(), ());
            self.pending_index.insert(message.message_id.clone(), message.delivery_order);
            let order = message.delivery_order;
            self.pending_by_order.insert(order, message);
            proof {
                assert(self@.outgoing_ids =~= before.outgoing_ids.insert(rest[0].message_id));
                assert(restore_step(before, rest[0]) == Ok::<EngineView, RestoreFailure>(self@));
            }
            done = done + 1;
        }
        proof {
            assert(all.skip(done as int) =~= Seq::<OutgoingView>::empty());
        }
        if next > self.next_outgoing_order {
            self.next_outgoing_order = next;
        }
        Ok(())
    }
}

/// Pruning at a lower floor and then at a higher one prunes at the higher one.
proof fn lemma_prune_compose(orders: Map<Seq<char>, u64>, index: Map<u64, Seq<char>>, f1: u64, f2: u64)
    requires
        f1 <= f2,
    ensures
        prune_orders(prune_orders(orders, index, f1), prune_index(index, f1), f2) == prune_orders(orders, index, f2),
        prune_index(prune_index(index, f1), f2) == prune_index(index, f2),
{
    assert(prune_index(prune_index(index, f1), f2) =~= prune_index(index, f2));
    let i1 = prune_index(index, f1);
    let a = Set::new(|id: Seq<char>| exists|o: u64| #[trigger] index.contains_key(o) && o < f1 && index[o] == id);
    let b = Set::new(|id: Seq<char>| exists|o: u64| #[trigger] i1.contains_key(o) && o < f2 && i1[o] == id);
    let c = Set::new(|id: Seq<char>| exists|o: u64| #[trigger] index.contains_key(o) && o < f2 && index[o] == id);
    assert(a.union(b) =~= c) by {
        assert forall|id: Seq<char>| #[trigger] a.union(b).contains(id) == c.contains(id) by {
            if c.contains(id) {
                let o = choose|o: u64| #[trigger] index.contains_key(o) && o < f2 && index[o] == id;
                if o >= f1 {
                    assert(i1.contains_key(o));
                } else {
                    assert(a.contains(id));
                }
            }
            if b.contains(id) {
                let o = choose|o: u64| #[trigger] i1.contains_key(o) && o < f2 && i1[o] == id;
                assert(index.contains_key(o));
            }
        }
    }
    assert(prune_orders(prune_orders(orders, index, f1), i1, f2) =~= prune_orders(orders, index, f2));
}

/// Once no order below the floor is left, the restricted map is the pruned one.
proof fn lemma_restrict_done(idx0: Map<u64, Seq<char>>, ord0: Map<Seq<char>, u64>, lo: u64, floor: u64, cur: Map<u64, Seq<char>>)
    requires
        lo <= floor,
        cur == idx0.restrict(Set::new(|o: u64| o >= lo)),
        forall|k: u64| #[trigger] cur.contains_key(k) ==> k >= floor,
    ensures
        cur == prune_index(idx0, floor),
        ord0.remove_keys(Set::new(|id: Seq<char>| exists|o: u64| #[trigger] idx0.contains_key(o) && o < lo && idx0[o] == id))
            == prune_orders(ord0, idx0, floor),
{
    assert(cur =~= prune_index(idx0, floor)) by {
        assert forall|o: u64| #[trigger] cur.contains_key(o) == prune_index(idx0, floor).contains_key(o) by {
            if idx0.contains_key(o) && o >= floor {
                assert(o >= lo);
            }
        }
    }
    let a = Set::new(|id: Seq<char>| exists|o: u64| #[trigger] idx0.contains_key(o) && o < lo && idx0[o] == id);
    let b = Set::new(|id: Seq<char>| exists|o: u64| #[trigger] idx0.contains_key(o) && o < floor && idx0[o] == id);
    assert(a =~= b) by {
        assert forall|id: Seq<char>| #[trigger] a.contains(id) == b.contains(id) by {
            if b.contains(id) {
                let o = choose|o: u64| #[trigger] idx0.contains_key(o) && o < floor && idx0[o] == id;
                if o >= lo {
                    assert(cur.contains_key(o));
                }
            }
        }
    }
}

/// The number of entries of an order map's denotation.
proof fn lemma_dom_len_of<V: View>(m: &OrderMap<V>)
    requires
        m.wf(),
    ensures
        m.map().dom().finite(),
{
    m.lemma_wf();
    crate::maps::lemma_dom_len(m.list());
}

/// An outbound message as first queued.
pub open spec fn queued_view(message_id: Seq<char>, conversation_id: Seq<char>, order: u64, sent_at_unix_ms: i64, kind: MessageKind, body: Seq<u8>) -> OutgoingView {
    OutgoingView { message_id, conversation_id, delivery_order: order, sent_at_unix_ms, kind, body, attempt_count: 0 }
}

} // verus!
