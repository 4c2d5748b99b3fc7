//! Routing of peer frames: deliver to an online recipient, queue for an
//! offline one, refuse an unknown or disabled one.

use vstd::prelude::*;
use crate::bytes::to_vec;
use crate::server_protocol::messages::{PeerFrame, PeerQueued, PeerRelayFrame, PeerUnavailable, PeerUnavailableReason, ServerEnvelope};
use crate::text::{copy_string, owned};

verus! {

/// How a frame was passed on.
#[derive(Debug, Clone, Copy, PartialEq, Eq, Structural)]
pub enum RoutePeerFrameOutcome {
    Delivered,
    Queued,
}

/// What the registry said of a frame's recipient, and whether it is connected.
#[derive(Debug, Clone, Copy, PartialEq, Eq, Structural)]
pub enum RecipientLookup {
    LookupFailed,
    Unknown,
    Found { disabled: bool, online: bool },
}

/// What the relay does with a frame.
#[derive(Debug, Clone, Copy, PartialEq, Eq, Structural)]
pub enum RouteAction {
    Refuse(PeerUnavailableReason),
    Queue,
    Deliver,
}

/// An unknown recipient (or a failed lookup) and a disabled one are refused;
/// an online recipient gets the frame now, an offline one later.
pub open spec fn route_action_spec(lookup: RecipientLookup) -> RouteAction {
    match lookup {
        RecipientLookup::LookupFailed => RouteAction::Refuse(PeerUnavailableReason::UnknownRecipient),
        RecipientLookup::Unknown => RouteAction::Refuse(PeerUnavailableReason::UnknownRecipient),
        RecipientLookup::Found { disabled, online } => if disabled {
            RouteAction::Refuse(PeerUnavailableReason::Disabled)
        } else if online {
            RouteAction::Deliver
        } else {
            RouteAction::Queue
        },
    }
}

/// A disabled recipient is refused as disabled, connected or not, so a frame
/// is never queued for or delivered to it; a failed lookup or an unknown
/// recipient is refused as unknown; an enabled recipient gets the frame now
/// when connected and later when not.
pub proof fn lemma_route_action_law(lookup: RecipientLookup)
    ensures
        lookup matches RecipientLookup::Found { disabled: true, .. } ==> route_action_spec(lookup)
            == RouteAction::Refuse(PeerUnavailableReason::Disabled),
        (route_action_spec(lookup) is Queue || route_action_spec(lookup) is Deliver) ==> (lookup matches
            RecipientLookup::Found { disabled: false, .. }),
        route_action_spec(lookup) is Deliver <==> lookup == (RecipientLookup::Found { disabled: false, online: true }),
        route_action_spec(lookup) is Queue <==> lookup == (RecipientLookup::Found { disabled: false, online: false }),
        (lookup is LookupFailed || lookup is Unknown) ==> route_action_spec(lookup) == RouteAction::Refuse(
            PeerUnavailableReason::UnknownRecipient,
        ),
{
}

pub fn route_action(lookup: RecipientLookup) -> (r: RouteAction)
    ensures
        r == route_action_spec(lookup),
        lookup matches RecipientLookup::Found { disabled: true, .. } ==> r == RouteAction::Refuse(
            PeerUnavailableReason::Disabled,
        ),
        (r is Queue || r is Deliver) ==> (lookup matches RecipientLookup::Found { disabled: false, .. }),
        r is Deliver <==> lookup == (RecipientLookup::Found { disabled: false, online: true }),
        r is Queue <==> lookup == (RecipientLookup::Found { disabled: false, online: false }),
        (lookup is LookupFailed || lookup is Unknown) ==> r == RouteAction::Refuse(PeerUnavailableReason::UnknownRecipient),
{
    match lookup {
        RecipientLookup::LookupFailed => RouteAction::Refuse(PeerUnavailableReason::UnknownRecipient),
        RecipientLookup::Unknown => RouteAction::Refuse(PeerUnavailableReason::UnknownRecipient),
        RecipientLookup::Found { disabled, online } => {
            if disabled {
                RouteAction::Refuse(PeerUnavailableReason::Disabled)
            } else if online {
                RouteAction::Deliver
            } else {
                RouteAction::Queue
            }
        },
    }
}

/// The outcome once the action was attempted: a refusal stays one, and a
/// failed delivery or queueing makes the recipient offline.
pub fn route_outcome(action: RouteAction, action_succeeded: bool) -> (r: Result<RoutePeerFrameOutcome, PeerUnavailableReason>)
    ensures
        r == match action {
            RouteAction::Refuse(reason) => Err(reason),
            RouteAction::Queue => if action_succeeded {
                Ok(RoutePeerFrameOutcome::Queued)
            } else {
                Err(PeerUnavailableReason::Offline)
            },
            RouteAction::Deliver => if action_succeeded {
                Ok(RoutePeerFrameOutcome::Delivered)
            } else {
                Err(PeerUnavailableReason::Offline)
            },
        },
{
    match action {
        RouteAction::Refuse(reason) => Err(reason),
        RouteAction::Queue => {
            if action_succeeded {
                Ok(RoutePeerFrameOutcome::Queued)
            } else {
                Err(PeerUnavailableReason::Offline)
            }
        },
        RouteAction::Deliver => {
            if action_succeeded {
                Ok(RoutePeerFrameOutcome::Delivered)
            } else {
                Err(PeerUnavailableReason::Offline)
            }
        },
    }
}

/// The refusal sent back for a frame.
pub fn peer_unavailable(frame: &PeerRelayFrame, reason: PeerUnavailableReason) -> (r: PeerUnavailable)
    ensures
        r.request_id == frame.request_id,
        r.recipient_device_id@ == frame.recipient_device_id@,
        r.reason == reason,
{
    PeerUnavailable {
        request_id: frame.request_id,
        recipient_device_id: copy_string(&frame.recipient_device_id),
        reason,
    }
}

/// The frame as its recipient receives it.
pub fn forwarded_frame(sender_device_id: &str, frame: &PeerRelayFrame) -> (r: ServerEnvelope)
    ensures
        r matches ServerEnvelope::PeerFrame(f) && f.sender_device_id@ == sender_device_id@ && f.payload@
            == frame.payload@,
{
    ServerEnvelope::PeerFrame(PeerFrame { sender_device_id: owned(sender_device_id), payload: to_vec(frame.payload.as_slice()) })
}

/// The notice that a frame was queued.
pub fn queued_notice(frame: &PeerRelayFrame, queued_at_unix_ms: i64) -> (r: ServerEnvelope)
    ensures
        r matches ServerEnvelope::PeerQueued(q) && q.request_id == frame.request_id
            && q.recipient_device_id@ == frame.recipient_device_id@ && q.queued_at_unix_ms
            == queued_at_unix_ms,
{
    ServerEnvelope::PeerQueued(PeerQueued {
        request_id: frame.request_id,
        recipient_device_id: copy_string(&frame.recipient_device_id),
        queued_at_unix_ms,
    })
}

/// A frame waiting in the registry for its recipient.
#[derive(Debug, Clone)]
pub struct QueuedPeerFrameRecord {
    pub row_id: i64,
    pub sender_device_id: String,
    pub recipient_device_id: String,
    pub payload: Vec<u8>,
    pub queued_at_unix_ms: i64,
}

/// Queued frames as the envelopes their recipient receives, each with its row.
pub fn queued_envelopes(records: Vec<QueuedPeerFrameRecord>) -> (r: Vec<(i64, ServerEnvelope)>)
    ensures
        r@.len() == records@.len(),
        forall|i: int| 0 <= i < r@.len() ==> (#[trigger] r@[i]).0 == records@[i].row_id && (r@[i].1 matches ServerEnvelope::PeerFrame(f)
            && f.sender_device_id@ == records@[i].sender_device_id@ && f.payload@ == records@[i].payload@),
{
    let mut out: Vec<(i64, ServerEnvelope)> = Vec::new();
    let mut i: usize = 0;
    while i < records.len()
        invariant
            i <= records@.len(),
            out@.len() == i,
            forall|j: int| 0 <= j < i ==> (#[trigger] out@[j]).0 == records@[j].row_id && (out@[j].1 matches ServerEnvelope::PeerFrame(f)
                && f.sender_device_id@ == records@[j].sender_device_id@ && f.payload@ == records@[j].payload@),
        decreases records@.len() - i,
    {
        let record = &records[i];
        out.push((
            record.row_id,
            ServerEnvelope::PeerFrame(PeerFrame {
                sender_device_id: copy_string(&record.sender_device_id),
                payload: to_vec(record.payload.as_slice()),
            }),
        ));
        i = i + 1;
    }
    out
}

} // verus!
