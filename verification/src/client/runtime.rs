//! What the client's chat runtimes report back: delivered replies, send
//! outcomes and connection events, and the scripted replies of the demo peers.

use vstd::prelude::*;

verus! {

/// A reply the direct chat received.
#[derive(Debug, Clone)]
pub struct RuntimeInboundMessage {
    pub message_id: String,
    pub body: String,
    pub sent_at_unix_ms: i64,
}

/// What sending one direct message produced.
#[derive(Debug, Clone)]
pub struct RuntimeSendOutcome {
    pub outbound_acknowledged: bool,
    pub inbound_messages: Vec<RuntimeInboundMessage>,
    pub forward_secrecy_active: bool,
}

/// A reply the group chat received.
#[derive(Debug, Clone)]
pub struct RuntimeInboundGroupMessage {
    pub message_id: String,
    pub author: String,
    pub body: String,
    pub sent_at_unix_ms: i64,
}

/// What sending one group message produced.
#[derive(Debug, Clone)]
pub struct GroupSendOutcome {
    pub members_reached: usize,
    pub inbound_messages: Vec<RuntimeInboundGroupMessage>,
}

/// One remote member of a group chat the runtime sets up.
pub struct GroupRemoteMemberSpec<'a> {
    pub member_id: &'a str,
    pub display_name: &'a str,
    pub device_id: &'a str,
    pub device_name: &'a str,
    pub prekey_seed: u32,
    pub reply_script: Vec<&'a str>,
}

/// How a peer can currently be reached.
#[derive(Debug, Clone, Copy, PartialEq, Eq, Structural)]
pub enum PeerTransportPresence {
    LanOnline,
    RelayOnline,
    OfflineButQueueable,
}

/// What the connection manager reports.
#[derive(Debug, Clone)]
pub enum ConnectionEvent {
    PresenceChanged { device_id: String, presence: PeerTransportPresence },
    InboundMessage { device_id: String, conversation_id: String, message_id: String, body: String, sent_at_unix_ms: i64 },
}

/// What sending over a live peer connection produced.
#[derive(Debug, Clone)]
pub struct RealSendOutcome {
    pub outbound_acknowledged: bool,
    pub forward_secrecy_active: bool,
}

/// The next scripted reply of a demo peer: the replies are used in turn,
/// cycling, and an empty script never replies.  Gives the reply and the
/// next position, which saturates.
pub fn next_reply_body(reply_script: &Vec<String>, next_reply_index: u64) -> (r: (Option<String>, u64))
    ensures
        reply_script@.len() == 0 ==> r.0 is None && r.1 == next_reply_index,
        reply_script@.len() > 0 ==> (r.0 matches Some(b) && b@ == reply_script@[(next_reply_index as usize) as int
            % reply_script@.len() as int]@) && r.1 == (if next_reply_index == u64::MAX {
            u64::MAX
        } else {
            (next_reply_index + 1) as u64
        }),
{
    if reply_script.len() == 0 {
        return (None, next_reply_index);
    }
    let index = (next_reply_index as usize) % reply_script.len();
    let body = reply_script[index].clone();
    (Some(body), next_reply_index.saturating_add(1))
}

} // verus!
