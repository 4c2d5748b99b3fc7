//! What the client makes of a contact's device and of what its sessions
//! deliver: the device a contact invite describes, the events delivered
//! messages are reported as, and how the chat runtimes name the messages
//! they send.

use vstd::prelude::*;
use crate::client::runtime::ConnectionEvent;
use crate::device::{Device, DeviceView, VerificationStatus};
use crate::ids::{identifier_text_check_spec, DeviceId, MemberId};
use crate::messaging::engine::DeliveredMessage;
use crate::outside::{string_from_utf8_lossy, utf8_lossy};
use crate::server_protocol::contacts::DeviceContactInvite;
use crate::text::{decimal_spec, is_blank_spec, owned, push_decimal, push_str};

verus! {

/// The device a contact invite describes, or the first error: its device
/// id, its member id, its display name.
pub open spec fn invite_device_spec(invite: DeviceContactInvite) -> Result<DeviceView, Seq<char>> {
    match identifier_text_check_spec("device_id"@, invite.device_id@) {
        Err(e) => Err(e),
        Ok(()) => match identifier_text_check_spec("member_id"@, invite.member_id@) {
            Err(e) => Err(e),
            Ok(()) => if is_blank_spec(invite.display_name@) {
                Err("display name cannot be empty"@)
            } else {
                Ok(
                    DeviceView {
                        device_id: invite.device_id@,
                        owner_member_id: invite.member_id@,
                        device_name: invite.display_name@,
                        agreement_public_key: invite.identity_keys.agreement_public_key@,
                        signing_public_key: invite.identity_keys.signing_public_key@,
                        verification_status: VerificationStatus::Pending,
                    },
                )
            },
        },
    }
}

/// The device a contact invite describes (see `invite_device_spec`), not
/// yet verified.
pub fn remote_device_from_invite(invite: &DeviceContactInvite) -> (r: Result<Device, String>)
    ensures
        match invite_device_spec(*invite) {
            Ok(d) => r matches Ok(x) && x@ == d,
            Err(e) => r matches Err(x) && x@ == e,
        },
{
    proof {
        reveal_strlit("device_id");
        reveal_strlit("member_id");
    }
    let device_id = match DeviceId::new(invite.device_id.as_str()) {
        Ok(d) => d,
        Err(e) => return Err(e.message()),
    };
    let member_id = match MemberId::new(invite.member_id.as_str()) {
        Ok(m) => m,
        Err(e) => return Err(e.message()),
    };
    match Device::new(device_id, member_id, invite.display_name.as_str(), invite.identity_keys.duplicate()) {
        Ok(d) => Ok(d),
        Err(e) => Err(e.message()),
    }
}

/// How a delivered message is reported: from the device, with its
/// conversation, id, time and body as text.
pub open spec fn inbound_event_of(e: ConnectionEvent, device_id: Seq<char>, m: DeliveredMessage) -> bool {
    &&& e matches ConnectionEvent::InboundMessage { device_id: d, conversation_id: c, message_id: i, body: b, sent_at_unix_ms: t }
    &&& d@ == device_id
    &&& c@ == m@.conversation_id
    &&& i@ == m@.message_id
    &&& b@ == utf8_lossy(m@.body)
    &&& t == m@.sent_at_unix_ms
}

/// The events the messages a session delivered are reported as, in order.
pub fn inbound_events(device_id: &str, delivered: &[DeliveredMessage]) -> (r: Vec<ConnectionEvent>)
    ensures
        r@.len() == delivered@.len(),
        forall|k: int| 0 <= k < r@.len() ==> inbound_event_of(#[trigger] r@[k], device_id@, delivered@[k]),
{
    let mut out: Vec<ConnectionEvent> = Vec::new();
    let mut i: usize = 0;
    while i < delivered.len()
        invariant
            i <= delivered@.len(),
            out@.len() == i,
            forall|k: int| 0 <= k < i ==> inbound_event_of(#[trigger] out@[k], device_id@, delivered@[k]),
        decreases delivered@.len() - i,
    {
        let m = &delivered[i];
        out.push(ConnectionEvent::InboundMessage {
            device_id: owned(device_id),
            conversation_id: owned(m.conversation_id()),
            message_id: owned(m.message_id()),
            body: string_from_utf8_lossy(m.body()),
            sent_at_unix_ms: m.sent_at_unix_ms(),
        });
        i = i + 1;
    }
    out
}

/// A direct chat's send is acknowledged when acknowledgements came back
/// and nothing is left pending.
pub fn direct_send_acknowledged(acknowledged: usize, pending: usize) -> (r: bool)
    ensures
        r == (acknowledged > 0 && pending == 0),
{
    acknowledged > 0 && pending == 0
}

/// The id of a demo peer's reply in a direct chat:
/// `<conversation>-<device>-reply-<index>`.
pub fn direct_reply_message_id(conversation_id: &str, remote_device_id: &str, reply_index: u64) -> (r: String)
    ensures
        r@ == conversation_id@ + "-"@ + remote_device_id@ + "-reply-"@ + decimal_spec(reply_index as nat),
{
    let mut out = owned(conversation_id);
    push_str(&mut out, "-");
    push_str(&mut out, remote_device_id);
    push_str(&mut out, "-reply-");
    push_decimal(&mut out, reply_index);
    out
}

/// The id of the copy of a group message sent to one member:
/// `<message>-to-<member>`.
pub fn group_fanout_id(message_id: &str, member_key: &str) -> (r: String)
    ensures
        r@ == message_id@ + "-to-"@ + member_key@,
{
    let mut out = owned(message_id);
    push_str(&mut out, "-to-");
    push_str(&mut out, member_key);
    out
}

/// The id of a demo member's reply in a group: `grp-reply-<member>-<index>`.
pub fn group_reply_id(member_key: &str, reply_index: u64) -> (r: String)
    ensures
        r@ == "grp-reply-"@ + member_key@ + "-"@ + decimal_spec(reply_index as nat),
{
    let mut out = owned("grp-reply-");
    push_str(&mut out, member_key);
    push_str(&mut out, "-");
    push_decimal(&mut out, reply_index);
    out
}

/// The id of the copy of a member's reply sent back: `<reply>-to-local`.
pub fn reply_fanout_id(reply_id: &str) -> (r: String)
    ensures
        r@ == reply_id@ + "-to-local"@,
{
    let mut out = owned(reply_id);
    push_str(&mut out, "-to-local");
    out
}

} // verus!
