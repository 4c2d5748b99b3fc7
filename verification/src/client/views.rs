//! What the client interface shows, and the small rules that fill it in.

use vstd::prelude::*;
use crate::device::{VerificationMethod, VerificationStatus};
use crate::server_protocol::messages::InvitePreview;
use crate::text::{copy_string, owned, push_str, starts_with, starts_with_spec, str_eq};

verus! {

/// How the user confirms a device.
#[derive(Debug, Clone, Copy, PartialEq, Eq, Structural)]
pub enum VerificationAction {
    Qr,
    Safety,
}

impl VerificationAction {
    /// `qr` or `safety`; anything else is refused with its name.
    pub fn parse(value: &str) -> (r: Result<VerificationAction, String>)
        ensures
            value@ == "qr"@ ==> r == Ok::<VerificationAction, String>(VerificationAction::Qr),
            value@ == "safety"@ ==> r == Ok::<VerificationAction, String>(VerificationAction::Safety),
            value@ != "qr"@ && value@ != "safety"@ ==> (r matches Err(e) && e@
                == "unsupported verification action '"@ + value@ + "'"@),
    {
        proof {
            reveal_strlit("qr");
            reveal_strlit("safety");
            assert("qr"@.len() != "safety"@.len());
        }
        if str_eq(value, "qr") {
            Ok(VerificationAction::Qr)
        } else if str_eq(value, "safety") {
            Ok(VerificationAction::Safety)
        } else {
            let mut e = owned("unsupported verification action '");
            push_str(&mut e, value);
            push_str(&mut e, "'");
            Err(e)
        }
    }
}

/// Status line of the transports, the relay and the route in use.
#[derive(Debug, Clone)]
pub struct TransportStatusView {
    pub discovery_mode: String,
    pub transport_mode: String,
    pub crypto_mode: String,
    pub storage_mode: String,
    pub server_status: String,
    pub auth_status: String,
    pub active_route: String,
}

/// The local user and device.
#[derive(Debug, Clone)]
pub struct LocalProfileView {
    pub display_name: String,
    pub active_device_name: String,
    pub active_device_id: String,
    pub trusted_device_count: usize,
    pub total_device_count: usize,
}

/// A pending invite as shown before joining.
#[derive(Debug, Clone)]
pub struct InvitePreviewView {
    pub invite_id: String,
    pub label: String,
    pub server_addr: String,
    pub server_name: String,
    pub expires_at_label: String,
    pub max_uses: u32,
}

/// Progress of joining a relay.
#[derive(Debug, Clone)]
pub struct OnboardingView {
    pub status_label: String,
    pub invite_preview: Option<InvitePreviewView>,
}

/// The state of updates.
#[derive(Debug, Clone)]
pub struct UpdaterView {
    pub current_version: String,
    pub channel: String,
    pub status_label: String,
    pub last_checked_label: String,
    pub can_auto_update: bool,
    pub feed_url: Option<String>,
}

/// Unread notifications.
#[derive(Debug, Clone)]
pub struct NotificationCenterView {
    pub tray_label: String,
    pub unread_count: u32,
    pub last_event: String,
}

#[derive(Debug, Clone, Copy, PartialEq, Eq, Structural)]
pub enum ChatKindView {
    Direct,
    Group,
}

#[derive(Debug, Clone, Copy, PartialEq, Eq, Structural)]
pub enum PresenceStateView {
    Online,
    Reconnecting,
    Offline,
}

#[derive(Debug, Clone, Copy, PartialEq, Eq, Structural)]
pub enum MessageDirectionView {
    Inbound,
    Outbound,
    System,
}

#[derive(Debug, Clone, Copy, PartialEq, Eq, Structural)]
pub enum DeliveryStateView {
    Queued,
    Sent,
    Delivered,
    Seen,
}

/// An attachment as shown in a message.
#[derive(Debug, Clone)]
pub struct MessageAttachmentView {
    pub id: String,
    pub file_name: String,
    pub mime_type: String,
    pub size_label: String,
    pub transfer_route: String,
    pub status_label: String,
    pub preview_data_url: Option<String>,
    pub blob_id: Option<String>,
}

/// A message as shown in a chat.
#[derive(Debug, Clone)]
pub struct MessageView {
    pub id: String,
    pub author: String,
    pub body: String,
    pub timestamp_label: String,
    pub direction: MessageDirectionView,
    pub delivery_state: DeliveryStateView,
    pub forwarded_from: Option<String>,
    pub reply_preview: Option<String>,
    pub reactions: Vec<String>,
    pub attachments: Vec<MessageAttachmentView>,
}

/// A chat as shown in the list.
#[derive(Debug, Clone)]
pub struct ChatThreadView {
    pub id: String,
    pub title: String,
    pub summary: String,
    pub presence_label: String,
    pub presence_state: PresenceStateView,
    pub unread_count: u32,
    pub security_label: String,
    pub kind: ChatKindView,
    pub participants: Vec<String>,
    pub messages: Vec<MessageView>,
}

#[derive(Debug, Clone, Copy, PartialEq, Eq, Structural)]
pub enum PeerStateCode {
    Live,
    Reconnecting,
    Dormant,
}

/// A peer as shown in the peer list.
#[derive(Debug, Clone)]
pub struct PeerView {
    pub member_id: String,
    pub device_id: String,
    pub device_name: String,
    pub endpoint: String,
    pub hostname: Option<String>,
    pub capabilities: Vec<String>,
    pub state: PeerStateCode,
    pub trust_label: String,
    pub last_seen_label: String,
}

#[derive(Debug, Clone, Copy, PartialEq, Eq, Structural)]
pub enum VerificationStateCode {
    Pending,
    Verified,
}

#[derive(Debug, Clone, Copy, PartialEq, Eq, Structural)]
pub enum VerificationMethodCode {
    QrCode,
    SafetyNumber,
}

/// A device in the verification workspace.
#[derive(Debug, Clone)]
pub struct VerificationDeviceView {
    pub member_id: String,
    pub member_name: String,
    pub device_id: String,
    pub device_name: String,
    pub state: VerificationStateCode,
    pub method: Option<VerificationMethodCode>,
    pub safety_number: String,
    pub qr_payload_hex: String,
}

/// Devices to verify and how many are trusted.
#[derive(Debug, Clone)]
pub struct VerificationWorkspaceView {
    pub trusted_device_count: usize,
    pub pending_device_count: usize,
    pub devices: Vec<VerificationDeviceView>,
}

/// Everything the interface shows.
#[derive(Debug, Clone)]
pub struct ClientSnapshot {
    pub transport_status: TransportStatusView,
    pub server_status: String,
    pub auth_status: String,
    pub active_route: String,
    pub notifications: NotificationCenterView,
    pub local_profile: LocalProfileView,
    pub chats: Vec<ChatThreadView>,
    pub peers: Vec<PeerView>,
    pub verification: VerificationWorkspaceView,
    pub onboarding: OnboardingView,
    pub updater: UpdaterView,
}

/// The longest preview of a message body, in characters.
pub const MAX_PREVIEW_CHARS: usize = 72;

/// The body itself when it has at most 72 characters, else its first 69
/// characters and `...`.
pub open spec fn preview_spec(body: Seq<char>) -> Seq<char> {
    if body.len() <= MAX_PREVIEW_CHARS {
        body
    } else {
        body.take((MAX_PREVIEW_CHARS - 3) as int) + "..."@
    }
}

pub fn preview(body: &str) -> (r: String)
    ensures
        r@ == preview_spec(body@),
{
    let n = body.unicode_len();
    if n <= MAX_PREVIEW_CHARS {
        owned(body)
    } else {
        let mut out = owned(body.substring_char(0, MAX_PREVIEW_CHARS - 3));
        push_str(&mut out, "...");
        out
    }
}

pub open spec fn attachment_body_spec(file_name: Seq<char>, mime_type: Seq<char>) -> Seq<char> {
    if starts_with_spec(mime_type, "image/"@) {
        "Shared photo: "@ + file_name
    } else if mime_type == "application/pdf"@ {
        "Shared document: "@ + file_name
    } else {
        "Shared file: "@ + file_name
    }
}

/// The message body that announces a shared file.
pub fn attachment_body(file_name: &str, mime_type: &str) -> (r: String)
    ensures
        r@ == attachment_body_spec(file_name@, mime_type@),
{
    let mut out = if starts_with(mime_type, "image/") {
        owned("Shared photo: ")
    } else if str_eq(mime_type, "application/pdf") {
        owned("Shared document: ")
    } else {
        owned("Shared file: ")
    };
    push_str(&mut out, file_name);
    out
}

pub fn verification_state_code(status: &VerificationStatus) -> (r: VerificationStateCode)
    ensures
        r == (match *status {
            VerificationStatus::Pending => VerificationStateCode::Pending,
            VerificationStatus::Verified { .. } => VerificationStateCode::Verified,
        }),
{
    match status {
        VerificationStatus::Pending => VerificationStateCode::Pending,
        VerificationStatus::Verified { .. } => VerificationStateCode::Verified,
    }
}

pub fn verification_method_code(status: &VerificationStatus) -> (r: Option<VerificationMethodCode>)
    ensures
        r == (match *status {
            VerificationStatus::Pending => None,
            VerificationStatus::Verified { method: VerificationMethod::SafetyNumber } => Some(
                VerificationMethodCode::SafetyNumber,
            ),
            VerificationStatus::Verified { method: VerificationMethod::QrCode } => Some(
                VerificationMethodCode::QrCode,
            ),
        }),
{
    match status {
        VerificationStatus::Pending => None,
        VerificationStatus::Verified { method } => Some(
            match method {
                VerificationMethod::SafetyNumber => VerificationMethodCode::SafetyNumber,
                VerificationMethod::QrCode => VerificationMethodCode::QrCode,
            },
        ),
    }
}

/// How a time is shown; every time is shown as `now`.
pub fn timestamp_label(unix_ms: i64) -> (r: String)
    ensures
        r@ == "now"@,
{
    owned("now")
}

/// The invite preview as shown before joining.
pub fn invite_preview_view(preview: &InvitePreview) -> (r: InvitePreviewView)
    ensures
        r.invite_id@ == preview.invite_id@,
        r.label@ == preview.label@,
        r.server_addr@ == preview.server_addr@,
        r.server_name@ == preview.server_name@,
        r.expires_at_label@ == "now"@,
        r.max_uses == preview.max_uses,
{
    InvitePreviewView {
        invite_id: copy_string(&preview.invite_id),
        label: copy_string(&preview.label),
        server_addr: copy_string(&preview.server_addr),
        server_name: copy_string(&preview.server_name),
        expires_at_label: timestamp_label(preview.expires_at_unix_ms),
        max_uses: preview.max_uses,
    }
}

pub fn presence_label(presence_state: PresenceStateView) -> (r: &'static str)
    ensures
        r@ == match presence_state {
            PresenceStateView::Online => "secure session active · online"@,
            PresenceStateView::Reconnecting => "runtime reachable, verification pending"@,
            PresenceStateView::Offline => "offline"@,
        },
{
    match presence_state {
        PresenceStateView::Online => "secure session active · online",
        PresenceStateView::Reconnecting => "runtime reachable, verification pending",
        PresenceStateView::Offline => "offline",
    }
}

} // verus!
