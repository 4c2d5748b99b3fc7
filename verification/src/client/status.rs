//! The status lines the client shows: discovery, updates, and joining a
//! relay by invite.

use vstd::prelude::*;
use crate::client::chats::{tray_text_spec, unread_total, ChatBook};
use crate::client::views::InvitePreviewView;
use crate::server_protocol::messages::JoinAccepted;
use crate::text::{copy_string, decimal_spec, owned, push_decimal, push_str};

verus! {

/// The discovery line: active with the number of peers found, or disabled.
pub fn discovery_mode_label(active: bool, peer_count: usize) -> (r: String)
    ensures
        active ==> r@ == "mDNS discovery active ("@ + decimal_spec(peer_count as nat) + " peer(s) found)"@,
        !active ==> r@ == "mDNS discovery disabled"@,
{
    if active {
        let mut out = owned("mDNS discovery active (");
        push_decimal(&mut out, peer_count as u64);
        push_str(&mut out, " peer(s) found)");
        out
    } else {
        owned("mDNS discovery disabled")
    }
}

/// The updater line: the feed when one is configured.
pub fn updater_status_label(feed_url: Option<&str>) -> (r: String)
    ensures
        feed_url matches Some(u) ==> r@ == "Signed updater feed configured at "@ + u@
            + ", but runtime install is disabled until the packaged app enables the Tauri updater plugin."@,
        feed_url is None ==> r@ == "No updater feed configured. Release bundles can still produce signed updater artifacts."@,
{
    match feed_url {
        Some(u) => {
            let mut out = owned("Signed updater feed configured at ");
            push_str(&mut out, u);
            push_str(&mut out, ", but runtime install is disabled until the packaged app enables the Tauri updater plugin.");
            out
        },
        None => owned("No updater feed configured. Release bundles can still produce signed updater artifacts."),
    }
}

/// The onboarding line once an invite was previewed.
pub fn invite_ready_status(label: &str, server_addr: &str) -> (r: String)
    ensures
        r@ == "Invite ready for "@ + label@ + " at "@ + server_addr@ + "."@,
{
    let mut out = owned("Invite ready for ");
    push_str(&mut out, label);
    push_str(&mut out, " at ");
    push_str(&mut out, server_addr);
    push_str(&mut out, ".");
    out
}

/// The onboarding line once the relay accepted the device.
pub fn joined_relay_status(join: &JoinAccepted) -> (r: String)
    ensures
        r@ == "Joined relay "@ + join.server_addr@ + " as "@ + join.device_id@ + "."@,
{
    let mut out = owned("Joined relay ");
    push_str(&mut out, join.server_addr.as_str());
    push_str(&mut out, " as ");
    push_str(&mut out, join.device_id.as_str());
    push_str(&mut out, ".");
    out
}

/// The invite shown once the relay accepted the device: the relay it joined,
/// active, with no uses left to count.
pub fn joined_invite_preview(join: &JoinAccepted) -> (r: InvitePreviewView)
    ensures
        r.invite_id@ == join.invite_id@,
        r.label@ == "Joined relay"@,
        r.server_addr@ == join.server_addr@,
        r.server_name@ == join.server_name@,
        r.expires_at_label@ == "active"@,
        r.max_uses == 0,
{
    InvitePreviewView {
        invite_id: copy_string(&join.invite_id),
        label: owned("Joined relay"),
        server_addr: copy_string(&join.server_addr),
        server_name: copy_string(&join.server_name),
        expires_at_label: owned("active"),
        max_uses: 0,
    }
}

impl ChatBook {
    /// Refreshes the tray line from the unread counts.
    pub fn refresh_tray(&mut self)
        requires
            unread_total(old(self).chats@) <= u32::MAX,
        ensures
            final(self).chats == old(self).chats,
            final(self).message_counter == old(self).message_counter,
            final(self).local_display_name == old(self).local_display_name,
            final(self).last_notification == old(self).last_notification,
            final(self).tray_status@ == tray_text_spec(unread_total(old(self).chats@)),
    {
        let unread = self.total_unread_count();
        self.tray_status = if unread == 0 {
            owned("Tray idle")
        } else {
            let mut t = String::new();
            push_decimal(&mut t, unread as u64);
            push_str(&mut t, " unread");
            t
        };
    }
}

} // verus!
