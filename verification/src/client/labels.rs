//! Keeping each direct chat's presence and trust lines in step with its
//! contact's device, and opening a chat with a newly found peer.

use vstd::prelude::*;
use crate::client::chats::{
    chat_not_found, first_chat, lemma_unread_total_update, tray_text_spec, unread_total, ChatBook, find_chat,
};
use crate::client::trust::{
    contact_views, presence_state_for_device, security_label_for_device, security_label_spec, verified_somewhere,
};
use crate::client::views::{presence_label, ChatKindView, ChatThreadView, PresenceStateView};
use crate::discovery::peer::DiscoveredPeer;
use crate::member::{MemberProfile, MemberProfileView};
use crate::text::{copy_string, owned, push_str, str_eq};

verus! {

/// The texts of a list of strings.
pub open spec fn string_texts(v: Seq<String>) -> Seq<Seq<char>> {
    v.map_values(|s: String| s@)
}

/// How a chat bound to a device is shown as present (see
/// `presence_state_for_device`).
pub open spec fn bound_presence(contacts: Seq<MemberProfileView>, device_id: Seq<char>, runtime_devices: Seq<Seq<char>>) -> PresenceStateView {
    if !runtime_devices.contains(device_id) {
        PresenceStateView::Offline
    } else if verified_somewhere(contacts, device_id) {
        PresenceStateView::Online
    } else {
        PresenceStateView::Reconnecting
    }
}

/// The presence line of a presence state.
pub open spec fn presence_text(p: PresenceStateView) -> Seq<char> {
    match p {
        PresenceStateView::Online => "secure session active · online"@,
        PresenceStateView::Reconnecting => "runtime reachable, verification pending"@,
        PresenceStateView::Offline => "offline"@,
    }
}

impl ChatBook {
    /// Sets the presence and trust lines of every chat bound to a contact's
    /// device, binding by binding: the chat shows the presence of its device
    /// (online when a runtime reaches it and it was verified, pending when
    /// only a runtime reaches it, offline otherwise) and the device's trust
    /// line with forward secrecy active. Chats of ids not bound keep their
    /// lines, and nothing else of any chat changes.
    pub fn sync_chat_labels(
        &mut self,
        bindings: &Vec<(String, String)>,
        contacts: &Vec<MemberProfile>,
        runtime_devices: &Vec<String>,
    )
        ensures
            final(self).message_counter == old(self).message_counter,
            final(self).local_display_name == old(self).local_display_name,
            final(self).last_notification == old(self).last_notification,
            final(self).tray_status == old(self).tray_status,
            final(self).chats@.len() == old(self).chats@.len(),
            forall|k: int| 0 <= k < old(self).chats@.len() ==> {
                let oc = #[trigger] old(self).chats@[k];
                let nc = final(self).chats@[k];
                &&& nc.id == oc.id && nc.title == oc.title && nc.summary == oc.summary && nc.unread_count == oc.unread_count
                &&& nc.kind == oc.kind && nc.participants == oc.participants && nc.messages == oc.messages
                &&& (forall|b: int| 0 <= b < bindings@.len() ==> first_chat(old(self).chats@, #[trigger] bindings@[b].0@)
                    != Some(k)) ==> nc == oc
            },
            forall|b: int| 0 <= b < bindings@.len() && first_chat(old(self).chats@, (#[trigger] bindings@[b]).0@) is Some
                && (forall|b2: int| b < b2 < bindings@.len() ==> bindings@[b2].0@ != bindings@[b].0@) ==> {
                let k = first_chat(old(self).chats@, bindings@[b].0@)->0;
                let p = bound_presence(contact_views(contacts@), bindings@[b].1@, string_texts(runtime_devices@));
                &&& final(self).chats@[k].presence_state == p
                &&& final(self).chats@[k].presence_label@ == presence_text(p)
                &&& final(self).chats@[k].security_label@ == security_label_spec(
                    contact_views(contacts@),
                    bindings@[b].1@,
                    true,
                )
            },
    {
        let ghost old_chats = self.chats@;
        let mut i: usize = 0;
        while i < bindings.len()
            invariant
                i <= bindings@.len(),
                self.message_counter == old(self).message_counter,
                self.local_display_name == old(self).local_display_name,
                self.last_notification == old(self).last_notification,
                self.tray_status == old(self).tray_status,
                old_chats == old(self).chats@,
                self.chats@.len() == old_chats.len(),
                forall|c: Seq<char>| #[trigger] first_chat(self.chats@, c) == first_chat(old_chats, c),
                forall|k: int| 0 <= k < old_chats.len() ==> {
                    let oc = #[trigger] old_chats[k];
                    let nc = self.chats@[k];
                    &&& nc.id == oc.id && nc.title == oc.title && nc.summary == oc.summary && nc.unread_count
                        == oc.unread_count
                    &&& nc.kind == oc.kind && nc.participants == oc.participants && nc.messages == oc.messages
                    &&& (forall|b: int| 0 <= b < i ==> first_chat(old_chats, #[trigger] bindings@[b].0@) != Some(k))
                        ==> nc == oc
                },
                forall|b: int| 0 <= b < i && first_chat(old_chats, (#[trigger] bindings@[b]).0@) is Some && (forall|
                    b2: int,
                | b < b2 < i ==> bindings@[b2].0@ != bindings@[b].0@) ==> {
                    let k = first_chat(old_chats, bindings@[b].0@)->0;
                    let p = bound_presence(contact_views(contacts@), bindings@[b].1@, string_texts(runtime_devices@));
                    &&& self.chats@[k].presence_state == p
                    &&& self.chats@[k].presence_label@ == presence_text(p)
                    &&& self.chats@[k].security_label@ == security_label_spec(contact_views(contacts@), bindings@[b].1@, true)
                },
            decreases bindings@.len() - i,
        {
            let chat_id = bindings[i].0.as_str();
            let device_id = bindings[i].1.as_str();
            let security = security_label_for_device(contacts, device_id, true);
            let has_runtime = contains_text(runtime_devices, device_id);
            let presence = presence_state_for_device(contacts, device_id, has_runtime);
            match find_chat(&self.chats, chat_id) {
                None => {
                    proof {
                        let ni = (i + 1) as int;
                        assert forall|b: int| 0 <= b < ni && first_chat(old_chats, (#[trigger] bindings@[b]).0@) is Some && (forall|
                            b2: int,
                        | b < b2 < ni ==> bindings@[b2].0@ != bindings@[b].0@) implies {
                            let kb = first_chat(old_chats, bindings@[b].0@)->0;
                            let p = bound_presence(contact_views(contacts@), bindings@[b].1@, string_texts(runtime_devices@));
                            &&& self.chats@[kb].presence_state == p
                            &&& self.chats@[kb].presence_label@ == presence_text(p)
                            &&& self.chats@[kb].security_label@ == security_label_spec(contact_views(contacts@), bindings@[b].1@, true)
                        } by {
                            if b == i {
                                assert(first_chat(self.chats@, chat_id@) is None);
                            }
                        }
                    }
                },
                Some(k) => {
                    let ghost before = self.chats@;
                    let mut chat = self.chats.remove(k);
                    chat.presence_label = owned(presence_label(presence));
                    chat.presence_state = presence;
                    chat.security_label = security;
                    let ghost nc = chat;
                    self.chats.insert(k, chat);
                    proof {
                        assert(self.chats@ =~= before.update(k as int, nc));
                        crate::client::chats::lemma_first_chat(before, chat_id@);
                        assert forall|c: Seq<char>| #[trigger] first_chat(self.chats@, c) == first_chat(before, c) by {
                            lemma_first_chat_same_ids(before, self.chats@, c);
                        }
                        crate::client::chats::lemma_first_chat(old_chats, chat_id@);
                        let ni = (i + 1) as int;
                        assert forall|b: int| 0 <= b < ni && first_chat(old_chats, (#[trigger] bindings@[b]).0@) is Some && (forall|
                            b2: int,
                        | b < b2 < ni ==> bindings@[b2].0@ != bindings@[b].0@) implies {
                            let kb = first_chat(old_chats, bindings@[b].0@)->0;
                            let p = bound_presence(contact_views(contacts@), bindings@[b].1@, string_texts(runtime_devices@));
                            &&& self.chats@[kb].presence_state == p
                            &&& self.chats@[kb].presence_label@ == presence_text(p)
                            &&& self.chats@[kb].security_label@ == security_label_spec(contact_views(contacts@), bindings@[b].1@, true)
                        } by {
                            if b < i {
                                assert(bindings@[i as int].0@ != bindings@[b].0@);
                                crate::client::chats::lemma_first_chat(old_chats, bindings@[b].0@);
                                let kb = first_chat(old_chats, bindings@[b].0@)->0;
                                assert(kb != k);
                            }
                        }
                    }
                },
            }
            proof {
                crate::client::chats::lemma_first_chat(old_chats, chat_id@);
            }
            i = i + 1;
        }
    }
}

/// Two lists of chats with the same ids in the same places find the same
/// first chat of every id.
proof fn lemma_first_chat_same_ids(a: Seq<ChatThreadView>, b: Seq<ChatThreadView>, c: Seq<char>)
    requires
        a.len() == b.len(),
        forall|k: int| 0 <= k < a.len() ==> (#[trigger] a[k]).id@ == b[k].id@,
    ensures
        first_chat(a, c) == first_chat(b, c),
    decreases a.len(),
{
    if a.len() > 0 {
        assert forall|k: int| 0 <= k < a.drop_first().len() implies (#[trigger] a.drop_first()[k]).id@ == b.drop_first()[k].id@ by {
            assert(a.drop_first()[k] == a[k + 1]);
            assert(b.drop_first()[k] == b[k + 1]);
        }
        lemma_first_chat_same_ids(a.drop_first(), b.drop_first(), c);
    }
}

/// Whether some string of the list is `x`.
pub fn contains_text(v: &Vec<String>, x: &str) -> (r: bool)
    ensures
        r == string_texts(v@).contains(x@),
{
    let mut i: usize = 0;
    while i < v.len()
        invariant
            i <= v@.len(),
            forall|j: int| 0 <= j < i ==> (#[trigger] v@[j])@ != x@,
        decreases v@.len() - i,
    {
        if str_eq(v[i].as_str(), x) {
            proof {
                assert(string_texts(v@)[i as int] == x@);
            }
            return true;
        }
        i = i + 1;
    }
    proof {
        if string_texts(v@).contains(x@) {
            let j = choose|j: int| 0 <= j < string_texts(v@).len() && string_texts(v@)[j] == x@;
            assert(v@[j]@ == x@);
        }
    }
    false
}

/// Whether a chat can be opened with a discovered device: not when a chat is
/// already bound to it, not when it was not discovered, and not when it was
/// found without an address.
pub fn check_peer_chat(bound_devices: &Vec<String>, device_id: &str, discovered: Option<&DiscoveredPeer>) -> (r: Result<(), String>)
    ensures
        string_texts(bound_devices@).contains(device_id@) ==> (r matches Err(e) && e@
            == "Chat with this device already exists"@),
        !string_texts(bound_devices@).contains(device_id@) ==> match discovered {
            None => r matches Err(e) && e@ == "Device '"@ + device_id@ + "' not found in discovered peers. Refresh peers first."@,
            Some(peer) => if peer.socket_address is None {
                r matches Err(e) && e@ == "Discovered peer '"@ + peer.device_name@ + "' has no network address"@
            } else {
                r is Ok
            },
        },
{
    if contains_text(bound_devices, device_id) {
        return Err(owned("Chat with this device already exists"));
    }
    match discovered {
        None => {
            let mut e = owned("Device '");
            push_str(&mut e, device_id);
            push_str(&mut e, "' not found in discovered peers. Refresh peers first.");
            Err(e)
        },
        Some(peer) => {
            if peer.socket_address.is_none() {
                let mut e = owned("Discovered peer '");
                push_str(&mut e, peer.device_name.as_str());
                push_str(&mut e, "' has no network address");
                return Err(e);
            }
            Ok(())
        },
    }
}

impl ChatBook {
    /// Opens a direct chat with a peer whose session was just set up: a new
    /// empty chat, read, online and end-to-end encrypted, named after the
    /// device and shared by the local user and the peer, is added last; the
    /// counter advances and a notification names the device. Gives the
    /// chat's id.
    pub fn open_peer_chat(&mut self, device_id: &str, device_name: &str) -> (r: String)
        requires
            unread_total(old(self).chats@) <= u32::MAX,
        ensures
            r@ == "chat-"@ + device_id@,
            final(self).message_counter == crate::client::sending::next_counter(old(self).message_counter),
            final(self).local_display_name == old(self).local_display_name,
            final(self).chats@.len() == old(self).chats@.len() + 1,
            forall|k: int| 0 <= k < old(self).chats@.len() ==> final(self).chats@[k] == old(self).chats@[k],
            ({
                let c = final(self).chats@.last();
                &&& c.id@ == r@
                &&& c.title@ == device_name@
                &&& c.summary@ == "Secure session with "@ + device_name@
                &&& c.presence_label@ == "secure session active"@
                &&& c.presence_state == PresenceStateView::Online
                &&& c.unread_count == 0
                &&& c.security_label@ == "E2EE session established"@
                &&& c.kind == ChatKindView::Direct
                &&& string_texts(c.participants@) == seq![old(self).local_display_name@, device_name@]
                &&& c.messages@.len() == 0
            }),
            final(self).last_notification@ == "Started chat with peer "@ + device_id@,
            final(self).tray_status@ == tray_text_spec(unread_total(final(self).chats@)),
    {
        let mut chat_id = owned("chat-");
        push_str(&mut chat_id, device_id);
        self.message_counter = self.message_counter.saturating_add(1);
        let mut summary = owned("Secure session with ");
        push_str(&mut summary, device_name);
        let mut participants: Vec<String> = Vec::new();
        participants.push(copy_string(&self.local_display_name));
        participants.push(owned(device_name));
        let chat = ChatThreadView {
            id: copy_string(&chat_id),
            title: owned(device_name),
            summary,
            presence_label: owned("secure session active"),
            presence_state: PresenceStateView::Online,
            unread_count: 0,
            security_label: owned("E2EE session established"),
            kind: ChatKindView::Direct,
            participants,
            messages: Vec::new(),
        };
        let ghost old_chats = self.chats@;
        self.chats.push(chat);
        proof {
            assert(self.chats@.drop_last() =~= old_chats);
            assert(string_texts(chat.participants@) =~= seq![self.local_display_name@, device_name@]);
        }
        let mut note = owned("Started chat with peer ");
        push_str(&mut note, device_id);
        self.push_notification(note);
        chat_id
    }
}

} // verus!
