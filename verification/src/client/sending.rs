//! Sending text and media from the client: the checks before a message
//! leaves, and how a chat shows what was sent and what came back.

use vstd::prelude::*;
use crate::client::chats::{
    chat_not_found, chat_not_found_text, first_chat, first_message, lemma_unread_total_update, message_not_found,
    tray_text_spec, unread_total, ChatBook, find_chat,
};
use crate::client::media::{data_url, MediaRoute};
use crate::client::relay::TransportRoute;
use crate::client::runtime::{RuntimeInboundMessage, RuntimeSendOutcome};
use crate::client::views::{
    attachment_body, attachment_body_spec, preview, preview_spec, timestamp_label, ChatKindView,
    ChatThreadView, DeliveryStateView, MessageAttachmentView, MessageDirectionView, MessageView,
    PresenceStateView,
};
use crate::bytes::bytes_eq;
use crate::client::media::{DirectTransferReceipt, RELAY_MEDIA_MAX_BYTES};
use crate::outside::{base64_standard_decode, base64_standard_decode_error, base64_standard_decode_text, base64_standard_encode};
use crate::text::{
    copy_string, decimal_spec, owned, push_decimal, push_str, starts_with, starts_with_spec, str_eq, trim, trim_spec,
};

verus! {

/// A text slice's view, if there is one.
pub open spec fn opt_text(o: Option<&str>) -> Option<Seq<char>> {
    match o {
        Some(s) => Some(s@),
        None => None,
    }
}

/// An owned string's view, if there is one.
pub open spec fn opt_string(o: Option<String>) -> Option<Seq<char>> {
    match o {
        Some(s) => Some(s@),
        None => None,
    }
}

/// The preview of the message a new one replies to: none without a reply;
/// an error when the chat or the message is not there.
pub open spec fn reply_preview_spec(chats: Seq<ChatThreadView>, chat_id: Seq<char>, reply_to: Option<Seq<char>>) -> Result<
    Option<Seq<char>>,
    Seq<char>,
> {
    match reply_to {
        None => Ok(None),
        Some(m) => match first_chat(chats, chat_id) {
            None => Err(chat_not_found(chat_id)),
            Some(ci) => match first_message(chats[ci].messages@, m) {
                None => Err(message_not_found(m)),
                Some(mi) => Ok(Some(preview_spec(chats[ci].messages@[mi].body@))),
            },
        },
    }
}

/// A message counter advanced by one, stopping at the largest value.
pub open spec fn next_counter(counter: u64) -> u64 {
    if counter == u64::MAX {
        u64::MAX
    } else {
        (counter + 1) as u64
    }
}

/// What the checks before sending a text say, given the runtime device the
/// chat is bound to: the trimmed body and the reply preview, or the first
/// error, in this order: an empty body, the reply, a missing chat, a group
/// chat, a chat bound to no runtime.
pub open spec fn send_check_spec(
    chats: Seq<ChatThreadView>,
    chat_id: Seq<char>,
    body: Seq<char>,
    reply_to: Option<Seq<char>>,
    bound: bool,
) -> Result<(Seq<char>, Option<Seq<char>>), Seq<char>> {
    let trimmed = trim_spec(body);
    if trimmed.len() == 0 {
        Err("message body cannot be empty"@)
    } else {
        match reply_preview_spec(chats, chat_id, reply_to) {
            Err(e) => Err(e),
            Ok(reply) => match first_chat(chats, chat_id) {
                None => Err(chat_not_found(chat_id)),
                Some(ci) => if chats[ci].kind == ChatKindView::Group {
                    Err("group messaging is still staged in the desktop client"@)
                } else if !bound {
                    Err("chat '"@ + chat_id + "' is not bound to a runtime session"@)
                } else {
                    Ok((trimmed, reply))
                },
            },
        }
    }
}

/// The outbound message as it is first shown.
pub open spec fn sent_view(
    m: MessageView,
    id: Seq<char>,
    author: Seq<char>,
    body: Seq<char>,
    reply: Option<Seq<char>>,
    delivery: DeliveryStateView,
) -> bool {
    &&& m.id@ == id
    &&& m.author@ == author
    &&& m.body@ == body
    &&& m.timestamp_label@ == "now"@
    &&& m.direction == MessageDirectionView::Outbound
    &&& m.delivery_state == delivery
    &&& m.forwarded_from is None
    &&& opt_string(m.reply_preview) == reply
    &&& m.reactions@.len() == 0
    &&& m.attachments@.len() == 0
}

/// A reply that came back, as shown: by the remote author, in reply to the
/// text just sent.
pub open spec fn reply_view(m: MessageView, inbound: RuntimeInboundMessage, author: Seq<char>, replied_to: Seq<char>) -> bool {
    &&& m.id@ == inbound.message_id@
    &&& m.author@ == author
    &&& m.body@ == inbound.body@
    &&& m.timestamp_label@ == "now"@
    &&& m.direction == MessageDirectionView::Inbound
    &&& m.delivery_state == DeliveryStateView::Delivered
    &&& m.forwarded_from is None
    &&& opt_string(m.reply_preview) == Some(replied_to)
    &&& m.reactions@.len() == 0
    &&& m.attachments@.len() == 0
}

/// The presence line of a direct chat after a send over a route.
pub open spec fn route_presence_spec(route: TransportRoute) -> Seq<char> {
    match route {
        TransportRoute::ServerRelay => "relay preferred, direct LAN fallback active for this demo chat"@,
        TransportRoute::DirectLan => "secure session active · direct LAN"@,
    }
}

/// The presence line of a chat after media went over a route.
pub open spec fn media_presence_spec(route: MediaRoute) -> Seq<char> {
    match route {
        MediaRoute::RelayBlobStore => "relay blob storage active for small media"@,
        MediaRoute::DirectQuic => "direct QUIC file lane active"@,
    }
}

/// Media whose type the interface can preview.
pub open spec fn previewable_spec(mime_type: Seq<char>) -> bool {
    starts_with_spec(mime_type, "image/"@) || starts_with_spec(mime_type, "audio/"@) || mime_type
        == "application/pdf"@
}

impl ChatBook {
    /// The checks before a text is sent (see `send_check_spec`); `bound_device_id`
    /// is the runtime device the chat is bound to, if any.
    pub fn prepare_send(&self, chat_id: &str, body: &str, reply_to_message_id: Option<&str>, bound_device_id: Option<&str>) -> (r: Result<
        (String, Option<String>),
        String,
    >)
        ensures
            match send_check_spec(self.chats@, chat_id@, body@, opt_text(reply_to_message_id), bound_device_id is Some) {
                Ok((b, p)) => r matches Ok((rb, rp)) && rb@ == b && opt_string(rp) == p,
                Err(e) => r matches Err(re) && re@ == e,
            },
    {
        let trimmed = trim(body);
        if trimmed.unicode_len() == 0 {
            return Err(owned("message body cannot be empty"));
        }
        let reply = match self.reply_preview_for(chat_id, reply_to_message_id) {
            Err(e) => return Err(e),
            Ok(p) => p,
        };
        let ci = match find_chat(&self.chats, chat_id) {
            None => return Err(chat_not_found_text(chat_id)),
            Some(i) => i,
        };
        if self.chats[ci].kind == ChatKindView::Group {
            return Err(owned("group messaging is still staged in the desktop client"));
        }
        if bound_device_id.is_none() {
            let mut e = owned("chat '");
            push_str(&mut e, chat_id);
            push_str(&mut e, "' is not bound to a runtime session");
            return Err(e);
        }
        Ok((trimmed, reply))
    }

    /// Advances the message counter and names the next local message.
    pub fn next_message_id(&mut self) -> (r: String)
        ensures
            final(self).chats == old(self).chats,
            final(self).local_display_name == old(self).local_display_name,
            final(self).last_notification == old(self).last_notification,
            final(self).tray_status == old(self).tray_status,
            final(self).message_counter == next_counter(old(self).message_counter),
            r@ == "local-"@ + decimal_spec(final(self).message_counter as nat),
    {
        self.message_counter = self.message_counter.saturating_add(1);
        let mut id = owned("local-");
        push_decimal(&mut id, self.message_counter);
        id
    }

    /// Shows a text the chat's runtime sent, with the replies it got back.
    /// The text is seen when replies came, delivered when it was
    /// acknowledged, else sent. The replies count as unread (the unread
    /// count adds them, stopping at the largest value); without replies the
    /// chat is read. The chat shows itself online over the route, with the
    /// trust line given, and its summary previews the last message. When
    /// replies came, a notification names the author and the chat.
    #[verifier::rlimit(30)]
    pub fn record_sent(
        &mut self,
        chat_id: &str,
        message_id: String,
        body: String,
        reply_preview: Option<String>,
        sent_at_unix_ms: i64,
        outcome: RuntimeSendOutcome,
        remote_author: &str,
        route: TransportRoute,
        security_label: String,
    ) -> (r: Result<(), String>)
        requires
            match first_chat(old(self).chats@, chat_id@) {
                Some(ci) => (outcome.inbound_messages@.len() as u32) > 0 ==> unread_total(old(self).chats@)
                    - old(self).chats@[ci].unread_count + (if old(self).chats@[ci].unread_count
                    + (outcome.inbound_messages@.len() as u32) > u32::MAX {
                    u32::MAX as int
                } else {
                    old(self).chats@[ci].unread_count + (outcome.inbound_messages@.len() as u32)
                }) <= u32::MAX,
                None => true,
            },
        ensures
            final(self).message_counter == old(self).message_counter,
            final(self).local_display_name == old(self).local_display_name,
            match first_chat(old(self).chats@, chat_id@) {
                None => (r matches Err(e) && e@ == chat_not_found(chat_id@)) && *final(self) == *old(self),
                Some(ci) => {
                    let oc = old(self).chats@[ci];
                    let nc = final(self).chats@[ci];
                    let n = outcome.inbound_messages@.len();
                    let count = n as u32;
                    let at = oc.messages@.len() as int;
                    let delivery = if n > 0 {
                        DeliveryStateView::Seen
                    } else if outcome.outbound_acknowledged {
                        DeliveryStateView::Delivered
                    } else {
                        DeliveryStateView::Sent
                    };
                    &&& r is Ok
                    &&& final(self).chats@.len() == old(self).chats@.len()
                    &&& forall|k: int| 0 <= k < old(self).chats@.len() && k != ci ==> final(self).chats@[k] == old(self).chats@[k]
                    &&& nc.id == oc.id && nc.title == oc.title && nc.kind == oc.kind && nc.participants == oc.participants
                    &&& nc.messages@.len() == at + 1 + n
                    &&& forall|k: int| 0 <= k < at ==> nc.messages@[k] == oc.messages@[k]
                    &&& sent_view(
                        nc.messages@[at],
                        message_id@,
                        old(self).local_display_name@,
                        body@,
                        opt_string(reply_preview),
                        delivery,
                    )
                    &&& forall|k: int| 0 <= k < n ==> reply_view(
                        #[trigger] nc.messages@[at + 1 + k],
                        outcome.inbound_messages@[k],
                        remote_author@,
                        body@,
                    )
                    &&& nc.summary@ == preview_spec(nc.messages@.last().body@)
                    &&& nc.unread_count == (if count > 0 {
                        if oc.unread_count + count > u32::MAX {
                            u32::MAX as int
                        } else {
                            oc.unread_count + count
                        }
                    } else {
                        0
                    })
                    &&& nc.presence_label@ == route_presence_spec(route)
                    &&& nc.presence_state == PresenceStateView::Online
                    &&& nc.security_label@ == security_label@
                    &&& count > 0 ==> final(self).last_notification@ == remote_author@ + " replied in "@ + oc.title@
                        && final(self).tray_status@ == tray_text_spec(unread_total(final(self).chats@))
                    &&& count == 0 ==> final(self).last_notification == old(self).last_notification
                        && final(self).tray_status == old(self).tray_status
                },
            },
    {
        let ci = match find_chat(&self.chats, chat_id) {
            None => return Err(chat_not_found_text(chat_id)),
            Some(i) => i,
        };
        let n = outcome.inbound_messages.len();
        let count = n as u32;
        let delivery = if n > 0 {
            DeliveryStateView::Seen
        } else if outcome.outbound_acknowledged {
            DeliveryStateView::Delivered
        } else {
            DeliveryStateView::Sent
        };
        let ghost old_chats = self.chats@;
        let mut chat = self.chats.remove(ci);
        let ghost oc = chat;
        let at = chat.messages.len();
        chat.messages.push(MessageView {
            id: message_id,
            author: copy_string(&self.local_display_name),
            body: copy_string(&body),
            timestamp_label: timestamp_label(sent_at_unix_ms),
            direction: MessageDirectionView::Outbound,
            delivery_state: delivery,
            forwarded_from: None,
            reply_preview,
            reactions: Vec::new(),
            attachments: Vec::new(),
        });
        let mut k: usize = 0;
        while k < n
            invariant
                n == outcome.inbound_messages@.len(),
                k <= n,
                at == oc.messages@.len(),
                chat.messages@.len() == at + 1 + k,
                chat.id == oc.id && chat.title == oc.title && chat.kind == oc.kind && chat.participants == oc.participants,
                chat.unread_count == oc.unread_count,
                forall|j: int| 0 <= j < at ==> chat.messages@[j] == oc.messages@[j],
                sent_view(
                    chat.messages@[at as int],
                    message_id@,
                    self.local_display_name@,
                    body@,
                    opt_string(reply_preview),
                    delivery,
                ),
                forall|j: int| 0 <= j < k ==> reply_view(
                    #[trigger] chat.messages@[at + 1 + j],
                    outcome.inbound_messages@[j],
                    remote_author@,
                    body@,
                ),
            decreases n - k,
        {
            let inbound = &outcome.inbound_messages[k];
            chat.messages.push(MessageView {
                id: copy_string(&inbound.message_id),
                author: owned(remote_author),
                body: copy_string(&inbound.body),
                timestamp_label: timestamp_label(inbound.sent_at_unix_ms),
                direction: MessageDirectionView::Inbound,
                delivery_state: DeliveryStateView::Delivered,
                forwarded_from: None,
                reply_preview: Some(copy_string(&body)),
                reactions: Vec::new(),
                attachments: Vec::new(),
            });
            k = k + 1;
        }
        let last = chat.messages.len() - 1;
        chat.summary = preview(chat.messages[last].body.as_str());
        chat.unread_count = if count > 0 {
            chat.unread_count.saturating_add(count)
        } else {
            0
        };
        chat.presence_label = match route {
            TransportRoute::ServerRelay => owned("relay preferred, direct LAN fallback active for this demo chat"),
            TransportRoute::DirectLan => owned("secure session active · direct LAN"),
        };
        chat.presence_state = PresenceStateView::Online;
        chat.security_label = security_label;
        let mut note = owned(remote_author);
        push_str(&mut note, " replied in ");
        push_str(&mut note, chat.title.as_str());
        let ghost nc = chat;
        self.chats.insert(ci, chat);
        proof {
            assert(self.chats@ =~= old_chats.update(ci as int, nc));
            lemma_unread_total_update(old_chats, ci as int, nc);
            assert(count <= n);
        }
        if count > 0 {
            self.push_notification(note);
        }
        Ok(())
    }
}

/// A media file that passed the checks before sending, and the route it is
/// to take.
#[derive(Debug)]
pub struct PreparedMedia {
    pub file_name: String,
    pub mime_type: String,
    pub plaintext: Vec<u8>,
    pub reply_preview: Option<String>,
    pub route: MediaRoute,
}

/// What the checks before sending media say: the trimmed name and type, the
/// decoded bytes, the reply preview and the route, or the first error, in
/// this order: an empty name, an empty type, malformed Base64, no bytes, the
/// reply, a missing chat, a group chat. Media of at most
/// `RELAY_MEDIA_MAX_BYTES` goes through the relay's blob store when the relay
/// is ready, all other media directly.
pub open spec fn media_check_spec(
    chats: Seq<ChatThreadView>,
    chat_id: Seq<char>,
    file_name: Seq<char>,
    mime_type: Seq<char>,
    bytes_base64: Seq<char>,
    reply_to: Option<Seq<char>>,
    relay_ready: bool,
) -> Result<(Seq<char>, Seq<char>, Seq<u8>, Option<Seq<char>>, MediaRoute), Seq<char>> {
    let name = trim_spec(file_name);
    let mime = trim_spec(mime_type);
    if name.len() == 0 {
        Err("file name cannot be empty"@)
    } else if mime.len() == 0 {
        Err("mime type cannot be empty"@)
    } else {
        match base64_standard_decode(bytes_base64) {
            None => Err("invalid base64 payload: "@ + base64_standard_decode_error(bytes_base64)),
            Some(plaintext) => if plaintext.len() == 0 {
                Err("media payload cannot be empty"@)
            } else {
                match reply_preview_spec(chats, chat_id, reply_to) {
                    Err(e) => Err(e),
                    Ok(reply) => match first_chat(chats, chat_id) {
                        None => Err(chat_not_found(chat_id)),
                        Some(ci) => if chats[ci].kind == ChatKindView::Group {
                            Err("group media transfer is still staged in the desktop client"@)
                        } else {
                            let route = if plaintext.len() <= RELAY_MEDIA_MAX_BYTES && relay_ready {
                                MediaRoute::RelayBlobStore
                            } else {
                                MediaRoute::DirectQuic
                            };
                            Ok((name, mime, plaintext, reply, route))
                        },
                    },
                }
            },
        }
    }
}

/// The status of media stored in the relay's blob store.
pub fn relay_status_label(blob_id: &str) -> (r: String)
    ensures
        r@ == "encrypted relay blob ready · "@ + blob_id@,
{
    let mut out = owned("encrypted relay blob ready · ");
    push_str(&mut out, blob_id);
    out
}

/// The status of media handed over directly: the transfer, its size and the
/// first twelve characters of its digest.
pub fn direct_status_label(receipt: &DirectTransferReceipt) -> (r: String)
    requires
        12 <= receipt.sha256_hex@.len(),
    ensures
        r@ == "direct QUIC handoff complete · "@ + receipt.transfer_id@ + " · "@ + decimal_spec(
            receipt.transferred_bytes as nat,
        ) + " bytes · "@ + receipt.sha256_hex@.subrange(0, 12),
{
    let mut out = owned("direct QUIC handoff complete · ");
    push_str(&mut out, receipt.transfer_id.as_str());
    push_str(&mut out, " · ");
    push_decimal(&mut out, receipt.transferred_bytes);
    push_str(&mut out, " bytes · ");
    push_str(&mut out, receipt.sha256_hex.as_str().substring_char(0, 12));
    out
}

/// Media that went to the relay and came back must be the media sent.
pub fn check_round_trip(restored: &[u8], plaintext: &[u8]) -> (r: Result<(), String>)
    ensures
        restored@ == plaintext@ ==> r is Ok,
        restored@ != plaintext@ ==> (r matches Err(e) && e@ == "relay blob round-trip integrity check failed"@),
{
    if bytes_eq(restored, plaintext) {
        Ok(())
    } else {
        Err(owned("relay blob round-trip integrity check failed"))
    }
}

/// The attachment a sent media file shows.
pub open spec fn media_attachment_view(
    a: MessageAttachmentView,
    counter: u64,
    file_name: Seq<char>,
    mime_type: Seq<char>,
    plaintext: Seq<u8>,
    size_label: Seq<char>,
    route: MediaRoute,
    status_label: Seq<char>,
    blob_id: Option<Seq<char>>,
) -> bool {
    &&& a.id@ == "att-"@ + decimal_spec(counter as nat)
    &&& a.file_name@ == file_name
    &&& a.mime_type@ == mime_type
    &&& a.size_label@ == size_label
    &&& a.transfer_route@ == (match route {
        MediaRoute::RelayBlobStore => "server_blob_store"@,
        MediaRoute::DirectQuic => "p2p_quic_direct"@,
    })
    &&& a.status_label@ == status_label
    &&& opt_string(a.preview_data_url) == (if previewable_spec(mime_type) {
        Some("data:"@ + mime_type + ";base64,"@ + base64_standard_encode(plaintext))
    } else {
        None
    })
    &&& opt_string(a.blob_id) == blob_id
}

impl ChatBook {
    /// The checks before media is sent (see `media_check_spec`).
    pub fn prepare_media(
        &self,
        chat_id: &str,
        file_name: &str,
        mime_type: &str,
        bytes_base64: &str,
        reply_to_message_id: Option<&str>,
        relay_ready: bool,
    ) -> (r: Result<PreparedMedia, String>)
        ensures
            match media_check_spec(
                self.chats@,
                chat_id@,
                file_name@,
                mime_type@,
                bytes_base64@,
                opt_text(reply_to_message_id),
                relay_ready,
            ) {
                Ok((name, mime, plaintext, reply, route)) => r matches Ok(p) && p.file_name@ == name && p.mime_type@
                    == mime && p.plaintext@ == plaintext && opt_string(p.reply_preview) == reply && p.route == route,
                Err(e) => r matches Err(re) && re@ == e,
            },
    {
        let name = trim(file_name);
        let mime = trim(mime_type);
        if name.unicode_len() == 0 {
            return Err(owned("file name cannot be empty"));
        }
        if mime.unicode_len() == 0 {
            return Err(owned("mime type cannot be empty"));
        }
        let plaintext = match base64_standard_decode_text(bytes_base64) {
            Err(error) => {
                let mut e = owned("invalid base64 payload: ");
                push_str(&mut e, error.as_str());
                return Err(e);
            },
            Ok(p) => p,
        };
        if plaintext.len() == 0 {
            return Err(owned("media payload cannot be empty"));
        }
        let reply = match self.reply_preview_for(chat_id, reply_to_message_id) {
            Err(e) => return Err(e),
            Ok(p) => p,
        };
        let ci = match find_chat(&self.chats, chat_id) {
            None => return Err(chat_not_found_text(chat_id)),
            Some(i) => i,
        };
        if self.chats[ci].kind == ChatKindView::Group {
            return Err(owned("group media transfer is still staged in the desktop client"));
        }
        let route = if plaintext.len() <= RELAY_MEDIA_MAX_BYTES && relay_ready {
            MediaRoute::RelayBlobStore
        } else {
            MediaRoute::DirectQuic
        };
        Ok(PreparedMedia { file_name: name, mime_type: mime, plaintext, reply_preview: reply, route })
    }

    /// Shows media that was sent: a seen outbound message that announces the
    /// file, with its one attachment. The counter advances and names both.
    /// The chat is read, shows itself online over the route, and its summary
    /// previews the announcement; a notification names the chat.
    #[verifier::rlimit(30)]
    pub fn record_media(
        &mut self,
        chat_id: &str,
        media: PreparedMedia,
        size_label: String,
        status_label: String,
        blob_id: Option<String>,
        sent_at_unix_ms: i64,
    ) -> (r: Result<(), String>)
        requires
            match first_chat(old(self).chats@, chat_id@) {
                Some(ci) => unread_total(old(self).chats@) - old(self).chats@[ci].unread_count <= u32::MAX,
                None => true,
            },
        ensures
            final(self).local_display_name == old(self).local_display_name,
            match first_chat(old(self).chats@, chat_id@) {
                None => (r matches Err(e) && e@ == chat_not_found(chat_id@)) && *final(self) == *old(self),
                Some(ci) => {
                    let oc = old(self).chats@[ci];
                    let nc = final(self).chats@[ci];
                    let counter = next_counter(old(self).message_counter);
                    let m = nc.messages@.last();
                    let body = attachment_body_spec(media.file_name@, media.mime_type@);
                    &&& r is Ok
                    &&& final(self).message_counter == counter
                    &&& final(self).chats@.len() == old(self).chats@.len()
                    &&& forall|k: int| 0 <= k < old(self).chats@.len() && k != ci ==> final(self).chats@[k] == old(self).chats@[k]
                    &&& nc.id == oc.id && nc.title == oc.title && nc.kind == oc.kind && nc.participants == oc.participants
                    &&& nc.security_label == oc.security_label
                    &&& nc.messages@.len() == oc.messages@.len() + 1
                    &&& forall|k: int| 0 <= k < oc.messages@.len() ==> nc.messages@[k] == oc.messages@[k]
                    &&& m.id@ == "local-"@ + decimal_spec(counter as nat)
                    &&& m.author@ == old(self).local_display_name@
                    &&& m.body@ == body
                    &&& m.timestamp_label@ == "now"@
                    &&& m.direction == MessageDirectionView::Outbound
                    &&& m.delivery_state == DeliveryStateView::Seen
                    &&& m.forwarded_from is None
                    &&& opt_string(m.reply_preview) == opt_string(media.reply_preview)
                    &&& m.reactions@.len() == 0
                    &&& m.attachments@.len() == 1
                    &&& media_attachment_view(
                        m.attachments@[0],
                        counter,
                        media.file_name@,
                        media.mime_type@,
                        media.plaintext@,
                        size_label@,
                        media.route,
                        status_label@,
                        opt_string(blob_id),
                    )
                    &&& nc.summary@ == preview_spec(body)
                    &&& nc.unread_count == 0
                    &&& nc.presence_label@ == media_presence_spec(media.route)
                    &&& nc.presence_state == PresenceStateView::Online
                    &&& final(self).last_notification@ == "Shared media in "@ + oc.title@
                    &&& final(self).tray_status@ == tray_text_spec(unread_total(final(self).chats@))
                },
            },
    {
        let ci = match find_chat(&self.chats, chat_id) {
            None => return Err(chat_not_found_text(chat_id)),
            Some(i) => i,
        };
        self.message_counter = self.message_counter.saturating_add(1);
        let mut attachment_id = owned("att-");
        push_decimal(&mut attachment_id, self.message_counter);
        let mut message_id = owned("local-");
        push_decimal(&mut message_id, self.message_counter);
        let previewable = starts_with(media.mime_type.as_str(), "image/") || starts_with(media.mime_type.as_str(), "audio/")
            || str_eq(media.mime_type.as_str(), "application/pdf");
        let preview_data_url = if previewable {
            Some(data_url(media.mime_type.as_str(), media.plaintext.as_slice()))
        } else {
            None
        };
        let attachment = MessageAttachmentView {
            id: attachment_id,
            file_name: copy_string(&media.file_name),
            mime_type: copy_string(&media.mime_type),
            size_label,
            transfer_route: owned(media.route.label()),
            status_label,
            preview_data_url,
            blob_id,
        };
        let body = attachment_body(media.file_name.as_str(), media.mime_type.as_str());
        let summary = preview(body.as_str());
        let mut attachments: Vec<MessageAttachmentView> = Vec::new();
        attachments.push(attachment);
        let message = MessageView {
            id: message_id,
            author: copy_string(&self.local_display_name),
            body,
            timestamp_label: timestamp_label(sent_at_unix_ms),
            direction: MessageDirectionView::Outbound,
            delivery_state: DeliveryStateView::Seen,
            forwarded_from: None,
            reply_preview: media.reply_preview,
            reactions: Vec::new(),
            attachments,
        };
        let ghost old_chats = self.chats@;
        let mut chat = self.chats.remove(ci);
        let ghost oc = chat;
        chat.messages.push(message);
        chat.summary = summary;
        chat.unread_count = 0;
        chat.presence_label = match media.route {
            MediaRoute::RelayBlobStore => owned("relay blob storage active for small media"),
            MediaRoute::DirectQuic => owned("direct QUIC file lane active"),
        };
        chat.presence_state = PresenceStateView::Online;
        let mut note = owned("Shared media in ");
        push_str(&mut note, chat.title.as_str());
        let ghost nc = chat;
        self.chats.insert(ci, chat);
        proof {
            assert(self.chats@ =~= old_chats.update(ci as int, nc));
            lemma_unread_total_update(old_chats, ci as int, nc);
        }
        self.push_notification(note);
        Ok(())
    }
}

} // verus!
