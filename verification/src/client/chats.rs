//! The chats the client shows and the edits the user makes to them:
//! reactions, forwarding, reply previews and the notification line.

use vstd::prelude::*;
use crate::client::views::{
    preview, preview_spec, timestamp_label, ChatKindView, ChatThreadView, DeliveryStateView, MessageAttachmentView,
    MessageDirectionView, MessageView, PresenceStateView,
};
use crate::text::{copy_string, decimal_spec, owned, push_decimal, push_str, str_eq, trim, trim_spec};

verus! {

/// The index of the first chat with the id.
pub open spec fn first_chat(chats: Seq<ChatThreadView>, id: Seq<char>) -> Option<int>
    decreases chats.len(),
{
    if chats.len() == 0 {
        None
    } else if chats[0].id@ == id {
        Some(0)
    } else {
        match first_chat(chats.drop_first(), id) {
            Some(i) => Some(i + 1),
            None => None,
        }
    }
}

/// The index of the first message with the id.
pub open spec fn first_message(messages: Seq<MessageView>, id: Seq<char>) -> Option<int>
    decreases messages.len(),
{
    if messages.len() == 0 {
        None
    } else if messages[0].id@ == id {
        Some(0)
    } else {
        match first_message(messages.drop_first(), id) {
            Some(i) => Some(i + 1),
            None => None,
        }
    }
}

/// The index of the first text equal to `x`.
pub open spec fn first_text(s: Seq<Seq<char>>, x: Seq<char>) -> Option<int>
    decreases s.len(),
{
    if s.len() == 0 {
        None
    } else if s[0] == x {
        Some(0)
    } else {
        match first_text(s.drop_first(), x) {
            Some(i) => Some(i + 1),
            None => None,
        }
    }
}

pub(crate) proof fn lemma_first_chat(chats: Seq<ChatThreadView>, id: Seq<char>)
    ensures
        first_chat(chats, id) matches Some(i) ==> 0 <= i < chats.len() && chats[i].id@ == id && forall|j: int| 0 <= j < i ==> (#[trigger] chats[j]).id@ != id,
        first_chat(chats, id) is None ==> forall|j: int| 0 <= j < chats.len() ==> (#[trigger] chats[j]).id@ != id,
    decreases chats.len(),
{
    if chats.len() > 0 {
        lemma_first_chat(chats.drop_first(), id);
        if chats[0].id@ != id {
            assert forall|j: int| 1 <= j < chats.len() implies chats[j] == chats.drop_first()[j - 1] by {}
        }
    }
}

proof fn lemma_first_message(messages: Seq<MessageView>, id: Seq<char>)
    ensures
        first_message(messages, id) matches Some(i) ==> 0 <= i < messages.len() && messages[i].id@ == id && forall|j: int| 0 <= j < i ==> (#[trigger] messages[j]).id@ != id,
        first_message(messages, id) is None ==> forall|j: int| 0 <= j < messages.len() ==> (#[trigger] messages[j]).id@ != id,
    decreases messages.len(),
{
    if messages.len() > 0 {
        lemma_first_message(messages.drop_first(), id);
        if messages[0].id@ != id {
            assert forall|j: int| 1 <= j < messages.len() implies messages[j] == messages.drop_first()[j - 1] by {}
        }
    }
}

proof fn lemma_first_text(s: Seq<Seq<char>>, x: Seq<char>)
    ensures
        match first_text(s, x) {
            Some(i) => 0 <= i < s.len() && s[i] == x && forall|j: int| 0 <= j < i ==> s[j] != x,
            None => forall|j: int| 0 <= j < s.len() ==> s[j] != x,
        },
    decreases s.len(),
{
    if s.len() > 0 {
        lemma_first_text(s.drop_first(), x);
        if s[0] != x {
            assert forall|j: int| 1 <= j < s.len() implies s[j] == s.drop_first()[j - 1] by {}
        }
    }
}

pub fn find_chat(chats: &Vec<ChatThreadView>, chat_id: &str) -> (r: Option<usize>)
    ensures
        match r {
            Some(i) => first_chat(chats@, chat_id@) == Some(i as int) && i < chats@.len(),
            None => first_chat(chats@, chat_id@) is None,
        },
{
    proof {
        lemma_first_chat(chats@, chat_id@);
    }
    let mut i: usize = 0;
    while i < chats.len()
        invariant
            i <= chats@.len(),
            forall|j: int| 0 <= j < i ==> (#[trigger] chats@[j]).id@ != chat_id@,
        decreases chats@.len() - i,
    {
        if str_eq(chats[i].id.as_str(), chat_id) {
            proof {
                lemma_first_chat(chats@, chat_id@);
                if first_chat(chats@, chat_id@) is None {
                    assert(chats@[i as int].id@ != chat_id@);
                } else {
                    let k = first_chat(chats@, chat_id@)->0;
                    if k < i {
                        assert(chats@[k].id@ != chat_id@);
                    } else if k > i {
                        assert(chats@[i as int].id@ != chat_id@);
                    }
                }
            }
            return Some(i);
        }
        i = i + 1;
    }
    None
}

pub fn find_message(messages: &Vec<MessageView>, message_id: &str) -> (r: Option<usize>)
    ensures
        match r {
            Some(i) => first_message(messages@, message_id@) == Some(i as int) && i < messages@.len(),
            None => first_message(messages@, message_id@) is None,
        },
{
    proof {
        lemma_first_message(messages@, message_id@);
    }
    let mut i: usize = 0;
    while i < messages.len()
        invariant
            i <= messages@.len(),
            forall|j: int| 0 <= j < i ==> (#[trigger] messages@[j]).id@ != message_id@,
        decreases messages@.len() - i,
    {
        if str_eq(messages[i].id.as_str(), message_id) {
            proof {
                lemma_first_message(messages@, message_id@);
                if first_message(messages@, message_id@) is None {
                    assert(messages@[i as int].id@ != message_id@);
                } else {
                    let k = first_message(messages@, message_id@)->0;
                    if k < i {
                        assert(messages@[k].id@ != message_id@);
                    } else if k > i {
                        assert(messages@[i as int].id@ != message_id@);
                    }
                }
            }
            return Some(i);
        }
        i = i + 1;
    }
    None
}

/// The texts of a list of strings.
pub open spec fn texts(s: Seq<String>) -> Seq<Seq<char>> {
    s.map_values(|x: String| x@)
}

/// A reaction toggled: removed where present (its first copy), added at the end otherwise.
pub open spec fn toggled(reactions: Seq<Seq<char>>, reaction: Seq<char>) -> Seq<Seq<char>> {
    match first_text(reactions, reaction) {
        Some(i) => reactions.remove(i),
        None => reactions.push(reaction),
    }
}

/// The sum of the chats' unread counts.
pub open spec fn unread_total(chats: Seq<ChatThreadView>) -> int
    decreases chats.len(),
{
    if chats.len() == 0 {
        0
    } else {
        unread_total(chats.drop_last()) + chats.last().unread_count
    }
}

pub(crate) proof fn lemma_unread_total_update(chats: Seq<ChatThreadView>, i: int, c: ChatThreadView)
    requires
        0 <= i < chats.len(),
    ensures
        unread_total(chats.update(i, c)) == unread_total(chats) - chats[i].unread_count + c.unread_count,
    decreases chats.len(),
{
    if i < chats.len() - 1 {
        assert(chats.update(i, c).drop_last() =~= chats.drop_last().update(i, c));
        lemma_unread_total_update(chats.drop_last(), i, c);
    } else {
        assert(chats.update(i, c).drop_last() =~= chats.drop_last());
    }
}

/// The tray line for a number of unread messages.
pub open spec fn tray_text_spec(unread: int) -> Seq<char> {
    if unread == 0 {
        "Tray idle"@
    } else {
        decimal_spec(unread as nat) + " unread"@
    }
}

/// The text of a chat that was not found.
pub open spec fn chat_not_found(chat_id: Seq<char>) -> Seq<char> {
    "chat '"@ + chat_id + "' not found"@
}

/// The text of a message that was not found.
pub open spec fn message_not_found(message_id: Seq<char>) -> Seq<char> {
    "message '"@ + message_id + "' was not found"@
}

pub(crate) fn chat_not_found_text(chat_id: &str) -> (r: String)
    ensures
        r@ == chat_not_found(chat_id@),
{
    let mut e = owned("chat '");
    push_str(&mut e, chat_id);
    push_str(&mut e, "' not found");
    e
}

fn message_not_found_text(message_id: &str) -> (r: String)
    ensures
        r@ == message_not_found(message_id@),
{
    let mut e = owned("message '");
    push_str(&mut e, message_id);
    push_str(&mut e, "' was not found");
    e
}

/// The fields of two attachments agree.
pub open spec fn same_attachment(a: MessageAttachmentView, b: MessageAttachmentView) -> bool {
    &&& a.id@ == b.id@
    &&& a.file_name@ == b.file_name@
    &&& a.mime_type@ == b.mime_type@
    &&& a.size_label@ == b.size_label@
    &&& a.transfer_route@ == b.transfer_route@
    &&& a.status_label@ == b.status_label@
    &&& (a.preview_data_url matches Some(x) ==> b.preview_data_url matches Some(y) && x@ == y@)
    &&& (a.preview_data_url is None ==> b.preview_data_url is None)
    &&& (a.blob_id matches Some(x) ==> b.blob_id matches Some(y) && x@ == y@)
    &&& (a.blob_id is None ==> b.blob_id is None)
}

fn copy_option_string(s: &Option<String>) -> (r: Option<String>)
    ensures
        s matches Some(x) ==> r matches Some(y) && x@ == y@,
        s is None ==> r is None,
{
    match s {
        Some(x) => Some(copy_string(x)),
        None => None,
    }
}

fn copy_attachments(a: &Vec<MessageAttachmentView>) -> (r: Vec<MessageAttachmentView>)
    ensures
        r@.len() == a@.len(),
        forall|i: int| 0 <= i < a@.len() ==> same_attachment(#[trigger] a@[i], r@[i]),
{
    let mut out: Vec<MessageAttachmentView> = Vec::new();
    let mut i: usize = 0;
    while i < a.len()
        invariant
            i <= a@.len(),
            out@.len() == i,
            forall|j: int| 0 <= j < i ==> same_attachment(#[trigger] a@[j], out@[j]),
        decreases a@.len() - i,
    {
        let x = &a[i];
        out.push(MessageAttachmentView {
            id: copy_string(&x.id),
            file_name: copy_string(&x.file_name),
            mime_type: copy_string(&x.mime_type),
            size_label: copy_string(&x.size_label),
            transfer_route: copy_string(&x.transfer_route),
            status_label: copy_string(&x.status_label),
            preview_data_url: copy_option_string(&x.preview_data_url),
            blob_id: copy_option_string(&x.blob_id),
        });
        i = i + 1;
    }
    out
}


/// The index of the first string equal to `x`.
pub fn find_text(v: &Vec<String>, x: &str) -> (r: Option<usize>)
    ensures
        match r {
            Some(i) => first_text(texts(v@), x@) == Some(i as int) && i < v@.len(),
            None => first_text(texts(v@), x@) is None,
        },
{
    let ghost t = texts(v@);
    let mut i: usize = 0;
    while i < v.len()
        invariant
            i <= v@.len(),
            t == texts(v@),
            forall|j: int| 0 <= j < i ==> t[j] != x@,
        decreases v@.len() - i,
    {
        if str_eq(v[i].as_str(), x) {
            proof {
                lemma_first_text(t, x@);
                if first_text(t, x@) is None {
                    assert(t[i as int] != x@);
                } else {
                    let k = first_text(t, x@)->0;
                    if k < i {
                        assert(t[k] != x@);
                    } else if k > i {
                        assert(t[i as int] != x@);
                    }
                }
            }
            return Some(i);
        }
        i = i + 1;
    }
    proof {
        lemma_first_text(t, x@);
        if first_text(t, x@) is Some {
            let k = first_text(t, x@)->0;
            assert(t[k] != x@);
        }
    }
    None
}

/// The chats of the client and what the notification line and the tray show.
pub struct ChatBook {
    pub chats: Vec<ChatThreadView>,
    pub message_counter: u64,
    pub local_display_name: String,
    pub last_notification: String,
    pub tray_status: String,
}

impl ChatBook {
    /// The sum of the unread counts.
    pub fn total_unread_count(&self) -> (r: u32)
        requires
            unread_total(self.chats@) <= u32::MAX,
        ensures
            r == unread_total(self.chats@),
    {
        let mut total: u32 = 0;
        let mut i: usize = 0;
        assert(self.chats@.take(0) =~= Seq::<ChatThreadView>::empty());
        while i < self.chats.len()
            invariant
                i <= self.chats@.len(),
                total == unread_total(self.chats@.take(i as int)),
                unread_total(self.chats@) <= u32::MAX,
            decreases self.chats@.len() - i,
        {
            assert(self.chats@.take(i + 1).drop_last() =~= self.chats@.take(i as int));
            proof {
                lemma_unread_prefix(self.chats@, i + 1);
            }
            total = total + self.chats[i].unread_count;
            i = i + 1;
        }
        assert(self.chats@.take(i as int) =~= self.chats@);
        total
    }

    /// Shows a notification and refreshes the tray line.
    pub fn push_notification(&mut self, message: String)
        requires
            unread_total(old(self).chats@) <= u32::MAX,
        ensures
            final(self).chats == old(self).chats,
            final(self).message_counter == old(self).message_counter,
            final(self).local_display_name == old(self).local_display_name,
            final(self).last_notification@ == message@,
            final(self).tray_status@ == tray_text_spec(unread_total(old(self).chats@)),
    {
        self.last_notification = message;
        let unread = self.total_unread_count();
        self.tray_status = if unread == 0 {
            owned("Tray idle")
        } else {
            let mut t = String::new();
            push_decimal(&mut t, unread as u64);
            push_str(&mut t, " unread");
            t
        };
    }

    /// The preview of the message replied to, if any.
    pub fn reply_preview_for(&self, chat_id: &str, reply_to_message_id: Option<&str>) -> (r: Result<Option<String>, String>)
        ensures
            reply_to_message_id is None ==> r matches Ok(None),
            reply_to_message_id matches Some(m) ==> match first_chat(self.chats@, chat_id@) {
                None => r matches Err(e) && e@ == chat_not_found(chat_id@),
                Some(ci) => match first_message(self.chats@[ci].messages@, m@) {
                    None => r matches Err(e) && e@ == message_not_found(m@),
                    Some(mi) => r matches Ok(Some(p)) && p@ == preview_spec(self.chats@[ci].messages@[mi].body@),
                },
            },
    {
        let message_id = match reply_to_message_id {
            None => return Ok(None),
            Some(m) => m,
        };
        let ci = match find_chat(&self.chats, chat_id) {
            Some(i) => i,
            None => return Err(chat_not_found_text(chat_id)),
        };
        let mi = match find_message(&self.chats[ci].messages, message_id) {
            Some(i) => i,
            None => return Err(message_not_found_text(message_id)),
        };
        Ok(Some(preview(self.chats[ci].messages[mi].body.as_str())))
    }

    /// Adds or removes a reaction on a message.
    pub fn toggle_reaction(&mut self, chat_id: &str, message_id: &str, reaction: &str) -> (r: Result<(), String>)
        requires
            unread_total(old(self).chats@) <= u32::MAX,
        ensures
            trim_spec(reaction@).len() == 0 ==> (r matches Err(e) && e@ == "reaction cannot be empty"@) && *final(self)
                == *old(self),
            trim_spec(reaction@).len() > 0 ==> match first_chat(old(self).chats@, chat_id@) {
                None => (r matches Err(e) && e@ == chat_not_found(chat_id@)) && *final(self) == *old(self),
                Some(ci) => match first_message(old(self).chats@[ci].messages@, message_id@) {
                    None => (r matches Err(e) && e@ == message_not_found(message_id@)) && *final(self) == *old(self),
                    Some(mi) => {
                        let oc = old(self).chats@[ci];
                        let nc = final(self).chats@[ci];
                        let om = oc.messages@[mi];
                        let nm = nc.messages@[mi];
                        &&& r is Ok
                        &&& final(self).chats@.len() == old(self).chats@.len()
                        &&& forall|k: int| 0 <= k < old(self).chats@.len() && k != ci ==> final(self).chats@[k] == old(self).chats@[k]
                        &&& nc == (ChatThreadView { messages: nc.messages, ..oc })
                        &&& nc.messages@.len() == oc.messages@.len()
                        &&& forall|k: int| 0 <= k < oc.messages@.len() && k != mi ==> nc.messages@[k] == oc.messages@[k]
                        &&& nm == (MessageView { reactions: nm.reactions, ..om })
                        &&& texts(nm.reactions@) == toggled(texts(om.reactions@), trim_spec(reaction@))
                        &&& final(self).message_counter == old(self).message_counter
                        &&& final(self).local_display_name == old(self).local_display_name
                        &&& final(self).last_notification@ == "Reaction updated in "@ + oc.title@
                        &&& final(self).tray_status@ == tray_text_spec(unread_total(old(self).chats@))
                    },
                },
            },
    {
        let trimmed = trim(reaction);
        if trimmed.unicode_len() == 0 {
            return Err(owned("reaction cannot be empty"));
        }
        let ci = match find_chat(&self.chats, chat_id) {
            Some(i) => i,
            None => return Err(chat_not_found_text(chat_id)),
        };
        let mi = match find_message(&self.chats[ci].messages, message_id) {
            Some(i) => i,
            None => return Err(message_not_found_text(message_id)),
        };
        let ghost old_chats = self.chats@;
        let mut chat = self.chats.remove(ci);
        let ghost oc = chat;
        let mut message = chat.messages.remove(mi);
        let ghost om = message;
        let ghost rs = texts(message.reactions@);
        match find_text(&message.reactions, trimmed.as_str()) {
            Some(pos) => {
                message.reactions.remove(pos);
                proof {
                    assert(texts(message.reactions@) =~= rs.remove(pos as int));
                }
            },
            None => {
                let copy = copy_string(&trimmed);
                message.reactions.push(copy);
                proof {
                    assert(texts(message.reactions@) =~= rs.push(trimmed@));
                }
            },
        }
        let ghost nm = message;
        chat.messages.insert(mi, message);
        let ghost nc = chat;
        let mut note = owned("Reaction updated in ");
        push_str(&mut note, chat.title.as_str());
        self.chats.insert(ci, chat);
        proof {
            assert(nc.messages@ =~= oc.messages@.update(mi as int, nm));
            assert(self.chats@ =~= old_chats.update(ci as int, nc));
            lemma_unread_total_update(old_chats, ci as int, nc);
        }
        self.push_notification(note);
        Ok(())
    }

    /// Forwards a message into a direct chat as a new outbound message.
    pub fn forward_message(&mut self, source_chat_id: &str, target_chat_id: &str, message_id: &str, sent_at_unix_ms: i64) -> (r: Result<
        (),
        String,
    >)
        requires
            unread_total(old(self).chats@) <= u32::MAX,
        ensures
            match first_chat(old(self).chats@, source_chat_id@) {
                None => (r matches Err(e) && e@ == chat_not_found(source_chat_id@)) && *final(self) == *old(self),
                Some(si) => match first_message(old(self).chats@[si].messages@, message_id@) {
                    None => (r matches Err(e) && e@ == message_not_found(message_id@)) && *final(self) == *old(self),
                    Some(mi) => match first_chat(old(self).chats@, target_chat_id@) {
                        None => (r matches Err(e) && e@ == chat_not_found(target_chat_id@)) && *final(self) == *old(self),
                        Some(ti) => if old(self).chats@[ti].kind == ChatKindView::Group {
                            (r matches Err(e) && e@ == "group forwarding is still staged in the desktop client"@)
                                && *final(self) == *old(self)
                        } else {
                            let source = old(self).chats@[si];
                            let sm = source.messages@[mi];
                            let oc = old(self).chats@[ti];
                            let nc = final(self).chats@[ti];
                            let counter = if old(self).message_counter == u64::MAX {
                                u64::MAX
                            } else {
                                (old(self).message_counter + 1) as u64
                            };
                            let fm = nc.messages@.last();
                            &&& r is Ok
                            &&& final(self).message_counter == counter
                            &&& final(self).chats@.len() == old(self).chats@.len()
                            &&& forall|k: int| 0 <= k < old(self).chats@.len() && k != ti ==> final(self).chats@[k] == old(self).chats@[k]
                            &&& nc.id == oc.id && nc.title == oc.title && nc.security_label == oc.security_label
                            &&& nc.kind == oc.kind && nc.participants == oc.participants
                            &&& nc.messages@.len() == oc.messages@.len() + 1
                            &&& forall|k: int| 0 <= k < oc.messages@.len() ==> nc.messages@[k] == oc.messages@[k]
                            &&& fm.id@ == "local-"@ + decimal_spec(counter as nat)
                            &&& fm.author@ == old(self).local_display_name@
                            &&& fm.body@ == sm.body@
                            &&& fm.timestamp_label@ == "now"@
                            &&& fm.direction == MessageDirectionView::Outbound
                            &&& fm.delivery_state == DeliveryStateView::Delivered
                            &&& (fm.forwarded_from matches Some(f) && f@ == source.title@)
                            &&& (sm.reply_preview matches Some(p) ==> fm.reply_preview matches Some(q) && q@ == p@)
                            &&& (sm.reply_preview is None ==> fm.reply_preview is None)
                            &&& fm.reactions@.len() == 0
                            &&& fm.attachments@.len() == sm.attachments@.len()
                            &&& forall|k: int| 0 <= k < sm.attachments@.len() ==> same_attachment(#[trigger] sm.attachments@[k], fm.attachments@[k])
                            &&& nc.summary@ == preview_spec(sm.body@)
                            &&& nc.unread_count == 0
                            &&& nc.presence_label@ == "secure session active · forwarded locally"@
                            &&& nc.presence_state == PresenceStateView::Online
                            &&& final(self).local_display_name == old(self).local_display_name
                            &&& final(self).last_notification@ == "Forwarded message to "@ + oc.title@
                            &&& final(self).tray_status@ == tray_text_spec(unread_total(final(self).chats@))
                        },
                    },
                },
            },
    {
        let si = match find_chat(&self.chats, source_chat_id) {
            Some(i) => i,
            None => return Err(chat_not_found_text(source_chat_id)),
        };
        let mi = match find_message(&self.chats[si].messages, message_id) {
            Some(i) => i,
            None => return Err(message_not_found_text(message_id)),
        };
        let ti = match find_chat(&self.chats, target_chat_id) {
            Some(i) => i,
            None => return Err(chat_not_found_text(target_chat_id)),
        };
        if self.chats[ti].kind == ChatKindView::Group {
            return Err(owned("group forwarding is still staged in the desktop client"));
        }
        let source_title = copy_string(&self.chats[si].title);
        let source_message = &self.chats[si].messages[mi];
        let body = copy_string(&source_message.body);
        let reply_preview = copy_option_string(&source_message.reply_preview);
        let attachments = copy_attachments(&source_message.attachments);
        self.message_counter = self.message_counter.saturating_add(1);
        let mut forwarded_id = owned("local-");
        push_decimal(&mut forwarded_id, self.message_counter);
        let summary = preview(body.as_str());
        let forwarded = MessageView {
            id: forwarded_id,
            author: copy_string(&self.local_display_name),
            body,
            timestamp_label: timestamp_label(sent_at_unix_ms),
            direction: MessageDirectionView::Outbound,
            delivery_state: DeliveryStateView::Delivered,
            forwarded_from: Some(source_title),
            reply_preview,
            reactions: Vec::new(),
            attachments,
        };
        let ghost old_chats = self.chats@;
        let mut target = self.chats.remove(ti);
        let ghost oc = target;
        target.messages.push(forwarded);
        target.summary = summary;
        target.unread_count = 0;
        target.presence_label = owned("secure session active · forwarded locally");
        target.presence_state = PresenceStateView::Online;
        let mut note = owned("Forwarded message to ");
        push_str(&mut note, target.title.as_str());
        let ghost nc = target;
        self.chats.insert(ti, target);
        proof {
            assert(self.chats@ =~= old_chats.update(ti as int, nc));
            lemma_unread_total_update(old_chats, ti as int, nc);
        }
        self.push_notification(note);
        Ok(())
    }
}

proof fn lemma_unread_prefix(chats: Seq<ChatThreadView>, k: int)
    requires
        0 <= k <= chats.len(),
    ensures
        unread_total(chats.take(k)) <= unread_total(chats),
    decreases chats.len() - k,
{
    if k < chats.len() {
        lemma_unread_prefix(chats, k + 1);
        assert(chats.take(k + 1).drop_last() =~= chats.take(k));
    } else {
        assert(chats.take(k) =~= chats);
    }
}

} // verus!
