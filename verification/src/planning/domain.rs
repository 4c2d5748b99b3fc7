//! Identifiers, profiles, the group roster and chat messages of the planning model.

use vstd::prelude::*;
use crate::ids::{identifier_check_spec, is_valid_identifier_spec, IdentifierCheck};
use crate::planning::config::GroupPolicy;
use crate::planning::security::VerificationState;
use crate::text::{all_identifier_chars, decimal_spec, is_blank, is_blank_spec, owned, copy_string, push_decimal, push_str};

verus! {

/// Why an identifier or profile was refused.
#[derive(Debug, Clone, PartialEq, Eq)]
pub enum ValidationError {
    EmptyIdentifier(&'static str),
    InvalidIdentifier { field: &'static str, value: String },
    EmptyDisplayName,
    MissingDevice,
}

/// The text of a validation error.
pub open spec fn validation_error_text_spec(e: ValidationError) -> Seq<char> {
    match e {
        ValidationError::EmptyIdentifier(f) => f@ + " cannot be empty"@,
        ValidationError::InvalidIdentifier { field, value } => field@ + " '"@ + value@
            + "' must contain only ASCII letters, digits, '-' or '_'"@,
        ValidationError::EmptyDisplayName => "display name cannot be empty"@,
        ValidationError::MissingDevice => "at least one device must be present"@,
    }
}

impl ValidationError {
    /// The error as the user reads it.
    pub fn message(&self) -> (r: String)
        ensures
            r@ == validation_error_text_spec(*self),
    {
        let mut out = String::new();
        match self {
            ValidationError::EmptyIdentifier(f) => {
                push_str(&mut out, f);
                push_str(&mut out, " cannot be empty");
            },
            ValidationError::InvalidIdentifier { field, value } => {
                push_str(&mut out, field);
                push_str(&mut out, " '");
                push_str(&mut out, value.as_str());
                push_str(&mut out, "' must contain only ASCII letters, digits, '-' or '_'");
            },
            ValidationError::EmptyDisplayName => push_str(&mut out, "display name cannot be empty"),
            ValidationError::MissingDevice => push_str(&mut out, "at least one device must be present"),
        }
        out
    }
}

/// Whether `r` is what the identifier rule answers for `value` in `field`.
pub open spec fn identifier_result_spec<T>(
    r: Result<T, ValidationError>,
    field: &'static str,
    value: Seq<char>,
) -> bool {
    match identifier_check_spec(value) {
        IdentifierCheck::Valid => r is Ok,
        IdentifierCheck::Empty => r matches Err(ValidationError::EmptyIdentifier(f)) && f == field,
        IdentifierCheck::BadCharacter => r matches Err(ValidationError::InvalidIdentifier {
            field: f,
            value: v,
        }) && f == field && v@ == value,
    }
}

fn check_identifier(field: &'static str, value: &str) -> (r: Result<(), ValidationError>)
    ensures
        identifier_result_spec(r, field, value@),
{
    if is_blank(value) {
        return Err(ValidationError::EmptyIdentifier(field));
    }
    if all_identifier_chars(value) {
        Ok(())
    } else {
        Err(ValidationError::InvalidIdentifier { field, value: owned(value) })
    }
}

/// Identifier of a group.
#[derive(Debug, PartialEq, Eq, Hash)]
pub struct GroupId(String);

/// Identifier of a group member.
#[derive(Debug, PartialEq, Eq, Hash)]
pub struct MemberId(String);

/// Identifier of a member's device.
#[derive(Debug, PartialEq, Eq, Hash)]
pub struct DeviceId(String);

/// Identifier of a chat message.
#[derive(Debug, PartialEq, Eq, Hash)]
pub struct MessageId(String);

impl View for GroupId {
    type V = Seq<char>;

    closed spec fn view(&self) -> Seq<char> {
        self.0@
    }
}

impl View for MemberId {
    type V = Seq<char>;

    closed spec fn view(&self) -> Seq<char> {
        self.0@
    }
}

impl View for DeviceId {
    type V = Seq<char>;

    closed spec fn view(&self) -> Seq<char> {
        self.0@
    }
}

impl View for MessageId {
    type V = Seq<char>;

    closed spec fn view(&self) -> Seq<char> {
        self.0@
    }
}

impl GroupId {
    #[verifier::type_invariant]
    spec fn inv(self) -> bool {
        is_valid_identifier_spec(self.0@)
    }

    /// Builds a group id; fails unless `value` passes the identifier rule.
    pub fn new(value: &str) -> (r: Result<GroupId, ValidationError>)
        ensures
            identifier_result_spec(r, "group_id", value@),
            r matches Ok(id) ==> id@ == value@,
    {
        match check_identifier("group_id", value) {
            Ok(()) => Ok(GroupId(owned(value))),
            Err(e) => Err(e),
        }
    }

    pub fn as_str(&self) -> (r: &str)
        ensures
            r@ == self@,
            is_valid_identifier_spec(r@),
    {
        proof {
            use_type_invariant(self);
        }
        self.0.as_str()
    }

    pub fn same_as(&self, other: &GroupId) -> (r: bool)
        ensures
            r == (self@ == other@),
    {
        self.0 == other.0
    }
}

impl Clone for GroupId {
    fn clone(&self) -> (r: GroupId)
        ensures
            r@ == self@,
    {
        proof {
            use_type_invariant(self);
        }
        GroupId(self.0.clone())
    }
}

impl MemberId {
    #[verifier::type_invariant]
    spec fn inv(self) -> bool {
        is_valid_identifier_spec(self.0@)
    }

    /// Builds a member id; fails unless `value` passes the identifier rule.
    pub fn new(value: &str) -> (r: Result<MemberId, ValidationError>)
        ensures
            identifier_result_spec(r, "member_id", value@),
            r matches Ok(id) ==> id@ == value@,
    {
        match check_identifier("member_id", value) {
            Ok(()) => Ok(MemberId(owned(value))),
            Err(e) => Err(e),
        }
    }

    pub fn as_str(&self) -> (r: &str)
        ensures
            r@ == self@,
            is_valid_identifier_spec(r@),
    {
        proof {
            use_type_invariant(self);
        }
        self.0.as_str()
    }

    /// The identifier as an owned string.
    pub fn to_string(&self) -> (r: String)
        ensures
            r@ == self@,
    {
        self.0.clone()
    }

    pub fn same_as(&self, other: &MemberId) -> (r: bool)
        ensures
            r == (self@ == other@),
    {
        self.0 == other.0
    }
}

impl Clone for MemberId {
    fn clone(&self) -> (r: MemberId)
        ensures
            r@ == self@,
    {
        proof {
            use_type_invariant(self);
        }
        MemberId(self.0.clone())
    }
}

impl DeviceId {
    #[verifier::type_invariant]
    spec fn inv(self) -> bool {
        is_valid_identifier_spec(self.0@)
    }

    /// Builds a device id; fails unless `value` passes the identifier rule.
    pub fn new(value: &str) -> (r: Result<DeviceId, ValidationError>)
        ensures
            identifier_result_spec(r, "device_id", value@),
            r matches Ok(id) ==> id@ == value@,
    {
        match check_identifier("device_id", value) {
            Ok(()) => Ok(DeviceId(owned(value))),
            Err(e) => Err(e),
        }
    }

    pub fn as_str(&self) -> (r: &str)
        ensures
            r@ == self@,
            is_valid_identifier_spec(r@),
    {
        proof {
            use_type_invariant(self);
        }
        self.0.as_str()
    }
}

impl Clone for DeviceId {
    fn clone(&self) -> (r: DeviceId)
        ensures
            r@ == self@,
    {
        proof {
            use_type_invariant(self);
        }
        DeviceId(self.0.clone())
    }
}

impl MessageId {
    #[verifier::type_invariant]
    spec fn inv(self) -> bool {
        is_valid_identifier_spec(self.0@)
    }

    /// Builds a message id; fails unless `value` passes the identifier rule.
    pub fn new(value: &str) -> (r: Result<MessageId, ValidationError>)
        ensures
            identifier_result_spec(r, "message_id", value@),
            r matches Ok(id) ==> id@ == value@,
    {
        match check_identifier("message_id", value) {
            Ok(()) => Ok(MessageId(owned(value))),
            Err(e) => Err(e),
        }
    }

    pub fn as_str(&self) -> (r: &str)
        ensures
            r@ == self@,
            is_valid_identifier_spec(r@),
    {
        proof {
            use_type_invariant(self);
        }
        self.0.as_str()
    }
}

impl Clone for MessageId {
    fn clone(&self) -> (r: MessageId)
        ensures
            r@ == self@,
    {
        proof {
            use_type_invariant(self);
        }
        MessageId(self.0.clone())
    }
}

} // verus!

verus! {

#[derive(Debug, Clone, Copy, PartialEq, Eq, Structural)]
pub enum Platform {
    Windows,
    Android,
    Macos,
    Linux,
    Ios,
}

#[derive(Debug, Clone, Copy, PartialEq, Eq, Structural)]
pub enum PresenceState {
    Offline,
    LanOnline,
    P2pOnline,
}

/// One device of a member, with a display name that is not blank.
#[derive(Debug, Clone, PartialEq, Eq)]
pub struct DeviceProfile {
    pub device_id: DeviceId,
    pub device_name: String,
    pub platform: Platform,
    pub verification_state: VerificationState,
}

impl DeviceProfile {
    /// Fails with `EmptyDisplayName` when the name is blank.
    pub fn new(
        device_id: DeviceId,
        device_name: &str,
        platform: Platform,
        verification_state: VerificationState,
    ) -> (r: Result<DeviceProfile, ValidationError>)
        ensures
            is_blank_spec(device_name@) ==> r == Err::<DeviceProfile, ValidationError>(
                ValidationError::EmptyDisplayName,
            ),
            !is_blank_spec(device_name@) ==> (r matches Ok(d) && d.device_id@ == device_id@
                && d.device_name@ == device_name@ && d.platform == platform
                && d.verification_state == verification_state),
    {
        if is_blank(device_name) {
            return Err(ValidationError::EmptyDisplayName);
        }
        Ok(DeviceProfile {
            device_id,
            device_name: owned(device_name),
            platform,
            verification_state,
        })
    }
}

/// A member of the group with at least one device.
#[derive(Debug, Clone, PartialEq, Eq)]
pub struct MemberProfile {
    pub member_id: MemberId,
    pub display_name: String,
    pub devices: Vec<DeviceProfile>,
    pub presence: PresenceState,
    pub safety_number: String,
}

impl MemberProfile {
    /// Fails with `EmptyDisplayName` when the name is blank, else with
    /// `MissingDevice` when no device is given.
    pub fn new(
        member_id: MemberId,
        display_name: &str,
        devices: Vec<DeviceProfile>,
        presence: PresenceState,
        safety_number: &str,
    ) -> (r: Result<MemberProfile, ValidationError>)
        ensures
            is_blank_spec(display_name@) ==> r == Err::<MemberProfile, ValidationError>(
                ValidationError::EmptyDisplayName,
            ),
            !is_blank_spec(display_name@) && devices@.len() == 0 ==> r == Err::<
                MemberProfile,
                ValidationError,
            >(ValidationError::MissingDevice),
            !is_blank_spec(display_name@) && devices@.len() > 0 ==> (r matches Ok(m)
                && m.member_id@ == member_id@ && m.display_name@ == display_name@
                && m.devices@ == devices@ && m.presence == presence && m.safety_number@
                == safety_number@),
    {
        if is_blank(display_name) {
            return Err(ValidationError::EmptyDisplayName);
        }
        if devices.len() == 0 {
            return Err(ValidationError::MissingDevice);
        }
        Ok(MemberProfile {
            member_id,
            display_name: owned(display_name),
            devices,
            presence,
            safety_number: owned(safety_number),
        })
    }
}

/// Why the roster refused a change.
#[derive(Debug, Clone, PartialEq, Eq)]
pub enum RosterError {
    DuplicateMember(String),
    GroupFull { max_members: usize },
    CannotRemoveOwner,
}

/// The text of a roster error.
pub open spec fn roster_error_text_spec(e: RosterError) -> Seq<char> {
    match e {
        RosterError::DuplicateMember(m) => "member '"@ + m@ + "' is already in the roster"@,
        RosterError::GroupFull { max_members } => "group is full, limit is "@ + decimal_spec(max_members as nat)
            + " members"@,
        RosterError::CannotRemoveOwner => "group owner cannot be removed"@,
    }
}

impl RosterError {
    /// The error as the user reads it.
    pub fn message(&self) -> (r: String)
        ensures
            r@ == roster_error_text_spec(*self),
    {
        let mut out = String::new();
        match self {
            RosterError::DuplicateMember(m) => {
                push_str(&mut out, "member '");
                push_str(&mut out, m.as_str());
                push_str(&mut out, "' is already in the roster");
            },
            RosterError::GroupFull { max_members } => {
                push_str(&mut out, "group is full, limit is ");
                push_decimal(&mut out, *max_members as u64);
                push_str(&mut out, " members");
            },
            RosterError::CannotRemoveOwner => push_str(&mut out, "group owner cannot be removed"),
        }
        out
    }
}

/// The members of a group and who owns it.
#[derive(Debug, Clone, PartialEq, Eq)]
pub struct GroupRoster {
    pub owner_id: MemberId,
    pub members: Vec<MemberProfile>,
}

/// Whether some member of `members` has the id `id`.
pub open spec fn has_member_spec(members: Seq<MemberProfile>, id: Seq<char>) -> bool {
    exists|i: int| 0 <= i < members.len() && (#[trigger] members[i]).member_id@ == id
}

/// `members` without those whose id is `id`, in their order.
pub open spec fn without_member_spec(members: Seq<MemberProfile>, id: Seq<char>) -> Seq<
    MemberProfile,
>
    decreases members.len(),
{
    if members.len() == 0 {
        Seq::empty()
    } else if members.last().member_id@ == id {
        without_member_spec(members.drop_last(), id)
    } else {
        without_member_spec(members.drop_last(), id).push(members.last())
    }
}

/// The members whose presence is not `Offline`, in their order.
pub open spec fn online_spec(members: Seq<MemberProfile>) -> Seq<MemberProfile>
    decreases members.len(),
{
    if members.len() == 0 {
        Seq::empty()
    } else if members.last().presence == PresenceState::Offline {
        online_spec(members.drop_last())
    } else {
        online_spec(members.drop_last()).push(members.last())
    }
}

proof fn lemma_without_member_len(members: Seq<MemberProfile>, id: Seq<char>)
    ensures
        without_member_spec(members, id).len() <= members.len(),
        without_member_spec(members, id).len() == members.len() <==> !has_member_spec(members, id),
    decreases members.len(),
{
    if members.len() > 0 {
        let init = members.drop_last();
        lemma_without_member_len(init, id);
        if has_member_spec(init, id) {
            let i = choose|i: int| 0 <= i < init.len() && (#[trigger] init[i]).member_id@ == id;
            assert(members[i] == init[i]);
        }
        if has_member_spec(members, id) && !has_member_spec(init, id) {
            let i = choose|i: int| 0 <= i < members.len() && (#[trigger] members[i]).member_id@ == id;
            if i < members.len() - 1 {
                assert(init[i] == members[i]);
            }
        }
        if members.last().member_id@ == id {
            assert(members[members.len() - 1].member_id@ == id);
        }
    }
}

impl GroupRoster {
    /// A roster whose only member is its owner.
    pub fn new(owner: MemberProfile) -> (r: GroupRoster)
        ensures
            r.owner_id@ == owner.member_id@,
            r.members@ == seq![owner],
    {
        let owner_id = owner.member_id.clone();
        let mut members: Vec<MemberProfile> = Vec::new();
        members.push(owner);
        GroupRoster { owner_id, members }
    }

    /// Adds a member; refuses an id already present, then a roster that
    /// already holds `policy.max_members` members.
    pub fn add_member(&mut self, member: MemberProfile, policy: &GroupPolicy) -> (r: Result<
        (),
        RosterError,
    >)
        ensures
            has_member_spec(old(self).members@, member.member_id@) ==> (r matches Err(
                RosterError::DuplicateMember(s),
            ) && s@ == member.member_id@ && *final(self) == *old(self)),
            !has_member_spec(old(self).members@, member.member_id@) && old(self).members@.len()
                >= policy.max_members ==> r == Err::<(), RosterError>(
                RosterError::GroupFull { max_members: policy.max_members },
            ) && *final(self) == *old(self),
            !has_member_spec(old(self).members@, member.member_id@) && old(self).members@.len()
                < policy.max_members ==> r is Ok && final(self).members@ == old(
                self,
            ).members@.push(member) && final(self).owner_id == old(self).owner_id,
    {
        let mut i: usize = 0;
        while i < self.members.len()
            invariant
                i <= self.members@.len(),
                forall|j: int| 0 <= j < i ==> (#[trigger] self.members@[j]).member_id@
                    != member.member_id@,
            decreases self.members@.len() - i,
        {
            if self.members[i].member_id.same_as(&member.member_id) {
                return Err(RosterError::DuplicateMember(member.member_id.to_string()));
            }
            i = i + 1;
        }
        if self.members.len() >= policy.max_members {
            return Err(RosterError::GroupFull { max_members: policy.max_members });
        }
        self.members.push(member);
        Ok(())
    }

    /// Removes every member with the id; the owner cannot be removed. Says
    /// whether anyone was removed.
    pub fn remove_member(&mut self, member_id: &MemberId) -> (r: Result<bool, RosterError>)
        ensures
            member_id@ == old(self).owner_id@ ==> r == Err::<bool, RosterError>(
                RosterError::CannotRemoveOwner,
            ) && *final(self) == *old(self),
            member_id@ != old(self).owner_id@ ==> r == Ok::<bool, RosterError>(
                has_member_spec(old(self).members@, member_id@),
            ) && final(self).members@ == without_member_spec(old(self).members@, member_id@)
                && final(self).owner_id == old(self).owner_id,
    {
        if member_id.same_as(&self.owner_id) {
            return Err(RosterError::CannotRemoveOwner);
        }
        let ghost old_members = self.members@;
        let previous_len = self.members.len();
        let mut i: usize = 0;
        let ghost mut j: int = 0;
        while i < self.members.len()
            invariant
                0 <= j <= old_members.len(),
                i == without_member_spec(old_members.take(j), member_id@).len(),
                self.members@ == without_member_spec(old_members.take(j), member_id@)
                    + old_members.skip(j),
                self.owner_id == old(self).owner_id,
                previous_len == old_members.len(),
            decreases self.members@.len() - i,
        {
            proof {
                assert(old_members.take(j + 1).drop_last() =~= old_members.take(j));
                assert(old_members.take(j + 1).last() == old_members[j]);
                assert(self.members@[i as int] == old_members[j]);
            }
            if self.members[i].member_id.same_as(member_id) {
                self.members.remove(i);
                proof {
                    assert(self.members@ =~= without_member_spec(old_members.take(j + 1), member_id@)
                        + old_members.skip(j + 1));
                    j = j + 1;
                }
            } else {
                i = i + 1;
                proof {
                    assert(self.members@ =~= without_member_spec(old_members.take(j + 1), member_id@)
                        + old_members.skip(j + 1));
                    j = j + 1;
                }
            }
        }
        proof {
            assert(j == old_members.len()) by {
                lemma_without_member_len(old_members.take(j), member_id@);
            }
            assert(old_members.take(j) =~= old_members);
            assert(self.members@ =~= without_member_spec(old_members, member_id@));
            lemma_without_member_len(old_members, member_id@);
        }
        Ok(previous_len != self.members.len())
    }

    /// The members who are not offline, in roster order.
    pub fn online_members(&self) -> (r: Vec<&MemberProfile>)
        ensures
            r@.len() == online_spec(self.members@).len(),
            forall|k: int| 0 <= k < r@.len() ==> *r@[k] == online_spec(self.members@)[k],
    {
        let mut out: Vec<&MemberProfile> = Vec::new();
        let mut i: usize = 0;
        while i < self.members.len()
            invariant
                i <= self.members@.len(),
                out@.len() == online_spec(self.members@.take(i as int)).len(),
                forall|k: int| 0 <= k < out@.len() ==> *out@[k] == online_spec(
                    self.members@.take(i as int),
                )[k],
            decreases self.members@.len() - i,
        {
            proof {
                assert(self.members@.take(i + 1).drop_last() =~= self.members@.take(i as int));
            }
            let m = &self.members[i];
            match m.presence {
                PresenceState::Offline => {},
                _ => {
                    out.push(m);
                },
            }
            i = i + 1;
        }
        proof {
            assert(self.members@.take(i as int) =~= self.members@);
        }
        out
    }
}

} // verus!

verus! {

#[derive(Debug, Clone, Copy, PartialEq, Eq, Structural)]
pub enum AttachmentKind {
    Image,
    Video,
    File,
    VoiceNote,
}

/// A file attached to a chat message.
#[derive(Debug, Clone, PartialEq, Eq)]
pub struct AttachmentMeta {
    pub attachment_id: String,
    pub file_name: String,
    pub kind: AttachmentKind,
    pub size_bytes: u64,
}

/// The attachment limit of a policy in bytes (its megabytes times 1024 * 1024).
pub open spec fn attachment_limit_spec(policy: GroupPolicy) -> u64 {
    (policy.max_attachment_size_mb * 1048576) as u64
}

pub open spec fn fits_policy_spec(a: AttachmentMeta, policy: GroupPolicy) -> bool {
    a.size_bytes <= policy.max_attachment_size_mb * 1048576
}

fn attachment_limit(policy: &GroupPolicy) -> (r: u64)
    ensures
        r == attachment_limit_spec(*policy),
        r == policy.max_attachment_size_mb * 1048576,
{
    let mb: u64 = policy.max_attachment_size_mb as u64;
    mb * 1048576
}

impl AttachmentMeta {
    /// Whether the attachment is no larger than the policy's limit.
    pub fn fits_policy(&self, policy: &GroupPolicy) -> (r: bool)
        ensures
            r == fits_policy_spec(*self, *policy),
    {
        self.size_bytes <= attachment_limit(policy)
    }
}

/// An emoji reaction and who left it.
#[derive(Debug, Clone, PartialEq, Eq)]
pub struct MessageReaction {
    pub emoji: String,
    pub author_id: MemberId,
}

#[derive(Debug, Clone, Copy, PartialEq, Eq, Structural)]
pub enum MessageKind {
    Text,
    Attachment,
    VoiceNote,
    System,
}

/// A message of the group chat; `created_at` is in milliseconds since the Unix epoch.
#[derive(Debug, Clone, PartialEq, Eq)]
pub struct ChatMessage {
    pub message_id: MessageId,
    pub author_id: MemberId,
    pub kind: MessageKind,
    pub text: String,
    pub reply_to: Option<MessageId>,
    pub attachments: Vec<AttachmentMeta>,
    pub reactions: Vec<MessageReaction>,
    pub created_at: u64,
}

/// Why a chat message was refused.
#[derive(Debug, Clone, PartialEq, Eq)]
pub enum MessageValidationError {
    EmptyPayload,
    MissingText,
    TooManyAttachments(usize),
    AttachmentTooLarge { file_name: String, size_bytes: u64, limit_bytes: u64 },
    EmptyReactionEmoji,
}

/// The text of a message validation error.
pub open spec fn message_error_text_spec(e: MessageValidationError) -> Seq<char> {
    match e {
        MessageValidationError::EmptyPayload => "message cannot be empty"@,
        MessageValidationError::MissingText => "text message must include text"@,
        MessageValidationError::TooManyAttachments(n) => "message contains too many attachments: "@
            + decimal_spec(n as nat),
        MessageValidationError::AttachmentTooLarge { file_name, size_bytes, limit_bytes } => "attachment '"@
            + file_name@ + "' has size "@ + decimal_spec(size_bytes as nat) + " bytes which exceeds limit "@
            + decimal_spec(limit_bytes as nat),
        MessageValidationError::EmptyReactionEmoji => "reaction emoji cannot be empty"@,
    }
}

impl MessageValidationError {
    /// The error as the user reads it.
    pub fn message(&self) -> (r: String)
        ensures
            r@ == message_error_text_spec(*self),
    {
        let mut out = String::new();
        match self {
            MessageValidationError::EmptyPayload => push_str(&mut out, "message cannot be empty"),
            MessageValidationError::MissingText => push_str(&mut out, "text message must include text"),
            MessageValidationError::TooManyAttachments(n) => {
                push_str(&mut out, "message contains too many attachments: ");
                push_decimal(&mut out, *n as u64);
            },
            MessageValidationError::AttachmentTooLarge { file_name, size_bytes, limit_bytes } => {
                push_str(&mut out, "attachment '");
                push_str(&mut out, file_name.as_str());
                push_str(&mut out, "' has size ");
                push_decimal(&mut out, *size_bytes);
                push_str(&mut out, " bytes which exceeds limit ");
                push_decimal(&mut out, *limit_bytes);
            },
            MessageValidationError::EmptyReactionEmoji => push_str(&mut out, "reaction emoji cannot be empty"),
        }
        out
    }
}

/// The most attachments a message may carry.
pub const MAX_ATTACHMENTS_PER_MESSAGE: usize = 8;

/// Which check of `ChatMessage::validate_against` fails first.
pub enum MessageCheck {
    EmptyPayload,
    MissingText,
    TooManyAttachments,
    TooLarge(int),
    EmptyEmoji,
    Valid,
}

/// Index of the first attachment that does not fit the policy, if any.
pub open spec fn first_oversize_spec(atts: Seq<AttachmentMeta>, policy: GroupPolicy) -> Option<int>
    decreases atts.len(),
{
    if atts.len() == 0 {
        None
    } else {
        match first_oversize_spec(atts.drop_last(), policy) {
            Some(i) => Some(i),
            None => if !fits_policy_spec(atts.last(), policy) {
                Some(atts.len() - 1)
            } else {
                None
            },
        }
    }
}

pub open spec fn has_blank_emoji_spec(reactions: Seq<MessageReaction>) -> bool {
    exists|i: int| 0 <= i < reactions.len() && is_blank_spec(#[trigger] reactions[i].emoji@)
}

pub open spec fn message_check_spec(m: ChatMessage, policy: GroupPolicy) -> MessageCheck {
    let has_text = !is_blank_spec(m.text@);
    let has_attachments = m.attachments@.len() > 0;
    if !has_text && !has_attachments && m.kind != MessageKind::System {
        MessageCheck::EmptyPayload
    } else if m.kind == MessageKind::Text && !has_text {
        MessageCheck::MissingText
    } else if m.attachments@.len() > MAX_ATTACHMENTS_PER_MESSAGE {
        MessageCheck::TooManyAttachments
    } else if first_oversize_spec(m.attachments@, policy) is Some {
        MessageCheck::TooLarge(first_oversize_spec(m.attachments@, policy)->0)
    } else if has_blank_emoji_spec(m.reactions@) {
        MessageCheck::EmptyEmoji
    } else {
        MessageCheck::Valid
    }
}

proof fn lemma_first_oversize(atts: Seq<AttachmentMeta>, policy: GroupPolicy)
    ensures
        first_oversize_spec(atts, policy) matches Some(i) ==> 0 <= i < atts.len() && !fits_policy_spec(
            atts[i],
            policy,
        ) && forall|j: int| 0 <= j < i ==> fits_policy_spec(#[trigger] atts[j], policy),
        first_oversize_spec(atts, policy) is None ==> forall|j: int|
            0 <= j < atts.len() ==> fits_policy_spec(#[trigger] atts[j], policy),
    decreases atts.len(),
{
    if atts.len() > 0 {
        let init = atts.drop_last();
        lemma_first_oversize(init, policy);
        assert forall|j: int| 0 <= j < init.len() implies init[j] == atts[j] by {}
    }
}

/// The file names of the attachments joined by single spaces.
pub open spec fn joined_names_spec(atts: Seq<AttachmentMeta>) -> Seq<char>
    decreases atts.len(),
{
    if atts.len() == 0 {
        Seq::empty()
    } else if atts.len() == 1 {
        atts[0].file_name@
    } else {
        joined_names_spec(atts.drop_last()) + " "@ + atts.last().file_name@
    }
}

/// The text a search looks in: the message text, the attachment names, or
/// both joined by a space.
pub open spec fn searchable_text_spec(m: ChatMessage) -> Seq<char> {
    let names = joined_names_spec(m.attachments@);
    if names.len() == 0 {
        m.text@
    } else if is_blank_spec(m.text@) {
        names
    } else {
        m.text@ + " "@ + names
    }
}

impl ChatMessage {
    /// Checks, in order: an empty payload, a text message without text, more
    /// than eight attachments, the first attachment over the limit, a blank
    /// reaction emoji.
    #[verifier::loop_isolation(false)]
    pub fn validate_against(&self, policy: &GroupPolicy) -> (r: Result<(), MessageValidationError>)
        ensures
            match message_check_spec(*self, *policy) {
                MessageCheck::EmptyPayload => r == Err::<(), MessageValidationError>(
                    MessageValidationError::EmptyPayload,
                ),
                MessageCheck::MissingText => r == Err::<(), MessageValidationError>(
                    MessageValidationError::MissingText,
                ),
                MessageCheck::TooManyAttachments => r == Err::<(), MessageValidationError>(
                    MessageValidationError::TooManyAttachments(self.attachments@.len() as usize),
                ),
                MessageCheck::TooLarge(i) => r matches Err(
                    MessageValidationError::AttachmentTooLarge { file_name, size_bytes, limit_bytes },
                ) && file_name@ == self.attachments@[i].file_name@ && size_bytes
                    == self.attachments@[i].size_bytes && limit_bytes == attachment_limit_spec(
                    *policy,
                ),
                MessageCheck::EmptyEmoji => r == Err::<(), MessageValidationError>(
                    MessageValidationError::EmptyReactionEmoji,
                ),
                MessageCheck::Valid => r is Ok,
            },
    {
        let has_text = !is_blank(self.text.as_str());
        let has_attachments = self.attachments.len() > 0;
        let is_system = match self.kind {
            MessageKind::System => true,
            _ => false,
        };
        if !has_text && !has_attachments && !is_system {
            return Err(MessageValidationError::EmptyPayload);
        }
        let is_text = match self.kind {
            MessageKind::Text => true,
            _ => false,
        };
        if is_text && !has_text {
            return Err(MessageValidationError::MissingText);
        }
        if self.attachments.len() > MAX_ATTACHMENTS_PER_MESSAGE {
            return Err(MessageValidationError::TooManyAttachments(self.attachments.len()));
        }
        let limit_bytes = attachment_limit(policy);
        proof {
            lemma_first_oversize(self.attachments@, *policy);
        }
        let mut i: usize = 0;
        while i < self.attachments.len()
            invariant
                i <= self.attachments@.len(),
                limit_bytes == attachment_limit_spec(*policy),
                limit_bytes == policy.max_attachment_size_mb * 1048576,
                forall|j: int| 0 <= j < i ==> fits_policy_spec(#[trigger] self.attachments@[j], *policy),
                first_oversize_spec(self.attachments@, *policy) matches Some(k) ==> i <= k,
                first_oversize_spec(self.attachments@, *policy) matches Some(k) ==> 0 <= k
                    < self.attachments@.len() && !fits_policy_spec(self.attachments@[k], *policy),
            decreases self.attachments@.len() - i,
        {
            let attachment = &self.attachments[i];
            if !attachment.fits_policy(policy) {
                proof {
                    assert(!fits_policy_spec(self.attachments@[i as int], *policy));
                }
                return Err(
                    MessageValidationError::AttachmentTooLarge {
                        file_name: copy_string(&attachment.file_name),
                        size_bytes: attachment.size_bytes,
                        limit_bytes,
                    },
                );
            }
            i = i + 1;
        }
        assert(first_oversize_spec(self.attachments@, *policy) is None);
        let mut k: usize = 0;
        while k < self.reactions.len()
            invariant
                k <= self.reactions@.len(),
                forall|j: int| 0 <= j < k ==> !is_blank_spec(#[trigger] self.reactions@[j].emoji@),
            decreases self.reactions@.len() - k,
        {
            if is_blank(self.reactions[k].emoji.as_str()) {
                proof {
                    assert(is_blank_spec(self.reactions@[k as int].emoji@));
                }
                return Err(MessageValidationError::EmptyReactionEmoji);
            }
            k = k + 1;
        }
        Ok(())
    }

    /// The message text and the attachment names, for search.
    pub fn searchable_text(&self) -> (r: String)
        ensures
            r@ == searchable_text_spec(*self),
    {
        let mut names = String::new();
        let mut i: usize = 0;
        while i < self.attachments.len()
            invariant
                i <= self.attachments@.len(),
                names@ == joined_names_spec(self.attachments@.take(i as int)),
            decreases self.attachments@.len() - i,
        {
            proof {
                assert(self.attachments@.take(i + 1).drop_last() =~= self.attachments@.take(i as int));
            }
            if i > 0 {
                names.append(" ");
            }
            names.append(self.attachments[i].file_name.as_str());
            i = i + 1;
        }
        proof {
            assert(self.attachments@.take(i as int) =~= self.attachments@);
        }
        if names.unicode_len() == 0 {
            copy_string(&self.text)
        } else if is_blank(self.text.as_str()) {
            names
        } else {
            let mut out = copy_string(&self.text);
            out.append(" ");
            out.append(names.as_str());
            out
        }
    }
}

} // verus!
