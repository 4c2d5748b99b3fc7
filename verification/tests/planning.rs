use localmessenger::planning::config::{ConfigError, GroupConfig, GroupPolicy, TransportMode};
use localmessenger::planning::domain::{
    AttachmentKind, AttachmentMeta, ChatMessage, DeviceId, DeviceProfile, GroupId, GroupRoster,
    MemberId, MemberProfile, MessageId, MessageKind, MessageReaction, MessageValidationError,
    Platform, PresenceState, RosterError, ValidationError,
};
use localmessenger::planning::invite::{InviteError, InviteToken, InviteTransport};
use localmessenger::planning::security::{RekeyPlan, RekeyReason, VerificationState};
use localmessenger::planning::workflow::{mvp_blueprint, next_milestones};

fn sample_member(member_id: &str, display_name: &str, device_id: &str) -> MemberProfile {
    let device = DeviceProfile::new(
        DeviceId::new(device_id).expect("device id should be valid"),
        &format!("{display_name} laptop"),
        Platform::Windows,
        VerificationState::VerifiedViaQr,
    )
    .expect("device should be valid");

    MemberProfile::new(
        MemberId::new(member_id).expect("member id should be valid"),
        display_name,
        vec![device],
        PresenceState::LanOnline,
        "4000 5000 6000 7000",
    )
    .expect("member should be valid")
}

#[test]
fn mvp_policy_respects_eight_member_limit() {
    let policy = GroupPolicy::mvp();
    assert_eq!(policy.max_members, 8);
    assert!(policy.validate().is_ok());
}

#[test]
fn roster_rejects_ninth_member() {
    let policy = GroupPolicy::mvp();
    let owner = sample_member("owner", "Owner", "owner-laptop");
    let mut roster = GroupRoster::new(owner);

    for index in 1..policy.max_members {
        let member = sample_member(
            &format!("member_{index}"),
            &format!("Member {index}"),
            &format!("device_{index}"),
        );
        roster.add_member(member, &policy).expect("member should fit");
    }

    let overflow = sample_member("member_overflow", "Overflow", "device_overflow");
    let error = roster
        .add_member(overflow, &policy)
        .expect_err("ninth member must be rejected");
    assert_eq!(error, RosterError::GroupFull { max_members: 8 });
}

#[test]
fn invite_expires_or_hits_usage_limit() {
    let group_id = GroupId::new("rimus_group").expect("group id should be valid");
    let mut invite = InviteToken::ephemeral(
        group_id,
        "ROOM-2026",
        30_000,
        1,
        InviteTransport::QrCode,
    )
    .expect("invite should be valid");

    let now = invite.issued_at + 5_000;
    assert!(invite.is_valid_at(now));
    invite.consume(now).expect("first usage should work");

    let error = invite
        .consume(now)
        .expect_err("second usage must be rejected");
    assert_eq!(error, InviteError::UsageLimitReached);
}

#[test]
fn attachment_limit_is_enforced() {
    let policy = GroupPolicy::mvp();
    let message = ChatMessage {
        message_id: MessageId::new("message_1").expect("message id should be valid"),
        author_id: MemberId::new("owner").expect("member id should be valid"),
        kind: MessageKind::Attachment,
        text: "photo dump".to_string(),
        reply_to: None,
        attachments: vec![AttachmentMeta {
            attachment_id: "att-1".to_string(),
            file_name: "clip.mov".to_string(),
            kind: AttachmentKind::Video,
            size_bytes: u64::from(policy.max_attachment_size_mb + 1) * 1024 * 1024,
        }],
        reactions: Vec::new(),
        created_at: 0,
    };

    assert!(message.validate_against(&policy).is_err());
}

fn text_message(text: &str, attachments: Vec<AttachmentMeta>, kind: MessageKind) -> ChatMessage {
    ChatMessage {
        message_id: MessageId::new("m1").unwrap(),
        author_id: MemberId::new("owner").unwrap(),
        kind,
        text: text.to_string(),
        reply_to: None,
        attachments,
        reactions: Vec::new(),
        created_at: 0,
    }
}

fn attachment(name: &str, size_bytes: u64) -> AttachmentMeta {
    AttachmentMeta {
        attachment_id: format!("att-{name}"),
        file_name: name.to_string(),
        kind: AttachmentKind::File,
        size_bytes,
    }
}

#[test]
fn attachment_at_exact_limit_fits() {
    let policy = GroupPolicy::mvp();
    assert!(attachment("a.bin", 100 * 1024 * 1024).fits_policy(&policy));
    assert!(!attachment("a.bin", 100 * 1024 * 1024 + 1).fits_policy(&policy));
}

#[test]
fn message_validation_reports_each_error() {
    let policy = GroupPolicy::mvp();
    assert_eq!(
        text_message("  ", vec![], MessageKind::Attachment).validate_against(&policy),
        Err(MessageValidationError::EmptyPayload)
    );
    assert!(text_message("", vec![], MessageKind::System).validate_against(&policy).is_ok());
    assert_eq!(
        text_message(" ", vec![attachment("x", 1)], MessageKind::Text).validate_against(&policy),
        Err(MessageValidationError::MissingText)
    );
    let many: Vec<AttachmentMeta> = (0..9).map(|i| attachment(&format!("f{i}"), 1)).collect();
    assert_eq!(
        text_message("hi", many, MessageKind::Attachment).validate_against(&policy),
        Err(MessageValidationError::TooManyAttachments(9))
    );
    let big = 101 * 1024 * 1024;
    assert_eq!(
        text_message("hi", vec![attachment("ok", 1), attachment("big", big)], MessageKind::Attachment)
            .validate_against(&policy),
        Err(MessageValidationError::AttachmentTooLarge {
            file_name: "big".to_string(),
            size_bytes: big,
            limit_bytes: 100 * 1024 * 1024,
        })
    );
    let mut with_reaction = text_message("hi", vec![], MessageKind::Text);
    with_reaction.reactions.push(MessageReaction {
        emoji: " ".to_string(),
        author_id: MemberId::new("owner").unwrap(),
    });
    assert_eq!(
        with_reaction.validate_against(&policy),
        Err(MessageValidationError::EmptyReactionEmoji)
    );
}

#[test]
fn searchable_text_joins_names() {
    let m = text_message("hello", vec![attachment("a.png", 1), attachment("b.txt", 1)], MessageKind::Text);
    assert_eq!(m.searchable_text(), "hello a.png b.txt");
    let m = text_message("  ", vec![attachment("a.png", 1)], MessageKind::Attachment);
    assert_eq!(m.searchable_text(), "a.png");
    let m = text_message("only", vec![], MessageKind::Text);
    assert_eq!(m.searchable_text(), "only");
}

#[test]
fn identifiers_follow_the_rule() {
    assert_eq!(GroupId::new(" ").unwrap_err(), ValidationError::EmptyIdentifier("group_id"));
    assert_eq!(
        MemberId::new("a b").unwrap_err(),
        ValidationError::InvalidIdentifier { field: "member_id", value: "a b".to_string() }
    );
    assert_eq!(DeviceId::new("dev_1-x").unwrap().as_str(), "dev_1-x");
}

#[test]
fn profiles_need_name_and_device() {
    let id = DeviceId::new("d1").unwrap();
    assert_eq!(
        DeviceProfile::new(id, " ", Platform::Linux, VerificationState::Pending).unwrap_err(),
        ValidationError::EmptyDisplayName
    );
    let member = MemberId::new("m1").unwrap();
    assert_eq!(
        MemberProfile::new(member, "Name", vec![], PresenceState::Offline, "1").unwrap_err(),
        ValidationError::MissingDevice
    );
}

#[test]
fn roster_refuses_duplicates_and_owner_removal() {
    let policy = GroupPolicy::mvp();
    let mut roster = GroupRoster::new(sample_member("owner", "Owner", "d0"));
    roster.add_member(sample_member("m1", "One", "d1"), &policy).unwrap();
    assert_eq!(
        roster.add_member(sample_member("m1", "Again", "d2"), &policy),
        Err(RosterError::DuplicateMember("m1".to_string()))
    );
    assert_eq!(
        roster.remove_member(&MemberId::new("owner").unwrap()),
        Err(RosterError::CannotRemoveOwner)
    );
    assert_eq!(roster.remove_member(&MemberId::new("m1").unwrap()), Ok(true));
    assert_eq!(roster.remove_member(&MemberId::new("m1").unwrap()), Ok(false));
    assert_eq!(roster.members.len(), 1);
}

#[test]
fn online_members_skip_offline() {
    let policy = GroupPolicy::mvp();
    let mut roster = GroupRoster::new(sample_member("owner", "Owner", "d0"));
    let mut away = sample_member("m1", "One", "d1");
    away.presence = PresenceState::Offline;
    roster.add_member(away, &policy).unwrap();
    let online = roster.online_members();
    assert_eq!(online.len(), 1);
    assert_eq!(online[0].member_id.as_str(), "owner");
}

#[test]
fn policy_and_config_validation() {
    let mut policy = GroupPolicy::mvp();
    policy.max_members = 9;
    assert_eq!(policy.validate(), Err(ConfigError::InvalidMaxMembers(9)));
    policy.max_members = 2;
    policy.max_attachment_size_mb = 0;
    assert_eq!(policy.validate(), Err(ConfigError::InvalidAttachmentLimit(0)));

    assert!(GroupConfig::demo().validate().is_ok());
    let mut config = GroupConfig::demo();
    config.group_id = "Bad_Id".to_string();
    assert_eq!(config.validate(), Err(ConfigError::InvalidGroupId("Bad_Id".to_string())));
    let mut config = GroupConfig::demo();
    config.group_name = " ".to_string();
    assert_eq!(config.validate(), Err(ConfigError::EmptyGroupName));
    let mut config = GroupConfig::demo();
    config.languages.push(" ".to_string());
    assert_eq!(config.validate(), Err(ConfigError::MissingLanguage));
    let mut config = GroupConfig::demo();
    config.transport_modes.clear();
    assert_eq!(config.validate(), Err(ConfigError::MissingTransport));
    assert_eq!(TransportMode::DirectP2p.label(), "Direct P2P");
}

#[test]
fn invite_rules() {
    let gid = GroupId::new("g1").unwrap();
    assert_eq!(InviteToken::manual(gid.clone(), " ").unwrap_err(), InviteError::EmptyCode);
    assert_eq!(
        InviteToken::manual(gid.clone(), "room").unwrap_err(),
        InviteError::InvalidCode("room".to_string())
    );
    let mut invite = InviteToken::ephemeral_at(gid.clone(), "ROOM-1", 1_000, 30_000, 2, InviteTransport::TimeLimitedLink).unwrap();
    assert_eq!(invite.expires_at, Some(31_000));
    assert!(!invite.is_valid_at(31_001));
    assert_eq!(invite.consume(31_001), Err(InviteError::Expired));
    let mut zero = InviteToken::ephemeral_at(gid.clone(), "ROOM-2", 0, 10, 0, InviteTransport::QrCode).unwrap();
    assert_eq!(zero.consume(1), Err(InviteError::ZeroUseInvite));
    invite.consume(2_000).unwrap();
    invite.consume(2_000).unwrap();
    assert_eq!(invite.used_count, 2);
    let manual = InviteToken::manual(gid, "ROOM-3").unwrap();
    assert_eq!(manual.max_uses, 1);
    assert_eq!(manual.expires_at, None);
    assert_eq!(InviteTransport::ManualCode.label(), "manual code");
}

#[test]
fn rekey_summary_and_blueprint() {
    let plan = RekeyPlan {
        next_epoch: 12,
        reason: RekeyReason::DeviceRevoked("old-phone".to_string()),
        revoked_devices: vec![],
    };
    assert_eq!(plan.summary(), "epoch 12 rekey scheduled because device old-phone revoked");
    let blueprint = mvp_blueprint();
    assert_eq!(blueprint.roster.members.len(), 1);
    assert_eq!(blueprint.priorities.len(), 4);
    assert_eq!(blueprint.priorities[1], next_milestones()[1]);
    assert!(blueprint.config.validate().is_ok());
}

#[test]
fn planning_errors_read_as_their_messages() {
    assert_eq!(ConfigError::InvalidMaxMembers(9).message(), "group must allow between 2 and 8 members, got 9");
    assert_eq!(
        ConfigError::InvalidGroupId("Bad Id".to_string()).message(),
        "group id 'Bad Id' must contain only lowercase letters, digits or '-'"
    );
    assert_eq!(ConfigError::InvalidAttachmentLimit(0).message(), "attachment size limit must be positive, got 0");
    assert_eq!(RosterError::GroupFull { max_members: 8 }.message(), "group is full, limit is 8 members");
    assert_eq!(RosterError::DuplicateMember("bob".to_string()).message(), "member 'bob' is already in the roster");
    assert_eq!(
        ValidationError::InvalidIdentifier { field: "member id", value: "a b".to_string() }.message(),
        "member id 'a b' must contain only ASCII letters, digits, '-' or '_'"
    );
    assert_eq!(ValidationError::EmptyIdentifier("device id").message(), "device id cannot be empty");
    assert_eq!(
        MessageValidationError::AttachmentTooLarge {
            file_name: "clip.mov".to_string(),
            size_bytes: 2048,
            limit_bytes: 1024,
        }
        .message(),
        "attachment 'clip.mov' has size 2048 bytes which exceeds limit 1024"
    );
    assert_eq!(MessageValidationError::TooManyAttachments(9).message(), "message contains too many attachments: 9");
    assert_eq!(
        InviteError::InvalidCode("room 1".to_string()).message(),
        "invite code 'room 1' must use only A-Z, 0-9 or '-'"
    );
    assert_eq!(InviteError::UsageLimitReached.message(), "invite usage limit reached");
}
