//! Group configuration, the group policy and their validation.

use vstd::prelude::*;
use crate::planning::security::CryptoProfile;
use crate::text::{decimal_spec, is_ascii_digit_spec, is_ascii_lower_spec, is_blank, is_blank_spec, copy_string, push_decimal, push_str};

verus! {

/// A way the devices of a group reach each other.
#[derive(Debug, Clone, Copy, PartialEq, Eq, Structural)]
pub enum TransportMode {
    LocalLanMdns,
    DirectP2p,
    BluetoothFallback,
}

pub open spec fn transport_mode_label_spec(m: TransportMode) -> Seq<char> {
    match m {
        TransportMode::LocalLanMdns => "LAN + mDNS"@,
        TransportMode::DirectP2p => "Direct P2P"@,
        TransportMode::BluetoothFallback => "Bluetooth fallback"@,
    }
}

impl TransportMode {
    /// Human-readable name of the transport.
    pub fn label(&self) -> (r: &'static str)
        ensures
            r@ == transport_mode_label_spec(*self),
    {
        match self {
            TransportMode::LocalLanMdns => "LAN + mDNS",
            TransportMode::DirectP2p => "Direct P2P",
            TransportMode::BluetoothFallback => "Bluetooth fallback",
        }
    }
}

/// The largest group any policy may allow.
pub const HARD_MAX_MEMBERS: usize = 8;

/// What a group allows: its size, its attachment limit and its features.
#[derive(Debug, Clone, Copy, PartialEq, Eq, Structural)]
pub struct GroupPolicy {
    pub max_members: usize,
    pub max_attachment_size_mb: u16,
    pub history_export_allowed: bool,
    pub search_enabled: bool,
    pub notifications_enabled: bool,
    pub reactions_enabled: bool,
    pub replies_enabled: bool,
    pub voice_notes_enabled: bool,
    pub calls_enabled: bool,
    pub multi_device_enabled: bool,
    pub disappearing_messages_enabled: bool,
    pub editing_enabled: bool,
}

/// Why a configuration or policy was refused.
#[derive(Debug, Clone, PartialEq, Eq)]
pub enum ConfigError {
    EmptyGroupName,
    InvalidGroupId(String),
    InvalidMaxMembers(usize),
    InvalidAttachmentLimit(u16),
    MissingTransport,
    MissingLanguage,
}

/// The text of a configuration error.
pub open spec fn config_error_text_spec(e: ConfigError) -> Seq<char> {
    match e {
        ConfigError::EmptyGroupName => "group name cannot be empty"@,
        ConfigError::InvalidGroupId(v) => "group id '"@ + v@ + "' must contain only lowercase letters, digits or '-'"@,
        ConfigError::InvalidMaxMembers(v) => "group must allow between 2 and 8 members, got "@ + decimal_spec(v as nat),
        ConfigError::InvalidAttachmentLimit(v) => "attachment size limit must be positive, got "@ + decimal_spec(v as nat),
        ConfigError::MissingTransport => "at least one transport mode is required"@,
        ConfigError::MissingLanguage => "at least one UI language is required"@,
    }
}

impl ConfigError {
    /// The error as the user reads it.
    pub fn message(&self) -> (r: String)
        ensures
            r@ == config_error_text_spec(*self),
    {
        let mut out = String::new();
        match self {
            ConfigError::EmptyGroupName => push_str(&mut out, "group name cannot be empty"),
            ConfigError::InvalidGroupId(v) => {
                push_str(&mut out, "group id '");
                push_str(&mut out, v.as_str());
                push_str(&mut out, "' must contain only lowercase letters, digits or '-'");
            },
            ConfigError::InvalidMaxMembers(v) => {
                push_str(&mut out, "group must allow between 2 and 8 members, got ");
                push_decimal(&mut out, *v as u64);
            },
            ConfigError::InvalidAttachmentLimit(v) => {
                push_str(&mut out, "attachment size limit must be positive, got ");
                push_decimal(&mut out, *v as u64);
            },
            ConfigError::MissingTransport => push_str(&mut out, "at least one transport mode is required"),
            ConfigError::MissingLanguage => push_str(&mut out, "at least one UI language is required"),
        }
        out
    }
}

/// The verdict of the policy rule: between 2 and `HARD_MAX_MEMBERS` members,
/// and a positive attachment limit.
pub open spec fn policy_check_spec(p: GroupPolicy) -> Result<(), ConfigError> {
    if !(2 <= p.max_members && p.max_members <= HARD_MAX_MEMBERS) {
        Err(ConfigError::InvalidMaxMembers(p.max_members))
    } else if p.max_attachment_size_mb == 0 {
        Err(ConfigError::InvalidAttachmentLimit(0))
    } else {
        Ok(())
    }
}

/// The policy of the first release.
pub open spec fn mvp_policy_spec() -> GroupPolicy {
    GroupPolicy {
        max_members: HARD_MAX_MEMBERS,
        max_attachment_size_mb: 100,
        history_export_allowed: true,
        search_enabled: true,
        notifications_enabled: true,
        reactions_enabled: true,
        replies_enabled: true,
        voice_notes_enabled: false,
        calls_enabled: false,
        multi_device_enabled: false,
        disappearing_messages_enabled: false,
        editing_enabled: true,
    }
}

impl GroupPolicy {
    /// The policy of the first release: eight members, 100 MB attachments,
    /// search, reactions, replies, editing and history export; no voice notes,
    /// calls, multi-device or disappearing messages.
    pub fn mvp() -> (r: GroupPolicy)
        ensures
            r == mvp_policy_spec(),
            r.max_members == HARD_MAX_MEMBERS,
            r.max_attachment_size_mb == 100,
            r.history_export_allowed,
            r.search_enabled,
            r.notifications_enabled,
            r.reactions_enabled,
            r.replies_enabled,
            !r.voice_notes_enabled,
            !r.calls_enabled,
            !r.multi_device_enabled,
            !r.disappearing_messages_enabled,
            r.editing_enabled,
    {
        GroupPolicy {
            max_members: HARD_MAX_MEMBERS,
            max_attachment_size_mb: 100,
            history_export_allowed: true,
            search_enabled: true,
            notifications_enabled: true,
            reactions_enabled: true,
            replies_enabled: true,
            voice_notes_enabled: false,
            calls_enabled: false,
            multi_device_enabled: false,
            disappearing_messages_enabled: false,
            editing_enabled: true,
        }
    }

    pub fn validate(&self) -> (r: Result<(), ConfigError>)
        ensures
            r == policy_check_spec(*self),
    {
        if !(2 <= self.max_members && self.max_members <= HARD_MAX_MEMBERS) {
            return Err(ConfigError::InvalidMaxMembers(self.max_members));
        }
        if self.max_attachment_size_mb == 0 {
            return Err(ConfigError::InvalidAttachmentLimit(0));
        }
        Ok(())
    }
}

/// A configured group: its id and name, UI languages, transports, crypto
/// profile and policy.
#[derive(Debug, Clone, PartialEq, Eq)]
pub struct GroupConfig {
    pub group_id: String,
    pub group_name: String,
    pub languages: Vec<String>,
    pub transport_modes: Vec<TransportMode>,
    pub crypto_profile: CryptoProfile,
    pub policy: GroupPolicy,
}

pub open spec fn is_group_id_char_spec(c: char) -> bool {
    is_ascii_lower_spec(c) || is_ascii_digit_spec(c) || c == '-'
}

/// A group id is not blank and holds only lower-case ASCII letters, digits and `-`.
pub open spec fn valid_group_id_spec(s: Seq<char>) -> bool {
    &&& !is_blank_spec(s)
    &&& forall|i: int| 0 <= i < s.len() ==> is_group_id_char_spec(#[trigger] s[i])
}

/// At least one language, and none of them blank.
pub open spec fn languages_ok_spec(languages: Seq<String>) -> bool {
    languages.len() > 0 && forall|i: int| 0 <= i < languages.len() ==> !is_blank_spec(
        #[trigger] languages[i]@,
    )
}

/// Which check of `GroupConfig::validate` fails first.
pub enum ConfigCheck {
    BadGroupId,
    EmptyName,
    NoLanguage,
    NoTransport,
    PolicyCheck,
}

pub open spec fn config_check_spec(c: GroupConfig) -> ConfigCheck {
    if !valid_group_id_spec(c.group_id@) {
        ConfigCheck::BadGroupId
    } else if is_blank_spec(c.group_name@) {
        ConfigCheck::EmptyName
    } else if !languages_ok_spec(c.languages@) {
        ConfigCheck::NoLanguage
    } else if c.transport_modes@.len() == 0 {
        ConfigCheck::NoTransport
    } else {
        ConfigCheck::PolicyCheck
    }
}

fn all_group_id_chars(s: &str) -> (r: bool)
    ensures
        r == (forall|i: int| 0 <= i < s@.len() ==> is_group_id_char_spec(#[trigger] s@[i])),
{
    let n = s.unicode_len();
    let mut i: usize = 0;
    while i < n
        invariant
            n == s@.len(),
            i <= n,
            forall|j: int| 0 <= j < i ==> is_group_id_char_spec(#[trigger] s@[j]),
        decreases n - i,
    {
        let c = s.get_char(i);
        if !(('a' <= c && c <= 'z') || ('0' <= c && c <= '9') || c == '-') {
            return false;
        }
        i = i + 1;
    }
    true
}

fn languages_ok(languages: &Vec<String>) -> (r: bool)
    ensures
        r == languages_ok_spec(languages@),
{
    if languages.len() == 0 {
        return false;
    }
    let mut i: usize = 0;
    while i < languages.len()
        invariant
            i <= languages@.len(),
            forall|j: int| 0 <= j < i ==> !is_blank_spec(#[trigger] languages@[j]@),
        decreases languages@.len() - i,
    {
        if is_blank(languages[i].as_str()) {
            return false;
        }
        i = i + 1;
    }
    true
}

impl GroupConfig {
    /// The sample group of the planning demo.
    pub fn demo() -> (r: GroupConfig)
        ensures
            r.group_id@ == "rimus-room"@,
            r.group_name@ == "Rimus Local Club"@,
            r.languages@.len() == 2,
            r.languages@[0]@ == "ru"@,
            r.languages@[1]@ == "en"@,
            r.transport_modes@ == seq![TransportMode::LocalLanMdns, TransportMode::BluetoothFallback],
            r.crypto_profile == CryptoProfile::SignalStyleSenderKeys,
            r.policy == mvp_policy_spec(),
    {
        let mut languages: Vec<String> = Vec::new();
        languages.push(String::from_str("ru"));
        languages.push(String::from_str("en"));
        let mut transport_modes: Vec<TransportMode> = Vec::new();
        transport_modes.push(TransportMode::LocalLanMdns);
        transport_modes.push(TransportMode::BluetoothFallback);
        GroupConfig {
            group_id: String::from_str("rimus-room"),
            group_name: String::from_str("Rimus Local Club"),
            languages,
            transport_modes,
            crypto_profile: CryptoProfile::SignalStyleSenderKeys,
            policy: GroupPolicy::mvp(),
        }
    }

    /// Checks, in order: the group id, the group name, the languages, the
    /// transports, then the policy.
    pub fn validate(&self) -> (r: Result<(), ConfigError>)
        ensures
            match config_check_spec(*self) {
                ConfigCheck::BadGroupId => r matches Err(ConfigError::InvalidGroupId(v))
                    && v@ == self.group_id@,
                ConfigCheck::EmptyName => r == Err::<(), ConfigError>(ConfigError::EmptyGroupName),
                ConfigCheck::NoLanguage => r == Err::<(), ConfigError>(ConfigError::MissingLanguage),
                ConfigCheck::NoTransport => r == Err::<(), ConfigError>(ConfigError::MissingTransport),
                ConfigCheck::PolicyCheck => r == policy_check_spec(self.policy),
            },
    {
        if is_blank(self.group_id.as_str()) || !all_group_id_chars(self.group_id.as_str()) {
            return Err(ConfigError::InvalidGroupId(copy_string(&self.group_id)));
        }
        if is_blank(self.group_name.as_str()) {
            return Err(ConfigError::EmptyGroupName);
        }
        if !languages_ok(&self.languages) {
            return Err(ConfigError::MissingLanguage);
        }
        if self.transport_modes.len() == 0 {
            return Err(ConfigError::MissingTransport);
        }
        self.policy.validate()
    }
}

} // verus!
