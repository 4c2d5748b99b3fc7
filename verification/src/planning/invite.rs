//! Invite tokens: who may join a group, until when and how many times.

use vstd::prelude::*;
use crate::outside::unix_time_ms;
use crate::planning::domain::GroupId;
use crate::text::{is_ascii_digit_spec, is_ascii_upper_spec, is_blank, is_blank_spec, owned, push_str};

verus! {

/// How an invite is handed over.
#[derive(Debug, Clone, Copy, PartialEq, Eq, Structural)]
pub enum InviteTransport {
    QrCode,
    TimeLimitedLink,
    ManualCode,
}

pub open spec fn invite_transport_label_spec(t: InviteTransport) -> Seq<char> {
    match t {
        InviteTransport::QrCode => "QR code"@,
        InviteTransport::TimeLimitedLink => "time-limited link"@,
        InviteTransport::ManualCode => "manual code"@,
    }
}

impl InviteTransport {
    /// Human-readable name of the transport.
    pub fn label(&self) -> (r: &'static str)
        ensures
            r@ == invite_transport_label_spec(*self),
    {
        match self {
            InviteTransport::QrCode => "QR code",
            InviteTransport::TimeLimitedLink => "time-limited link",
            InviteTransport::ManualCode => "manual code",
        }
    }
}

/// Why an invite was refused.
#[derive(Debug, Clone, PartialEq, Eq)]
pub enum InviteError {
    EmptyCode,
    InvalidCode(String),
    ZeroUseInvite,
    Expired,
    UsageLimitReached,
}

/// The text of an invite error.
pub open spec fn invite_error_text_spec(e: InviteError) -> Seq<char> {
    match e {
        InviteError::EmptyCode => "invite code cannot be empty"@,
        InviteError::InvalidCode(v) => "invite code '"@ + v@ + "' must use only A-Z, 0-9 or '-'"@,
        InviteError::ZeroUseInvite => "invite must allow at least one use"@,
        InviteError::Expired => "invite has expired"@,
        InviteError::UsageLimitReached => "invite usage limit reached"@,
    }
}

impl InviteError {
    /// The error as the user reads it.
    pub fn message(&self) -> (r: String)
        ensures
            r@ == invite_error_text_spec(*self),
    {
        match self {
            InviteError::EmptyCode => owned("invite code cannot be empty"),
            InviteError::InvalidCode(v) => {
                let mut out = String::new();
                push_str(&mut out, "invite code '");
                push_str(&mut out, v.as_str());
                push_str(&mut out, "' must use only A-Z, 0-9 or '-'");
                out
            },
            InviteError::ZeroUseInvite => owned("invite must allow at least one use"),
            InviteError::Expired => owned("invite has expired"),
            InviteError::UsageLimitReached => owned("invite usage limit reached"),
        }
    }
}

/// An invite into a group. Times are milliseconds since the Unix epoch; an
/// invite without `expires_at` does not expire.
#[derive(Debug, Clone, PartialEq, Eq)]
pub struct InviteToken {
    pub group_id: GroupId,
    pub code: String,
    pub issued_at: u64,
    pub expires_at: Option<u64>,
    pub max_uses: u8,
    pub used_count: u8,
    pub transport: InviteTransport,
}

pub open spec fn is_code_char_spec(c: char) -> bool {
    is_ascii_upper_spec(c) || is_ascii_digit_spec(c) || c == '-'
}

/// Which check of an invite code fails: blank, or a character outside `A-Z`, `0-9`, `-`.
pub enum CodeCheck {
    Empty,
    BadCharacter,
    Valid,
}

pub open spec fn code_check_spec(s: Seq<char>) -> CodeCheck {
    if is_blank_spec(s) {
        CodeCheck::Empty
    } else if forall|i: int| 0 <= i < s.len() ==> is_code_char_spec(#[trigger] s[i]) {
        CodeCheck::Valid
    } else {
        CodeCheck::BadCharacter
    }
}

/// Whether `r` is the error of the code rule for `code` (or not an error where the code passes).
pub open spec fn code_result_spec<T>(r: Result<T, InviteError>, code: Seq<char>) -> bool {
    match code_check_spec(code) {
        CodeCheck::Empty => r matches Err(InviteError::EmptyCode),
        CodeCheck::BadCharacter => r matches Err(InviteError::InvalidCode(v)) && v@ == code,
        CodeCheck::Valid => r is Ok,
    }
}

fn validate_code(value: &str) -> (r: Result<(), InviteError>)
    ensures
        code_result_spec(r, value@),
{
    if is_blank(value) {
        return Err(InviteError::EmptyCode);
    }
    let n = value.unicode_len();
    let mut i: usize = 0;
    while i < n
        invariant
            n == value@.len(),
            i <= n,
            !is_blank_spec(value@),
            forall|j: int| 0 <= j < i ==> is_code_char_spec(#[trigger] value@[j]),
        decreases n - i,
    {
        let c = value.get_char(i);
        if !(('A' <= c && c <= 'Z') || ('0' <= c && c <= '9') || c == '-') {
            assert(!is_code_char_spec(value@[i as int]));
            return Err(InviteError::InvalidCode(owned(value)));
        }
        i = i + 1;
    }
    Ok(())
}

/// The invite is unexpired at `now` and has uses left.
pub open spec fn is_valid_at_spec(t: InviteToken, now: u64) -> bool {
    &&& (t.expires_at matches Some(e) ==> now <= e)
    &&& t.used_count < t.max_uses
}

impl InviteToken {
    /// An invite issued at `issued_at` that expires `ttl_ms` later, unused.
    pub fn ephemeral_at(
        group_id: GroupId,
        code: &str,
        issued_at: u64,
        ttl_ms: u64,
        max_uses: u8,
        transport: InviteTransport,
    ) -> (r: Result<InviteToken, InviteError>)
        requires
            issued_at + ttl_ms <= u64::MAX,
        ensures
            code_result_spec(r, code@),
            r matches Ok(t) ==> t.group_id@ == group_id@ && t.code@ == code@ && t.issued_at
                == issued_at && t.expires_at == Some((issued_at + ttl_ms) as u64) && t.max_uses
                == max_uses && t.used_count == 0 && t.transport == transport,
    {
        match validate_code(code) {
            Err(e) => Err(e),
            Ok(()) => Ok(
                InviteToken {
                    group_id,
                    code: owned(code),
                    issued_at,
                    expires_at: Some(issued_at + ttl_ms),
                    max_uses,
                    used_count: 0,
                    transport,
                },
            ),
        }
    }

    /// An invite issued now that expires `ttl_ms` later (at the end of time,
    /// should that sum pass it), unused.
    pub fn ephemeral(
        group_id: GroupId,
        code: &str,
        ttl_ms: u64,
        max_uses: u8,
        transport: InviteTransport,
    ) -> (r: Result<InviteToken, InviteError>)
        ensures
            code_result_spec(r, code@),
            r matches Ok(t) ==> t.group_id@ == group_id@ && t.code@ == code@ && t.expires_at
                == Some(
                if t.issued_at + ttl_ms <= u64::MAX {
                    (t.issued_at + ttl_ms) as u64
                } else {
                    u64::MAX
                },
            ) && t.max_uses == max_uses && t.used_count == 0 && t.transport == transport,
    {
        let issued_at = unix_time_ms();
        if issued_at <= u64::MAX - ttl_ms {
            InviteToken::ephemeral_at(group_id, code, issued_at, ttl_ms, max_uses, transport)
        } else {
            InviteToken::ephemeral_at(group_id, code, issued_at, u64::MAX - issued_at, max_uses, transport)
        }
    }

    /// A single-use manual-code invite issued at `issued_at`, without expiry.
    pub fn manual_at(group_id: GroupId, code: &str, issued_at: u64) -> (r: Result<InviteToken, InviteError>)
        ensures
            code_result_spec(r, code@),
            r matches Ok(t) ==> t.group_id@ == group_id@ && t.code@ == code@ && t.issued_at
                == issued_at && t.expires_at is None && t.max_uses == 1 && t.used_count == 0
                && t.transport == InviteTransport::ManualCode,
    {
        match validate_code(code) {
            Err(e) => Err(e),
            Ok(()) => Ok(
                InviteToken {
                    group_id,
                    code: owned(code),
                    issued_at,
                    expires_at: None,
                    max_uses: 1,
                    used_count: 0,
                    transport: InviteTransport::ManualCode,
                },
            ),
        }
    }

    /// A single-use manual-code invite issued now, without expiry.
    pub fn manual(group_id: GroupId, code: &str) -> (r: Result<InviteToken, InviteError>)
        ensures
            code_result_spec(r, code@),
            r matches Ok(t) ==> t.group_id@ == group_id@ && t.code@ == code@ && t.expires_at is None
                && t.max_uses == 1 && t.used_count == 0 && t.transport == InviteTransport::ManualCode,
    {
        let issued_at = unix_time_ms();
        InviteToken::manual_at(group_id, code, issued_at)
    }

    /// Whether the invite can still be used at `now`.
    pub fn is_valid_at(&self, now: u64) -> (r: bool)
        ensures
            r == is_valid_at_spec(*self, now),
    {
        let not_expired = match self.expires_at {
            None => true,
            Some(expires_at) => now <= expires_at,
        };
        not_expired && self.used_count < self.max_uses
    }

    /// Uses the invite once at `now`. Refuses, in order, an invite with no
    /// uses at all, an expired one, and one whose uses are spent.
    pub fn consume(&mut self, now: u64) -> (r: Result<(), InviteError>)
        ensures
            old(self).max_uses == 0 ==> r == Err::<(), InviteError>(InviteError::ZeroUseInvite),
            old(self).max_uses > 0 && (old(self).expires_at matches Some(e) && now > e) ==> r
                == Err::<(), InviteError>(InviteError::Expired),
            old(self).max_uses > 0 && !(old(self).expires_at matches Some(e) && now > e) && old(
                self,
            ).used_count >= old(self).max_uses ==> r == Err::<(), InviteError>(
                InviteError::UsageLimitReached,
            ),
            r is Ok <==> is_valid_at_spec(*old(self), now),
            r is Ok ==> *final(self) == (InviteToken { used_count: (old(self).used_count + 1) as u8, ..*old(self) }),
            r is Err ==> *final(self) == *old(self),
    {
        if self.max_uses == 0 {
            return Err(InviteError::ZeroUseInvite);
        }
        if let Some(expires_at) = self.expires_at {
            if now > expires_at {
                return Err(InviteError::Expired);
            }
        }
        if self.used_count >= self.max_uses {
            return Err(InviteError::UsageLimitReached);
        }
        self.used_count = self.used_count + 1;
        Ok(())
    }
}

} // verus!
