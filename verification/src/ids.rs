//! Member and device identifiers and the device-model error type.

use vstd::prelude::*;
use crate::text::{
    all_identifier_chars, all_identifier_chars_spec, copy_string, decimal_spec, is_blank,
    is_blank_spec, owned, push_decimal, push_str,
};

verus! {

/// Errors of the device and member model.
#[derive(Debug, Clone, PartialEq, Eq)]
pub enum CoreError {
    EmptyIdentifier(&'static str),
    InvalidIdentifier { field: &'static str, value: String },
    EmptyDisplayName,
    DuplicateDevice(String),
    ForeignDeviceOwner { expected_member_id: String, actual_member_id: String },
    MissingDevice(String),
    SafetyNumberMismatch,
    InvalidQrPayloadVersion(u8),
    QrPayloadMismatch,
    Serialization(String),
}

/// What `validate_identifier` answers for a candidate identifier.
pub enum IdentifierCheck {
    Valid,
    Empty,
    BadCharacter,
}

/// The verdict of the identifier rule: not blank, and only ASCII letters,
/// digits, `-` and `_`.
pub open spec fn identifier_check_spec(s: Seq<char>) -> IdentifierCheck {
    if is_blank_spec(s) {
        IdentifierCheck::Empty
    } else if all_identifier_chars_spec(s) {
        IdentifierCheck::Valid
    } else {
        IdentifierCheck::BadCharacter
    }
}

pub open spec fn is_valid_identifier_spec(s: Seq<char>) -> bool {
    identifier_check_spec(s) is Valid
}

/// Checks an identifier against the identifier rule; the error names the field.
pub fn validate_identifier(field: &'static str, value: &str) -> (r: Result<(), CoreError>)
    ensures
        match identifier_check_spec(value@) {
            IdentifierCheck::Valid => r is Ok,
            IdentifierCheck::Empty => r == Err::<(), CoreError>(CoreError::EmptyIdentifier(field)),
            IdentifierCheck::BadCharacter => r matches Err(CoreError::InvalidIdentifier {
                field: f,
                value: v,
            }) && f == field && v@ == value@,
        },
{
    if is_blank(value) {
        return Err(CoreError::EmptyIdentifier(field));
    }
    if all_identifier_chars(value) {
        Ok(())
    } else {
        Err(CoreError::InvalidIdentifier { field, value: owned(value) })
    }
}

/// Identifier of a group member.
#[derive(Debug, PartialEq, Eq, Hash)]
pub struct MemberId(String);

/// Identifier of one of a member's devices.
#[derive(Debug, PartialEq, Eq, Hash)]
pub struct DeviceId(String);

impl View for MemberId {
    type V = Seq<char>;

    closed spec fn view(&self) -> Seq<char> {
        self.0@
    }
}

impl View for DeviceId {
    type V = Seq<char>;

    closed spec fn view(&self) -> Seq<char> {
        self.0@
    }
}

impl MemberId {
    #[verifier::type_invariant]
    spec fn inv(self) -> bool {
        is_valid_identifier_spec(self.0@)
    }

    /// Builds a member id; fails unless `value` passes the identifier rule.
    pub fn new(value: &str) -> (r: Result<MemberId, CoreError>)
        ensures
            match identifier_check_spec(value@) {
                IdentifierCheck::Valid => r matches Ok(id) && id@ == value@,
                IdentifierCheck::Empty => r == Err::<MemberId, CoreError>(
                    CoreError::EmptyIdentifier("member_id"),
                ),
                IdentifierCheck::BadCharacter => r matches Err(CoreError::InvalidIdentifier {
                    field: f,
                    value: v,
                }) && f == "member_id" && v@ == value@,
            },
    {
        match validate_identifier("member_id", value) {
            Ok(()) => Ok(MemberId(owned(value))),
            Err(e) => Err(e),
        }
    }

    pub fn as_str(&self) -> (r: &str)
        ensures
            r@ == self@,
            is_valid_identifier_spec(r@),
    {
        proof {
            use_type_invariant(self);
        }
        self.0.as_str()
    }

    /// The identifier as an owned string.
    pub fn to_string(&self) -> (r: String)
        ensures
            r@ == self@,
            is_valid_identifier_spec(r@),
    {
        proof {
            use_type_invariant(self);
        }
        self.0.clone()
    }

    pub fn duplicate(&self) -> (r: MemberId)
        ensures
            r@ == self@,
    {
        proof {
            use_type_invariant(self);
        }
        MemberId(self.0.clone())
    }

    pub fn same_as(&self, other: &MemberId) -> (r: bool)
        ensures
            r == (self@ == other@),
    {
        self.0 == other.0
    }
}

impl DeviceId {
    #[verifier::type_invariant]
    spec fn inv(self) -> bool {
        is_valid_identifier_spec(self.0@)
    }

    /// Builds a device id; fails unless `value` passes the identifier rule.
    pub fn new(value: &str) -> (r: Result<DeviceId, CoreError>)
        ensures
            match identifier_check_spec(value@) {
                IdentifierCheck::Valid => r matches Ok(id) && id@ == value@,
                IdentifierCheck::Empty => r == Err::<DeviceId, CoreError>(
                    CoreError::EmptyIdentifier("device_id"),
                ),
                IdentifierCheck::BadCharacter => r matches Err(CoreError::InvalidIdentifier {
                    field: f,
                    value: v,
                }) && f == "device_id" && v@ == value@,
            },
    {
        match validate_identifier("device_id", value) {
            Ok(()) => Ok(DeviceId(owned(value))),
            Err(e) => Err(e),
        }
    }

    pub fn as_str(&self) -> (r: &str)
        ensures
            r@ == self@,
            is_valid_identifier_spec(r@),
    {
        proof {
            use_type_invariant(self);
        }
        self.0.as_str()
    }

    /// The identifier as an owned string.
    pub fn to_string(&self) -> (r: String)
        ensures
            r@ == self@,
            is_valid_identifier_spec(r@),
    {
        proof {
            use_type_invariant(self);
        }
        self.0.clone()
    }

    pub fn duplicate(&self) -> (r: DeviceId)
        ensures
            r@ == self@,
    {
        proof {
            use_type_invariant(self);
        }
        DeviceId(self.0.clone())
    }

    pub fn same_as(&self, other: &DeviceId) -> (r: bool)
        ensures
            r == (self@ == other@),
    {
        self.0 == other.0
    }
}

impl Clone for MemberId {
    fn clone(&self) -> (r: MemberId)
        ensures
            r@ == self@,
    {
        self.duplicate()
    }
}

impl Clone for DeviceId {
    fn clone(&self) -> (r: DeviceId)
        ensures
            r@ == self@,
    {
        self.duplicate()
    }
}

} // verus!

verus! {

/// The identifier rule of the device model, with the error text it prints.
pub open spec fn identifier_text_check_spec(field: Seq<char>, value: Seq<char>) -> Result<(), Seq<char>> {
    match identifier_check_spec(value) {
        IdentifierCheck::Valid => Ok(()),
        IdentifierCheck::Empty => Err(field + " cannot be empty"@),
        IdentifierCheck::BadCharacter => Err(
            field + " '"@ + value + "' must contain only ASCII letters, digits, '-' or '_'"@,
        ),
    }
}

/// The text each error of the device model prints.
pub open spec fn core_error_text_spec(e: CoreError) -> Seq<char> {
    match e {
        CoreError::EmptyIdentifier(field) => field@ + " cannot be empty"@,
        CoreError::InvalidIdentifier { field, value } => field@ + " '"@ + value@
            + "' must contain only ASCII letters, digits, '-' or '_'"@,
        CoreError::EmptyDisplayName => "display name cannot be empty"@,
        CoreError::DuplicateDevice(d) => "device '"@ + d@ + "' already exists"@,
        CoreError::ForeignDeviceOwner { expected_member_id, actual_member_id } =>
            "device owner mismatch: expected '"@ + expected_member_id@ + "', got '"@
            + actual_member_id@ + "'"@,
        CoreError::MissingDevice(d) => "device '"@ + d@ + "' not found"@,
        CoreError::SafetyNumberMismatch => "provided safety number did not match"@,
        CoreError::InvalidQrPayloadVersion(v) => "unsupported QR payload version "@ + decimal_spec(
            v as nat,
        ),
        CoreError::QrPayloadMismatch => "QR payload does not match this device"@,
        CoreError::Serialization(m) => "serialization error: "@ + m@,
    }
}

impl CoreError {
    /// The text of the error.
    pub fn message(&self) -> (r: String)
        ensures
            r@ == core_error_text_spec(*self),
    {
        let mut out = String::new();
        match self {
            CoreError::EmptyIdentifier(field) => {
                push_str(&mut out, field);
                push_str(&mut out, " cannot be empty");
            },
            CoreError::InvalidIdentifier { field, value } => {
                push_str(&mut out, field);
                push_str(&mut out, " '");
                push_str(&mut out, value.as_str());
                push_str(&mut out, "' must contain only ASCII letters, digits, '-' or '_'");
            },
            CoreError::EmptyDisplayName => push_str(&mut out, "display name cannot be empty"),
            CoreError::DuplicateDevice(d) => {
                push_str(&mut out, "device '");
                push_str(&mut out, d.as_str());
                push_str(&mut out, "' already exists");
            },
            CoreError::ForeignDeviceOwner { expected_member_id, actual_member_id } => {
                push_str(&mut out, "device owner mismatch: expected '");
                push_str(&mut out, expected_member_id.as_str());
                push_str(&mut out, "', got '");
                push_str(&mut out, actual_member_id.as_str());
                push_str(&mut out, "'");
            },
            CoreError::MissingDevice(d) => {
                push_str(&mut out, "device '");
                push_str(&mut out, d.as_str());
                push_str(&mut out, "' not found");
            },
            CoreError::SafetyNumberMismatch => push_str(&mut out, "provided safety number did not match"),
            CoreError::InvalidQrPayloadVersion(v) => {
                push_str(&mut out, "unsupported QR payload version ");
                push_decimal(&mut out, *v as u64);
            },
            CoreError::QrPayloadMismatch => push_str(&mut out, "QR payload does not match this device"),
            CoreError::Serialization(m) => {
                push_str(&mut out, "serialization error: ");
                push_str(&mut out, m.as_str());
            },
        }
        assert(out@ =~= core_error_text_spec(*self));
        out
    }
}

/// Checks an identifier and gives the text of the error it fails with.
pub fn check_identifier_text(field: &str, value: &str) -> (r: Result<(), String>)
    ensures
        match r {
            Ok(()) => identifier_text_check_spec(field@, value@) is Ok,
            Err(e) => identifier_text_check_spec(field@, value@) == Err::<(), Seq<char>>(e@),
        },
{
    if is_blank(value) {
        let mut e = owned(field);
        push_str(&mut e, " cannot be empty");
        return Err(e);
    }
    if all_identifier_chars(value) {
        Ok(())
    } else {
        let mut e = owned(field);
        push_str(&mut e, " '");
        push_str(&mut e, value);
        push_str(&mut e, "' must contain only ASCII letters, digits, '-' or '_'");
        assert(e@ =~= field@ + " '"@ + value@ + "' must contain only ASCII letters, digits, '-' or '_'"@);
        Err(e)
    }
}

} // verus!
