//! Devices, their verification state, safety numbers and member profiles.

use vstd::prelude::*;
use vstd::utf8::encode_utf8;
use crate::bytes::{bytes_eq, extend_bytes};
use crate::contexts::{safety_number_context, safety_number_context_spec};
use crate::crypto::identity::{IdentityKeyPair, IdentityPublicKeys};
use crate::ids::{CoreError, DeviceId, MemberId};
use crate::outside::{ed25519_public, sha256, sha256_digest, x25519_public};
use crate::text::{digit_char, is_blank, is_blank_spec, owned, push_digit, push_str};
use crate::wire::{
    lemma_parse_array32, lemma_parse_text, lemma_parse_u8, parse_array32, parse_text, parse_u8, read_array32, read_text,
    read_u8, text_frame, write_text,
};

verus! {

#[derive(Debug, Clone, Copy, PartialEq, Eq)]
pub enum VerificationMethod {
    SafetyNumber,
    QrCode,
}

#[derive(Debug, Clone, Copy, PartialEq, Eq)]
pub enum VerificationStatus {
    Pending,
    Verified { method: VerificationMethod },
}

impl VerificationStatus {
    pub fn is_verified(&self) -> (r: bool)
        ensures
            r == (*self is Verified),
    {
        match self {
            VerificationStatus::Verified { .. } => true,
            VerificationStatus::Pending => false,
        }
    }
}

/// Lexicographic comparison of character sequences: negative, zero or positive.
pub open spec fn lex_order_chars(a: Seq<char>, b: Seq<char>) -> int
    decreases a.len(),
{
    if a.len() == 0 {
        if b.len() == 0 { 0 } else { -1 }
    } else if b.len() == 0 {
        1
    } else if a[0] < b[0] {
        -1
    } else if a[0] > b[0] {
        1
    } else {
        lex_order_chars(a.drop_first(), b.drop_first())
    }
}

/// Lexicographic comparison gives -1, 0 or 1, and swapping the arguments
/// negates it.
pub proof fn lemma_lex_antisymmetric(a: Seq<char>, b: Seq<char>)
    ensures
        -1 <= lex_order_chars(a, b) <= 1,
        lex_order_chars(a, b) == -lex_order_chars(b, a),
    decreases a.len(),
{
    if a.len() > 0 && b.len() > 0 && a[0] == b[0] {
        lemma_lex_antisymmetric(a.drop_first(), b.drop_first());
    }
}

/// Lexicographic order is transitive.
pub proof fn lemma_lex_transitive(a: Seq<char>, b: Seq<char>, c: Seq<char>)
    requires
        lex_order_chars(a, b) < 0,
        lex_order_chars(b, c) < 0,
    ensures
        lex_order_chars(a, c) < 0,
    decreases a.len(),
{
    if a.len() > 0 && b.len() > 0 && c.len() > 0 && a[0] == b[0] && b[0] == c[0] {
        lemma_lex_transitive(a.drop_first(), b.drop_first(), c.drop_first());
    }
}

/// Lexicographic comparison of byte sequences: negative, zero or positive.
pub open spec fn lex_order_bytes(a: Seq<u8>, b: Seq<u8>) -> int
    decreases a.len(),
{
    if a.len() == 0 {
        if b.len() == 0 { 0 } else { -1 }
    } else if b.len() == 0 {
        1
    } else if a[0] < b[0] {
        -1
    } else if a[0] > b[0] {
        1
    } else {
        lex_order_bytes(a.drop_first(), b.drop_first())
    }
}

pub fn compare_chars(a: &str, b: &str) -> (r: i8)
    ensures
        r as int == lex_order_chars(a@, b@),
{
    let n = a.unicode_len();
    let m = b.unicode_len();
    let mut i: usize = 0;
    assert(a@.subrange(0, n as int) =~= a@);
    assert(b@.subrange(0, m as int) =~= b@);
    while i < n && i < m
        invariant
            n == a@.len(),
            m == b@.len(),
            i <= n,
            i <= m,
            lex_order_chars(a@, b@) == lex_order_chars(a@.subrange(i as int, n as int), b@.subrange(i as int, m as int)),
        decreases n - i,
    {
        let x = a.get_char(i);
        let y = b.get_char(i);
        if x < y {
            return -1;
        }
        if x > y {
            return 1;
        }
        assert(a@.subrange(i as int, n as int).drop_first() =~= a@.subrange(i + 1, n as int));
        assert(b@.subrange(i as int, m as int).drop_first() =~= b@.subrange(i + 1, m as int));
        i = i + 1;
    }
    if i == n && i == m {
        0
    } else if i == n {
        -1
    } else {
        1
    }
}

pub fn compare_bytes(a: &[u8], b: &[u8]) -> (r: i8)
    ensures
        r as int == lex_order_bytes(a@, b@),
{
    let n = a.len();
    let m = b.len();
    let mut i: usize = 0;
    assert(a@.subrange(0, n as int) =~= a@);
    assert(b@.subrange(0, m as int) =~= b@);
    while i < n && i < m
        invariant
            n == a@.len(),
            m == b@.len(),
            i <= n,
            i <= m,
            lex_order_bytes(a@, b@) == lex_order_bytes(a@.subrange(i as int, n as int), b@.subrange(i as int, m as int)),
        decreases n - i,
    {
        if a[i] < b[i] {
            return -1;
        }
        if a[i] > b[i] {
            return 1;
        }
        assert(a@.subrange(i as int, n as int).drop_first() =~= a@.subrange(i + 1, n as int));
        assert(b@.subrange(i as int, m as int).drop_first() =~= b@.subrange(i + 1, m as int));
        i = i + 1;
    }
    if i == n && i == m {
        0
    } else if i == n {
        -1
    } else {
        1
    }
}

/// The abstract value of a device.
pub struct DeviceView {
    pub device_id: Seq<char>,
    pub owner_member_id: Seq<char>,
    pub device_name: Seq<char>,
    pub agreement_public_key: Seq<u8>,
    pub signing_public_key: Seq<u8>,
    pub verification_status: VerificationStatus,
}

/// A member's device, with its public identity keys and verification state.
#[derive(Debug)]
pub struct Device {
    device_id: DeviceId,
    owner_member_id: MemberId,
    device_name: String,
    identity_keys: IdentityPublicKeys,
    verification_status: VerificationStatus,
}

impl View for Device {
    type V = DeviceView;

    closed spec fn view(&self) -> DeviceView {
        DeviceView {
            device_id: self.device_id@,
            owner_member_id: self.owner_member_id@,
            device_name: self.device_name@,
            agreement_public_key: self.identity_keys.agreement_public_key@,
            signing_public_key: self.identity_keys.signing_public_key@,
            verification_status: self.verification_status,
        }
    }
}

/// The bytes that identify a device inside a safety number: member id, a zero
/// byte, device id, a zero byte, then both public keys.
pub open spec fn fingerprint_spec(d: DeviceView) -> Seq<u8> {
    encode_utf8(d.owner_member_id) + seq![0u8] + encode_utf8(d.device_id) + seq![0u8]
        + d.agreement_public_key + d.signing_public_key
}

/// The order in which two devices enter a safety number: by member id, then
/// device id, then agreement key, then signing key.
pub open spec fn device_key_le(a: DeviceView, b: DeviceView) -> bool {
    let c1 = lex_order_chars(a.owner_member_id, b.owner_member_id);
    let c2 = lex_order_chars(a.device_id, b.device_id);
    let c3 = lex_order_bytes(a.agreement_public_key, b.agreement_public_key);
    let c4 = lex_order_bytes(a.signing_public_key, b.signing_public_key);
    c1 < 0 || (c1 == 0 && (c2 < 0 || (c2 == 0 && (c3 < 0 || (c3 == 0 && c4 <= 0)))))
}

proof fn lemma_lex_bytes_antisymmetric(a: Seq<u8>, b: Seq<u8>)
    ensures
        -1 <= lex_order_bytes(a, b) <= 1,
        lex_order_bytes(a, b) == -lex_order_bytes(b, a),
        (lex_order_bytes(a, b) == 0) == (a == b),
    decreases a.len(),
{
    if a.len() == 0 || b.len() == 0 {
        if a.len() != b.len() {
            assert(a != b);
        } else {
            assert(a =~= b);
        }
    } else if a[0] != b[0] {
        assert(a != b);
    } else {
        lemma_lex_bytes_antisymmetric(a.drop_first(), b.drop_first());
        if a.drop_first() == b.drop_first() {
            assert(a =~= seq![a[0]] + a.drop_first());
            assert(b =~= seq![b[0]] + b.drop_first());
        } else {
            assert(a != b) by {
                if a == b {
                    assert(a.drop_first() =~= b.drop_first());
                }
            }
        }
    }
}

/// Either order of two devices gives the same safety number.
pub proof fn lemma_safety_digest_symmetric(a: DeviceView, b: DeviceView)
    ensures
        safety_digest_spec(a, b) == safety_digest_spec(b, a),
{
    lemma_lex_antisymmetric(a.owner_member_id, b.owner_member_id);
    lemma_lex_antisymmetric(a.device_id, b.device_id);
    lemma_lex_bytes_antisymmetric(a.agreement_public_key, b.agreement_public_key);
    lemma_lex_bytes_antisymmetric(a.signing_public_key, b.signing_public_key);
    crate::member::lemma_lex_order_zero_equal(a.owner_member_id, b.owner_member_id);
    crate::member::lemma_lex_order_zero_equal(a.device_id, b.device_id);
    if device_key_le(a, b) && device_key_le(b, a) {
        assert(fingerprint_spec(a) == fingerprint_spec(b));
    }
}

/// The safety-number digest of two devices, in canonical order.
pub open spec fn safety_digest_spec(first: DeviceView, second: DeviceView) -> Seq<u8> {
    let (left, right) = if device_key_le(first, second) { (first, second) } else { (second, first) };
    sha256(safety_number_context_spec() + fingerprint_spec(left) + fingerprint_spec(right))
}

impl Device {
    pub fn new(device_id: DeviceId, owner_member_id: MemberId, device_name: &str, identity_keys: IdentityPublicKeys) -> (r: Result<Device, CoreError>)
        ensures
            is_blank_spec(device_name@) ==> r == Err::<Device, CoreError>(CoreError::EmptyDisplayName),
            !is_blank_spec(device_name@) ==> (r matches Ok(d) && d@ == DeviceView {
                device_id: device_id@,
                owner_member_id: owner_member_id@,
                device_name: device_name@,
                agreement_public_key: identity_keys.agreement_public_key@,
                signing_public_key: identity_keys.signing_public_key@,
                verification_status: VerificationStatus::Pending,
            }),
    {
        if is_blank(device_name) {
            return Err(CoreError::EmptyDisplayName);
        }
        Ok(Device {
            device_id,
            owner_member_id,
            device_name: owned(device_name),
            identity_keys,
            verification_status: VerificationStatus::Pending,
        })
    }

    pub fn from_identity_keypair(device_id: DeviceId, owner_member_id: MemberId, device_name: &str, identity_keypair: &IdentityKeyPair) -> (r: Result<Device, CoreError>)
        requires
            identity_keypair.wf(),
        ensures
            is_blank_spec(device_name@) ==> r == Err::<Device, CoreError>(CoreError::EmptyDisplayName),
            !is_blank_spec(device_name@) ==> (r matches Ok(d) && d@ == DeviceView {
                device_id: device_id@,
                owner_member_id: owner_member_id@,
                device_name: device_name@,
                agreement_public_key: x25519_public(identity_keypair.agreement_secret_spec()),
                signing_public_key: ed25519_public(identity_keypair.signing_seed_spec()),
                verification_status: VerificationStatus::Pending,
            }),
    {
        Self::new(device_id, owner_member_id, device_name, identity_keypair.public_keys())
    }

    pub fn device_id(&self) -> (r: &DeviceId)
        ensures
            r@ == self@.device_id,
    {
        &self.device_id
    }

    pub fn owner_member_id(&self) -> (r: &MemberId)
        ensures
            r@ == self@.owner_member_id,
    {
        &self.owner_member_id
    }

    pub fn device_name(&self) -> (r: &str)
        ensures
            r@ == self@.device_name,
    {
        self.device_name.as_str()
    }

    pub fn identity_keys(&self) -> (r: &IdentityPublicKeys)
        ensures
            r.agreement_public_key@ == self@.agreement_public_key,
            r.signing_public_key@ == self@.signing_public_key,
    {
        &self.identity_keys
    }

    pub fn verification_status(&self) -> (r: &VerificationStatus)
        ensures
            *r == self@.verification_status,
    {
        &self.verification_status
    }

    pub fn is_verified(&self) -> (r: bool)
        ensures
            r == (self@.verification_status is Verified),
    {
        self.verification_status.is_verified()
    }

    /// A copy with the same abstract value.
    pub fn duplicate(&self) -> (r: Device)
        ensures
            r@ == self@,
    {
        Device {
            device_id: self.device_id.duplicate(),
            owner_member_id: self.owner_member_id.duplicate(),
            device_name: self.device_name.clone(),
            identity_keys: self.identity_keys.duplicate(),
            verification_status: self.verification_status,
        }
    }

    fn fingerprint(&self) -> (r: Vec<u8>)
        ensures
            r@ == fingerprint_spec(self@),
    {
        let mut out: Vec<u8> = Vec::new();
        extend_bytes(&mut out, self.owner_member_id.as_str().as_bytes());
        out.push(0u8);
        extend_bytes(&mut out, self.device_id.as_str().as_bytes());
        out.push(0u8);
        extend_bytes(&mut out, &self.identity_keys.agreement_public_key);
        extend_bytes(&mut out, &self.identity_keys.signing_public_key);
        assert(out@ =~= fingerprint_spec(self@));
        out
    }

    fn key_le(&self, other: &Device) -> (r: bool)
        ensures
            r == device_key_le(self@, other@),
    {
        let c1 = compare_chars(self.owner_member_id.as_str(), other.owner_member_id.as_str());
        if c1 != 0 {
            return c1 < 0;
        }
        let c2 = compare_chars(self.device_id.as_str(), other.device_id.as_str());
        if c2 != 0 {
            return c2 < 0;
        }
        let c3 = compare_bytes(&self.identity_keys.agreement_public_key, &other.identity_keys.agreement_public_key);
        if c3 != 0 {
            return c3 < 0;
        }
        let c4 = compare_bytes(&self.identity_keys.signing_public_key, &other.identity_keys.signing_public_key);
        c4 <= 0
    }

    pub fn safety_number_with(&self, other: &Device) -> (r: SafetyNumber)
        ensures
            r@ == safety_digest_spec(self@, other@),
    {
        SafetyNumber::between(self, other)
    }

    /// Marks the device verified when the presented safety number matches the
    /// one computed against the local reference device; otherwise nothing changes.
    pub fn verify_with_safety_number(&mut self, local_reference_device: &Device, presented_safety_number: &SafetyNumber) -> (r: Result<(), CoreError>)
        ensures
            (presented_safety_number@ == safety_digest_spec(old(self)@, local_reference_device@)) ==> r is Ok
                && final(self)@ == (DeviceView {
                verification_status: VerificationStatus::Verified { method: VerificationMethod::SafetyNumber },
                ..old(self)@
            }),
            (presented_safety_number@ != safety_digest_spec(old(self)@, local_reference_device@)) ==> r
                == Err::<(), CoreError>(CoreError::SafetyNumberMismatch) && final(self)@ == old(self)@,
    {
        let expected = SafetyNumber::between(self, local_reference_device);
        if !expected.matches(presented_safety_number) {
            return Err(CoreError::SafetyNumberMismatch);
        }
        self.verification_status = VerificationStatus::Verified { method: VerificationMethod::SafetyNumber };
        Ok(())
    }

    /// Marks the device verified when the QR payload names this device's member,
    /// device id and identity keys; otherwise nothing changes.
    pub fn verify_with_qr(&mut self, payload: &DeviceVerificationQr) -> (r: Result<(), CoreError>)
        ensures
            qr_matches_device(payload, old(self)@) ==> r is Ok && final(self)@ == (DeviceView {
                verification_status: VerificationStatus::Verified { method: VerificationMethod::QrCode },
                ..old(self)@
            }),
            !qr_matches_device(payload, old(self)@) ==> r == Err::<(), CoreError>(CoreError::QrPayloadMismatch)
                && final(self)@ == old(self)@,
    {
        if !(payload.member_id == self.owner_member_id.to_string() && payload.device_id == self.device_id.to_string()
            && payload.identity_keys.same_as(&self.identity_keys)) {
            return Err(CoreError::QrPayloadMismatch);
        }
        self.verification_status = VerificationStatus::Verified { method: VerificationMethod::QrCode };
        Ok(())
    }
}

/// A QR payload vouches for a device when member id, device id and both
/// public keys agree.
pub open spec fn qr_matches_device(payload: &DeviceVerificationQr, d: DeviceView) -> bool {
    &&& payload.member_id@ == d.owner_member_id
    &&& payload.device_id@ == d.device_id
    &&& payload.identity_keys.agreement_public_key@ == d.agreement_public_key
    &&& payload.identity_keys.signing_public_key@ == d.signing_public_key
}

/// A safety number: the digest both devices compute and compare.
#[derive(Debug, Clone, PartialEq, Eq)]
pub struct SafetyNumber {
    digest: [u8; 32],
}

impl View for SafetyNumber {
    type V = Seq<u8>;

    closed spec fn view(&self) -> Seq<u8> {
        self.digest@
    }
}

/// The numeric group `i` (0..10) of a safety number: three digest bytes read
/// as a big-endian integer, modulo 100000.
pub open spec fn safety_group(digest: Seq<u8>, i: int) -> int {
    (digest[3 * i] * 65536 + digest[3 * i + 1] * 256 + digest[3 * i + 2]) % 100000
}

/// Five zero-padded decimal digits of a group value.
pub open spec fn five_digits(v: int) -> Seq<char> {
    seq![
        digit_char(v / 10000),
        digit_char((v / 1000) % 10),
        digit_char((v / 100) % 10),
        digit_char((v / 10) % 10),
        digit_char(v % 10),
    ]
}

/// The first `k` groups, separated by single spaces.
pub open spec fn safety_digits_prefix(digest: Seq<u8>, k: nat) -> Seq<char>
    decreases k,
{
    if k == 0 {
        Seq::empty()
    } else if k == 1 {
        five_digits(safety_group(digest, 0))
    } else {
        safety_digits_prefix(digest, (k - 1) as nat) + seq![' '] + five_digits(safety_group(digest, k - 1))
    }
}

/// A character is an ASCII decimal digit.
pub open spec fn is_decimal_digit(c: char) -> bool {
    '0' <= c <= '9'
}

proof fn lemma_safety_digits_prefix_layout(digest: Seq<u8>, k: nat)
    requires
        1 <= k <= 10,
    ensures
        safety_digits_prefix(digest, k).len() == 6 * k - 1,
        forall|g: int, j: int| 0 <= g < k && 0 <= j < 5 ==> #[trigger] safety_digits_prefix(digest, k)[6 * g + j]
            == five_digits(safety_group(digest, g))[j] && is_decimal_digit(safety_digits_prefix(digest, k)[6 * g + j]),
        forall|g: int| 0 <= g < k - 1 ==> #[trigger] safety_digits_prefix(digest, k)[6 * g + 5] == ' ',
    decreases k,
{
    if k > 1 {
        lemma_safety_digits_prefix_layout(digest, (k - 1) as nat);
        let prev = safety_digits_prefix(digest, (k - 1) as nat);
        let t = safety_digits_prefix(digest, k);
        assert(t == prev + seq![' '] + five_digits(safety_group(digest, k - 1)));
        assert forall|g: int, j: int| 0 <= g < k && 0 <= j < 5 implies #[trigger] t[6 * g + j]
            == five_digits(safety_group(digest, g))[j] && is_decimal_digit(t[6 * g + j]) by {
            if g < k - 1 {
                assert(t[6 * g + j] == prev[6 * g + j]);
            } else {
                assert(t[6 * g + j] == five_digits(safety_group(digest, k - 1))[j]);
            }
        }
        assert forall|g: int| 0 <= g < k - 1 implies #[trigger] t[6 * g + 5] == ' ' by {
            if g < k - 2 {
                assert(t[6 * g + 5] == prev[6 * g + 5]);
            }
        }
    }
}

/// A safety number reads as ten groups of five decimal digits, group `g`
/// being the zero-padded value of digest bytes `3g .. 3g + 3`, with a single
/// space between groups: 59 characters in all.
pub proof fn lemma_safety_digits_layout(s: SafetyNumber)
    ensures
        safety_digits_prefix(s@, 10).len() == 59,
        forall|g: int, j: int| 0 <= g < 10 && 0 <= j < 5 ==> #[trigger] safety_digits_prefix(s@, 10)[6 * g + j]
            == five_digits(safety_group(s@, g))[j] && is_decimal_digit(safety_digits_prefix(s@, 10)[6 * g + j]),
        forall|g: int| 0 <= g < 9 ==> #[trigger] safety_digits_prefix(s@, 10)[6 * g + 5] == ' ',
{
    lemma_safety_digits_prefix_layout(s@, 10);
}

/// Two safety numbers that match read as the same digits.
pub proof fn lemma_matching_safety_numbers_same_digits(a: SafetyNumber, b: SafetyNumber)
    requires
        a@ == b@,
    ensures
        safety_digits_prefix(a@, 10) == safety_digits_prefix(b@, 10),
{
}

impl SafetyNumber {
    /// The safety number of two devices; the same for either order.
    pub fn between(first: &Device, second: &Device) -> (r: SafetyNumber)
        ensures
            r@ == safety_digest_spec(first@, second@),
    {
        let (left, right) = if first.key_le(second) { (first, second) } else { (second, first) };
        let mut input = safety_number_context();
        let fl = left.fingerprint();
        let fr = right.fingerprint();
        extend_bytes(&mut input, &fl);
        extend_bytes(&mut input, &fr);
        assert(input@ =~= safety_number_context_spec() + fingerprint_spec(left@) + fingerprint_spec(right@));
        SafetyNumber { digest: sha256_digest(&input) }
    }

    /// Ten groups of five digits, separated by spaces.
    pub fn digits(&self) -> (r: String)
        ensures
            r@ == safety_digits_prefix(self@, 10),
    {
        let mut out = String::new();
        let mut k: usize = 0;
        while k < 10
            invariant
                k <= 10,
                self.digest@.len() == 32,
                out@ == safety_digits_prefix(self.digest@, k as nat),
            decreases 10 - k,
        {
            if k > 0 {
                push_str(&mut out, " ");
                proof { reveal_strlit(" "); }
            }
            let b0 = self.digest[3 * k] as u32;
            let b1 = self.digest[3 * k + 1] as u32;
            let b2 = self.digest[3 * k + 2] as u32;
            let v = (b0 * 65536 + b1 * 256 + b2) % 100000;
            assert(v as int == safety_group(self.digest@, k as int));
            push_digit(&mut out, (v / 10000) as u8);
            push_digit(&mut out, ((v / 1000) % 10) as u8);
            push_digit(&mut out, ((v / 100) % 10) as u8);
            push_digit(&mut out, ((v / 10) % 10) as u8);
            push_digit(&mut out, (v % 10) as u8);
            k = k + 1;
            assert(out@ =~= safety_digits_prefix(self.digest@, k as nat));
        }
        out
    }

    pub fn matches(&self, other: &SafetyNumber) -> (r: bool)
        ensures
            r == (self@ == other@),
    {
        bytes_eq(&self.digest, &other.digest)
    }
}

/// What a device shows in its verification QR code.
#[derive(Debug)]
pub struct DeviceVerificationQr {
    pub version: u8,
    pub member_id: String,
    pub device_id: String,
    pub device_name: String,
    pub identity_keys: IdentityPublicKeys,
    pub safety_number: SafetyNumber,
}

impl DeviceVerificationQr {
    /// The payload of `device`, with the safety number against `paired_with`
    /// (or against itself when there is none).
    pub fn from_device(device: &Device, paired_with: Option<&Device>) -> (r: DeviceVerificationQr)
        ensures
            r.version == 1,
            r.member_id@ == device@.owner_member_id,
            r.device_id@ == device@.device_id,
            r.device_name@ == device@.device_name,
            r.identity_keys.agreement_public_key@ == device@.agreement_public_key,
            r.identity_keys.signing_public_key@ == device@.signing_public_key,
            r.safety_number@ == match paired_with {
                Some(peer) => safety_digest_spec(device@, peer@),
                None => safety_digest_spec(device@, device@),
            },
    {
        let safety_number = match paired_with {
            Some(peer) => SafetyNumber::between(device, peer),
            None => SafetyNumber::between(device, device),
        };
        DeviceVerificationQr {
            version: 1,
            member_id: device.owner_member_id().to_string(),
            device_id: device.device_id().to_string(),
            device_name: owned(device.device_name()),
            identity_keys: device.identity_keys().duplicate(),
            safety_number,
        }
    }
}

/// The fields of a QR payload.
pub struct QrView {
    pub version: u8,
    pub member_id: Seq<char>,
    pub device_id: Seq<char>,
    pub device_name: Seq<char>,
    pub agreement_public_key: Seq<u8>,
    pub signing_public_key: Seq<u8>,
    pub safety_number: Seq<u8>,
}

pub open spec fn qr_view(q: &DeviceVerificationQr) -> QrView {
    QrView {
        version: q.version,
        member_id: q.member_id@,
        device_id: q.device_id@,
        device_name: q.device_name@,
        agreement_public_key: q.identity_keys.agreement_public_key@,
        signing_public_key: q.identity_keys.signing_public_key@,
        safety_number: q.safety_number@,
    }
}

/// The bytes of a QR payload: its fields in order.
pub open spec fn qr_bytes(v: QrView) -> Seq<u8> {
    seq![v.version] + (text_frame(v.member_id) + (text_frame(v.device_id) + (text_frame(v.device_name) + (
    v.agreement_public_key + (v.signing_public_key + v.safety_number)))))
}

/// The QR payload a byte string starts with, if any.
pub open spec fn parse_qr(b: Seq<u8>) -> Option<QrView> {
    match parse_u8(b) {
        None => None,
        Some((version, b1)) => match parse_text(b1) {
            None => None,
            Some((member_id, b2)) => match parse_text(b2) {
                None => None,
                Some((device_id, b3)) => match parse_text(b3) {
                    None => None,
                    Some((device_name, b4)) => match parse_array32(b4) {
                        None => None,
                        Some((agreement, b5)) => match parse_array32(b5) {
                            None => None,
                            Some((signing, b6)) => match parse_array32(b6) {
                                None => None,
                                Some((safety, _)) => Some(
                                    QrView {
                                        version,
                                        member_id,
                                        device_id,
                                        device_name,
                                        agreement_public_key: agreement,
                                        signing_public_key: signing,
                                        safety_number: safety,
                                    },
                                ),
                            },
                        },
                    },
                },
            },
        },
    }
}

/// A QR payload whose strings fit a length and whose keys are 32 bytes.
pub open spec fn qr_wf(v: QrView) -> bool {
    &&& encode_utf8(v.member_id).len() <= u64::MAX
    &&& encode_utf8(v.device_id).len() <= u64::MAX
    &&& encode_utf8(v.device_name).len() <= u64::MAX
    &&& v.agreement_public_key.len() == 32
    &&& v.signing_public_key.len() == 32
    &&& v.safety_number.len() == 32
}

/// Decoding the bytes of a QR payload gives the payload back.
pub proof fn lemma_qr_round_trip(v: QrView)
    requires
        qr_wf(v),
    ensures
        parse_qr(qr_bytes(v)) == Some(v),
{
    let f6 = v.signing_public_key + v.safety_number;
    let f5 = v.agreement_public_key + f6;
    let f4 = text_frame(v.device_name) + f5;
    let f3 = text_frame(v.device_id) + f4;
    let f2 = text_frame(v.member_id) + f3;
    lemma_parse_u8(v.version, f2);
    lemma_parse_text(v.member_id, f3);
    lemma_parse_text(v.device_id, f4);
    lemma_parse_text(v.device_name, f5);
    lemma_parse_array32(v.agreement_public_key, f6);
    lemma_parse_array32(v.signing_public_key, v.safety_number);
    assert(v.safety_number + Seq::<u8>::empty() =~= v.safety_number);
    lemma_parse_array32(v.safety_number, Seq::<u8>::empty());
}

/// The QR payload of a device, with the safety number against the paired
/// device (or against itself when there is none).
pub open spec fn device_qr_view(d: DeviceView, paired_with: Option<DeviceView>) -> QrView {
    QrView {
        version: 1,
        member_id: d.owner_member_id,
        device_id: d.device_id,
        device_name: d.device_name,
        agreement_public_key: d.agreement_public_key,
        signing_public_key: d.signing_public_key,
        safety_number: match paired_with {
            Some(peer) => safety_digest_spec(d, peer),
            None => safety_digest_spec(d, d),
        },
    }
}

/// A decoded QR payload vouches for a device when member id, device id and
/// both public keys agree.
pub open spec fn qr_view_matches(v: QrView, d: DeviceView) -> bool {
    &&& v.member_id == d.owner_member_id
    &&& v.device_id == d.device_id
    &&& v.agreement_public_key == d.agreement_public_key
    &&& v.signing_public_key == d.signing_public_key
}

/// What checking a device against QR payload bytes gives: a serialization
/// error, a refused version, a mismatch, or the device verified by QR code.
pub open spec fn qr_check_spec(b: Seq<u8>, d: DeviceView) -> Result<DeviceView, QrRefusal> {
    match parse_qr(b) {
        None => Err(QrRefusal::Malformed),
        Some(v) => if v.version != 1 {
            Err(QrRefusal::Version(v.version))
        } else if !qr_view_matches(v, d) {
            Err(QrRefusal::Mismatch)
        } else {
            Ok(DeviceView { verification_status: VerificationStatus::Verified { method: VerificationMethod::QrCode }, ..d })
        },
    }
}

/// Why QR payload bytes do not verify a device.
pub enum QrRefusal {
    Malformed,
    Version(u8),
    Mismatch,
}

/// The error by which a QR refusal is reported.
pub open spec fn qr_refused_as(e: CoreError, q: QrRefusal) -> bool {
    match q {
        QrRefusal::Malformed => e matches CoreError::Serialization(_),
        QrRefusal::Version(v) => e == CoreError::InvalidQrPayloadVersion(v),
        QrRefusal::Mismatch => e == CoreError::QrPayloadMismatch,
    }
}

impl DeviceVerificationQr {
    /// The bytes of the payload.
    pub fn encode(&self) -> (r: Result<Vec<u8>, CoreError>)
        ensures
            r matches Ok(b) && b@ == qr_bytes(qr_view(self)),
            qr_wf(qr_view(self)),
    {
        let mut out: Vec<u8> = Vec::new();
        out.push(self.version);
        write_text(&mut out, self.member_id.as_str());
        write_text(&mut out, self.device_id.as_str());
        write_text(&mut out, self.device_name.as_str());
        extend_bytes(&mut out, &self.identity_keys.agreement_public_key);
        extend_bytes(&mut out, &self.identity_keys.signing_public_key);
        extend_bytes(&mut out, &self.safety_number.digest);
        assert(out@ =~= qr_bytes(qr_view(self)));
        Ok(out)
    }

    /// The payload a byte string starts with; bytes after it are ignored.
    /// Malformed bytes are a serialization error and another version is refused.
    pub fn decode(bytes: &[u8]) -> (r: Result<DeviceVerificationQr, CoreError>)
        ensures
            match parse_qr(bytes@) {
                None => r matches Err(CoreError::Serialization(_)),
                Some(v) => if v.version != 1 {
                    r == Err::<DeviceVerificationQr, CoreError>(CoreError::InvalidQrPayloadVersion(v.version))
                } else {
                    r matches Ok(q) && qr_view(&q) == v
                },
            },
    {
        assert(bytes@.skip(0) =~= bytes@);
        let parsed = match read_u8(bytes, 0) {
            None => None,
            Some((version, p)) => match read_text(bytes, p) {
                None => None,
                Some((member_id, p)) => match read_text(bytes, p) {
                    None => None,
                    Some((device_id, p)) => match read_text(bytes, p) {
                        None => None,
                        Some((device_name, p)) => match read_array32(bytes, p) {
                            None => None,
                            Some((agreement_public_key, p)) => match read_array32(bytes, p) {
                                None => None,
                                Some((signing_public_key, p)) => match read_array32(bytes, p) {
                                    None => None,
                                    Some((digest, _)) => Some(
                                        DeviceVerificationQr {
                                            version,
                                            member_id,
                                            device_id,
                                            device_name,
                                            identity_keys: IdentityPublicKeys { agreement_public_key, signing_public_key },
                                            safety_number: SafetyNumber { digest },
                                        },
                                    ),
                                },
                            },
                        },
                    },
                },
            },
        };
        match parsed {
            None => Err(CoreError::Serialization(owned("malformed QR payload"))),
            Some(q) => if q.version != 1 {
                Err(CoreError::InvalidQrPayloadVersion(q.version))
            } else {
                Ok(q)
            },
        }
    }
}

impl Device {
    /// The bytes of this device's verification QR code.
    pub fn qr_payload(&self, paired_with: Option<&Device>) -> (r: Result<Vec<u8>, CoreError>)
        ensures
            r matches Ok(b) && b@ == qr_bytes(device_qr_view(self@, match paired_with {
                Some(peer) => Some(peer@),
                None => None,
            })),
            r matches Ok(b) && parse_qr(b@) matches Some(v) && v.version == 1 && qr_view_matches(v, self@)
                && v.device_name == self@.device_name && v.safety_number == match paired_with {
                Some(peer) => safety_digest_spec(self@, peer@),
                None => safety_digest_spec(self@, self@),
            },
    {
        let q = DeviceVerificationQr::from_device(self, paired_with);
        let r = q.encode();
        proof {
            lemma_qr_round_trip(qr_view(&q));
            assert(qr_view(&q) == device_qr_view(self@, match paired_with {
                Some(peer) => Some(peer@),
                None => None,
            }));
        }
        r
    }

    /// Decodes QR payload bytes and verifies the device by them.
    pub fn verify_with_qr_payload(&mut self, payload_bytes: &[u8]) -> (r: Result<(), CoreError>)
        ensures
            match qr_check_spec(payload_bytes@, old(self)@) {
                Ok(d) => r is Ok && final(self)@ == d,
                Err(q) => r matches Err(e) && qr_refused_as(e, q) && final(self)@ == old(self)@,
            },
    {
        let payload = match DeviceVerificationQr::decode(payload_bytes) {
            Ok(p) => p,
            Err(e) => return Err(e),
        };
        self.verify_with_qr(&payload)
    }
}

} // verus!
