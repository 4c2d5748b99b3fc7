//! Invite links: HMAC-signed tokens that carry the claims of an invite.
//!
//! A token is `<payload>.<tag>`, where `<payload>` is the URL-safe Base64 of
//! the serialized claims and `<tag>` the URL-safe Base64 of the HMAC-SHA256 of
//! the `<payload>` text under the relay's secret.

use vstd::prelude::*;
use vstd::utf8::encode_utf8;
use crate::outside::{
    base64_url_decode, base64_url_decode_error, base64_url_decode_text, base64_url_encode,
    base64_url_encode_bytes, hmac_sha256, hmac_sha256_tag, hmac_sha256_verify, is_base64_url_char,
};
use crate::server_protocol::messages::{
    bytes_result_view, claims_check_spec, text_result_view, InviteClaims,
};
use crate::text::{
    first_index_of, lemma_first_index_at, lemma_first_index_of, owned, push_str, starts_with,
    starts_with_spec,
};

verus! {

/// What every invite link starts with.
pub const INVITE_LINK_PREFIX: &'static str = "localmessenger://join?token=";

/// The token for a serialized payload under a secret.
pub open spec fn invite_token_spec(secret: Seq<u8>, payload: Seq<u8>) -> Seq<char> {
    let segment = base64_url_encode(payload);
    segment + "."@ + base64_url_encode(hmac_sha256(secret, encode_utf8(segment)))
}

/// What checking a token under a secret gives: the serialized payload, or the
/// error text.
pub open spec fn verify_token_spec(secret: Seq<u8>, token: Seq<char>) -> Result<Seq<u8>, Seq<char>> {
    match first_index_of(token, '.') {
        None => Err("invite token must contain payload and signature"@),
        Some(p) => {
            let payload = token.subrange(0, p);
            let signature = token.subrange(p + 1, token.len() as int);
            match base64_url_decode(signature) {
                None => Err(base64_url_decode_error(signature)),
                Some(tag) => if tag != hmac_sha256(secret, encode_utf8(payload)) {
                    Err("invite signature verification failed"@)
                } else {
                    match base64_url_decode(payload) {
                        None => Err(base64_url_decode_error(payload)),
                        Some(bytes) => Ok(bytes),
                    }
                },
            }
        },
    }
}

/// The link of a token.
pub open spec fn invite_link_spec(token: Seq<char>) -> Seq<char> {
    INVITE_LINK_PREFIX@ + token
}

/// The token of a link, or the error text.
pub open spec fn parse_link_spec(link: Seq<char>) -> Result<Seq<char>, Seq<char>> {
    if starts_with_spec(link, INVITE_LINK_PREFIX@) {
        Ok(link.subrange(INVITE_LINK_PREFIX@.len() as int, link.len() as int))
    } else {
        Err("invite link must start with localmessenger://join?token="@)
    }
}

pub open spec fn verify_link_spec(secret: Seq<u8>, link: Seq<char>) -> Result<Seq<u8>, Seq<char>> {
    match parse_link_spec(link) {
        Err(e) => Err(e),
        Ok(token) => verify_token_spec(secret, token),
    }
}

/// Signs the serialized claims: refuses claims that fail `InviteClaims::validate`,
/// and checking the token under the same secret gives the payload back.
pub fn sign_invite_payload(secret: &[u8], claims: &InviteClaims, claims_json: &[u8]) -> (r: Result<String, String>)
    ensures
        claims_check_spec(*claims) matches Err(e) ==> text_result_view(r) == Err::<Seq<char>, Seq<char>>(e),
        claims_check_spec(*claims) is Ok ==> text_result_view(r) == Ok::<Seq<char>, Seq<char>>(
            invite_token_spec(secret@, claims_json@),
        ),
        r matches Ok(t) ==> verify_token_spec(secret@, t@) == Ok::<Seq<u8>, Seq<char>>(claims_json@),
{
    match claims.validate() {
        Err(e) => return Err(e),
        Ok(()) => {},
    }
    let payload_segment = base64_url_encode_bytes(claims_json);
    let tag = hmac_sha256_tag(secret, payload_segment.as_str().as_bytes());
    let signature_segment = base64_url_encode_bytes(&tag);
    let mut token = String::new();
    push_str(&mut token, payload_segment.as_str());
    push_str(&mut token, ".");
    push_str(&mut token, signature_segment.as_str());
    proof {
        reveal_strlit(".");
        let seg = payload_segment@;
        let p = seg.len() as int;
        assert(token@ =~= invite_token_spec(secret@, claims_json@));
        assert(token@[p] == '.');
        assert forall|j: int| 0 <= j < p implies #[trigger] token@[j] != '.' by {
            assert(token@[j] == seg[j]);
            assert(is_base64_url_char(seg[j]));
        }
        lemma_first_index_at(token@, '.', p);
        assert(token@.subrange(0, p) =~= seg);
        assert(token@.subrange(p + 1, token@.len() as int) =~= signature_segment@);
    }
    Ok(token)
}

/// Checks a token under the secret and gives back the serialized payload.
pub fn verify_invite_token_payload(secret: &[u8], token: &str) -> (r: Result<Vec<u8>, String>)
    ensures
        bytes_result_view(r) == verify_token_spec(secret@, token@),
{
    proof {
        lemma_first_index_of(token@, '.');
    }
    let n = token.unicode_len();
    let mut p: usize = 0;
    while p < n && token.get_char(p) != '.'
        invariant
            n == token@.len(),
            p <= n,
            forall|j: int| 0 <= j < p ==> #[trigger] token@[j] != '.',
        decreases n - p,
    {
        p = p + 1;
    }
    if p == n {
        return Err(owned("invite token must contain payload and signature"));
    }
    proof {
        lemma_first_index_at(token@, '.', p as int);
    }
    let payload_segment = token.substring_char(0, p);
    let signature_segment = token.substring_char(p + 1, n);
    let signature = match base64_url_decode_text(signature_segment) {
        Err(e) => return Err(e),
        Ok(s) => s,
    };
    if !hmac_sha256_verify(secret, payload_segment.as_bytes(), signature.as_slice()) {
        return Err(owned("invite signature verification failed"));
    }
    base64_url_decode_text(payload_segment)
}

/// The token of an invite link, after its prefix.
pub fn parse_invite_link(link: &str) -> (r: Result<&str, String>)
    ensures
        match r {
            Ok(t) => parse_link_spec(link@) == Ok::<Seq<char>, Seq<char>>(t@),
            Err(e) => parse_link_spec(link@) == Err::<Seq<char>, Seq<char>>(e@),
        },
{
    if starts_with(link, INVITE_LINK_PREFIX) {
        let m = INVITE_LINK_PREFIX.unicode_len();
        let n = link.unicode_len();
        Ok(link.substring_char(m, n))
    } else {
        Err(owned("invite link must start with localmessenger://join?token="))
    }
}

/// Builds the invite link for the serialized claims; checking the link under
/// the same secret gives the payload back.
pub fn encode_invite_payload_link(secret: &[u8], claims: &InviteClaims, claims_json: &[u8]) -> (r: Result<String, String>)
    ensures
        claims_check_spec(*claims) matches Err(e) ==> text_result_view(r) == Err::<Seq<char>, Seq<char>>(e),
        claims_check_spec(*claims) is Ok ==> text_result_view(r) == Ok::<Seq<char>, Seq<char>>(
            invite_link_spec(invite_token_spec(secret@, claims_json@)),
        ),
        r matches Ok(link) ==> verify_link_spec(secret@, link@) == Ok::<Seq<u8>, Seq<char>>(claims_json@),
{
    let token = match sign_invite_payload(secret, claims, claims_json) {
        Err(e) => return Err(e),
        Ok(t) => t,
    };
    let mut link = owned(INVITE_LINK_PREFIX);
    push_str(&mut link, token.as_str());
    proof {
        let m = INVITE_LINK_PREFIX@.len() as int;
        assert(link@.subrange(0, m) =~= INVITE_LINK_PREFIX@);
        assert(link@.subrange(m, link@.len() as int) =~= token@);
    }
    Ok(link)
}

/// Checks an invite link under the secret and gives back the serialized payload.
pub fn verify_invite_link_payload(secret: &[u8], link: &str) -> (r: Result<Vec<u8>, String>)
    ensures
        bytes_result_view(r) == verify_link_spec(secret@, link@),
{
    match parse_invite_link(link) {
        Err(e) => Err(e),
        Ok(token) => verify_invite_token_payload(secret, token),
    }
}

/// The claims read from a verified payload, accepted as a signed invite's
/// claims must be: unchanged when every check passes, else the message of the
/// first check that fails.
pub fn checked_invite_claims(claims: InviteClaims) -> (r: Result<InviteClaims, String>)
    ensures
        match claims_check_spec(claims) {
            Ok(()) => r == Ok::<InviteClaims, String>(claims),
            Err(e) => r matches Err(m) && m@ == e,
        },
{
    match claims.validate() {
        Ok(()) => Ok(claims),
        Err(e) => Err(e),
    }
}

/// What reading claims out of a verified payload and checking them gives.
pub open spec fn parsed_claims_spec(parsed: Result<InviteClaims, String>) -> Result<InviteClaims, Seq<char>> {
    match parsed {
        Err(e) => Err(e@),
        Ok(c) => match claims_check_spec(c) {
            Ok(()) => Ok(c),
            Err(e) => Err(e),
        },
    }
}

pub open spec fn claims_result_view(r: Result<InviteClaims, String>) -> Result<InviteClaims, Seq<char>> {
    match r {
        Ok(c) => Ok(c),
        Err(e) => Err(e@),
    }
}

/// Checks a token under the secret and reads its claims: the signature, then
/// the payload, then `parse_claims` on the payload bytes, then the claims'
/// own checks; the first failure is the error.
pub fn verify_invite_token<F: Fn(Vec<u8>) -> Result<InviteClaims, String>>(secret: &[u8], token: &str, parse_claims: F) -> (r: Result<
    InviteClaims,
    String,
>)
    requires
        forall|v: Vec<u8>| parse_claims.requires((v,)),
    ensures
        verify_token_spec(secret@, token@) matches Err(e) ==> claims_result_view(r) == Err::<InviteClaims, Seq<char>>(e),
        verify_token_spec(secret@, token@) matches Ok(p) ==> exists|v: Vec<u8>, parsed: Result<InviteClaims, String>|
            #![trigger parse_claims.ensures((v,), parsed)]
            v@ == p && parse_claims.ensures((v,), parsed) && claims_result_view(r) == parsed_claims_spec(parsed),
{
    let payload = match verify_invite_token_payload(secret, token) {
        Err(e) => return Err(e),
        Ok(p) => p,
    };
    let ghost v = payload;
    let parsed = parse_claims(payload);
    let ghost parsed_copy = parsed;
    let r = match parsed {
        Err(e) => Err(e),
        Ok(c) => checked_invite_claims(c),
    };
    assert(v@ == verify_token_spec(secret@, token@)->Ok_0);
    assert(claims_result_view(r) == parsed_claims_spec(parsed_copy));
    r
}

/// Checks an invite link under the secret and reads its claims, as
/// `verify_invite_token` does for the token after the link's prefix.
pub fn verify_invite_link<F: Fn(Vec<u8>) -> Result<InviteClaims, String>>(secret: &[u8], link: &str, parse_claims: F) -> (r: Result<
    InviteClaims,
    String,
>)
    requires
        forall|v: Vec<u8>| parse_claims.requires((v,)),
    ensures
        verify_link_spec(secret@, link@) matches Err(e) ==> claims_result_view(r) == Err::<InviteClaims, Seq<char>>(e),
        verify_link_spec(secret@, link@) matches Ok(p) ==> exists|v: Vec<u8>, parsed: Result<InviteClaims, String>|
            #![trigger parse_claims.ensures((v,), parsed)]
            v@ == p && parse_claims.ensures((v,), parsed) && claims_result_view(r) == parsed_claims_spec(parsed),
{
    match parse_invite_link(link) {
        Err(e) => Err(e),
        Ok(token) => verify_invite_token(secret, token, parse_claims),
    }
}

/// Signs claims: refuses claims that fail `InviteClaims::validate`, then
/// serializes them with `serialize_claims` and signs what that gives;
/// checking the token under the same secret gives those bytes back.
pub fn sign_invite_token<F: Fn(&InviteClaims) -> Result<Vec<u8>, String>>(secret: &[u8], claims: &InviteClaims, serialize_claims: F) -> (r: Result<
    String,
    String,
>)
    requires
        serialize_claims.requires((claims,)),
    ensures
        claims_check_spec(*claims) matches Err(e) ==> text_result_view(r) == Err::<Seq<char>, Seq<char>>(e),
        claims_check_spec(*claims) is Ok ==> exists|json: Result<Vec<u8>, String>| #![trigger serialize_claims.ensures((claims,), json)]
            serialize_claims.ensures((claims,), json) && match json {
                Err(e) => text_result_view(r) == Err::<Seq<char>, Seq<char>>(e@),
                Ok(bytes) => text_result_view(r) == Ok::<Seq<char>, Seq<char>>(invite_token_spec(secret@, bytes@))
                    && verify_token_spec(secret@, invite_token_spec(secret@, bytes@)) == Ok::<Seq<u8>, Seq<char>>(bytes@),
            },
{
    match claims.validate() {
        Err(e) => return Err(e),
        Ok(()) => {},
    }
    let json = serialize_claims(claims);
    let ghost json_copy = json;
    match json {
        Err(e) => Err(e),
        Ok(bytes) => {
            let r = sign_invite_payload(secret, claims, bytes.as_slice());
            assert(json_copy matches Ok(b) && b@ == bytes@);
            r
        },
    }
}

/// The invite link of claims, serialized with `serialize_claims` and signed
/// as `sign_invite_token` does; checking the link under the same secret gives
/// the serialized claims back.
pub fn encode_invite_link<F: Fn(&InviteClaims) -> Result<Vec<u8>, String>>(secret: &[u8], claims: &InviteClaims, serialize_claims: F) -> (r: Result<
    String,
    String,
>)
    requires
        serialize_claims.requires((claims,)),
    ensures
        claims_check_spec(*claims) matches Err(e) ==> text_result_view(r) == Err::<Seq<char>, Seq<char>>(e),
        claims_check_spec(*claims) is Ok ==> exists|json: Result<Vec<u8>, String>| #![trigger serialize_claims.ensures((claims,), json)]
            serialize_claims.ensures((claims,), json) && match json {
                Err(e) => text_result_view(r) == Err::<Seq<char>, Seq<char>>(e@),
                Ok(bytes) => text_result_view(r) == Ok::<Seq<char>, Seq<char>>(invite_link_spec(invite_token_spec(secret@, bytes@)))
                    && verify_link_spec(secret@, invite_link_spec(invite_token_spec(secret@, bytes@))) == Ok::<Seq<u8>, Seq<char>>(bytes@),
            },
{
    match claims.validate() {
        Err(e) => return Err(e),
        Ok(()) => {},
    }
    let json = serialize_claims(claims);
    let ghost json_copy = json;
    match json {
        Err(e) => Err(e),
        Ok(bytes) => {
            let r = encode_invite_payload_link(secret, claims, bytes.as_slice());
            assert(json_copy matches Ok(b) && b@ == bytes@);
            r
        },
    }
}

} // verus!
