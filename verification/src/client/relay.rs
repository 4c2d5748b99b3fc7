//! Route selection and the client's view of the relay server.

use vstd::prelude::*;
use crate::outside::{base64_url_decode, base64_url_decode_error};
use crate::server_protocol::invites::{parse_invite_link, parse_link_spec};
use crate::server_protocol::messages::{
    bytes_result_view, decode_invite_certificate, PeerUnavailableReason, InviteClaims,
    SERVER_PROTOCOL_VERSION,
};
use crate::discovery::txt::{split_commas, split_on_commas};
use crate::text::{first_index_of, lemma_first_index_at, lemma_first_index_of, owned, str_eq, trim, trim_spec};
use crate::outside::base64_url_decode_text;

verus! {

/// How a message reaches a peer.
#[derive(Debug, Clone, Copy, PartialEq, Eq, Structural)]
pub enum TransportRoute {
    ServerRelay,
    DirectLan,
}

pub open spec fn transport_route_label_spec(r: TransportRoute) -> Seq<char> {
    match r {
        TransportRoute::ServerRelay => "server_relay"@,
        TransportRoute::DirectLan => "direct_lan"@,
    }
}

impl TransportRoute {
    pub fn label(self) -> (r: &'static str)
        ensures
            r@ == transport_route_label_spec(self),
    {
        match self {
            TransportRoute::ServerRelay => "server_relay",
            TransportRoute::DirectLan => "direct_lan",
        }
    }
}

/// The state of the client's connection to the relay.
#[derive(Debug, Clone, Copy, PartialEq, Eq, Structural)]
pub enum RelayServerStatus {
    Disabled,
    Connected,
    Failed,
}

impl RelayServerStatus {
    pub fn label(self) -> (r: &'static str)
        ensures
            r@ == match self {
                RelayServerStatus::Disabled => "disabled"@,
                RelayServerStatus::Connected => "connected"@,
                RelayServerStatus::Failed => "failed"@,
            },
    {
        match self {
            RelayServerStatus::Disabled => "disabled",
            RelayServerStatus::Connected => "connected",
            RelayServerStatus::Failed => "failed",
        }
    }
}

/// The state of the client's authentication at the relay.
#[derive(Debug, Clone, Copy, PartialEq, Eq, Structural)]
pub enum RelayAuthStatus {
    Disabled,
    Authenticated,
    Failed,
}

impl RelayAuthStatus {
    pub fn label(self) -> (r: &'static str)
        ensures
            r@ == match self {
                RelayAuthStatus::Disabled => "disabled"@,
                RelayAuthStatus::Authenticated => "authenticated"@,
                RelayAuthStatus::Failed => "failed"@,
            },
    {
        match self {
            RelayAuthStatus::Disabled => "disabled",
            RelayAuthStatus::Authenticated => "authenticated",
            RelayAuthStatus::Failed => "failed",
        }
    }
}

/// The route in use: the first preference that can be taken, where the relay
/// can be taken only when ready and direct LAN always; direct LAN when no
/// preference can be taken.
pub open spec fn active_route_spec(preferred: Seq<TransportRoute>, relay_ready: bool) -> TransportRoute
    decreases preferred.len(),
{
    if preferred.len() == 0 {
        TransportRoute::DirectLan
    } else if preferred[0] == TransportRoute::DirectLan {
        TransportRoute::DirectLan
    } else if relay_ready {
        TransportRoute::ServerRelay
    } else {
        active_route_spec(preferred.drop_first(), relay_ready)
    }
}

pub fn resolve_active_route(preferred_routes: &[TransportRoute], relay_ready: bool) -> (r: TransportRoute)
    ensures
        r == active_route_spec(preferred_routes@, relay_ready),
        r == TransportRoute::ServerRelay ==> relay_ready,
{
    let mut i: usize = 0;
    assert(preferred_routes@.skip(0) =~= preferred_routes@);
    while i < preferred_routes.len()
        invariant
            i <= preferred_routes@.len(),
            active_route_spec(preferred_routes@, relay_ready) == active_route_spec(
                preferred_routes@.skip(i as int),
                relay_ready,
            ),
        decreases preferred_routes@.len() - i,
    {
        proof {
            assert(preferred_routes@.skip(i as int)[0] == preferred_routes@[i as int]);
            assert(preferred_routes@.skip(i as int).drop_first() =~= preferred_routes@.skip(i + 1));
        }
        match preferred_routes[i] {
            TransportRoute::ServerRelay => {
                if relay_ready {
                    return TransportRoute::ServerRelay;
                }
            },
            TransportRoute::DirectLan => {
                return TransportRoute::DirectLan;
            },
        }
        i = i + 1;
    }
    proof {
        assert(preferred_routes@.skip(i as int) =~= Seq::<TransportRoute>::empty());
    }
    TransportRoute::DirectLan
}

pub open spec fn peer_unavailable_label_spec(reason: PeerUnavailableReason) -> Seq<char> {
    match reason {
        PeerUnavailableReason::Offline => "offline"@,
        PeerUnavailableReason::UnknownRecipient => "unknown_recipient"@,
        PeerUnavailableReason::Disabled => "disabled"@,
        PeerUnavailableReason::Unauthorized => "unauthorized"@,
        PeerUnavailableReason::RateLimited => "rate_limited"@,
    }
}

/// Why the relay could not pass a frame on, as shown to the user.
pub fn peer_unavailable_reason_label(reason: PeerUnavailableReason) -> (r: &'static str)
    ensures
        r@ == peer_unavailable_label_spec(reason),
{
    match reason {
        PeerUnavailableReason::Offline => "offline",
        PeerUnavailableReason::UnknownRecipient => "unknown_recipient",
        PeerUnavailableReason::Disabled => "disabled",
        PeerUnavailableReason::Unauthorized => "unauthorized",
        PeerUnavailableReason::RateLimited => "rate_limited",
    }
}

/// The serialized claims of an invite link, read without checking its
/// signature (the client cannot: only the relay holds the secret).
pub open spec fn unsigned_payload_spec(link: Seq<char>) -> Result<Seq<u8>, Seq<char>> {
    match parse_link_spec(link) {
        Err(e) => Err(e),
        Ok(token) => match first_index_of(token, '.') {
            None => Err("invite token must contain payload and signature"@),
            Some(p) => match base64_url_decode(token.subrange(0, p)) {
                None => Err(base64_url_decode_error(token.subrange(0, p))),
                Some(bytes) => Ok(bytes),
            },
        },
    }
}

pub fn unsigned_invite_payload(invite_link: &str) -> (r: Result<Vec<u8>, String>)
    ensures
        bytes_result_view(r) == unsigned_payload_spec(invite_link@),
{
    let token = match parse_invite_link(invite_link) {
        Err(e) => return Err(e),
        Ok(t) => t,
    };
    proof {
        lemma_first_index_of(token@, '.');
    }
    let n = token.unicode_len();
    let mut p: usize = 0;
    while p < n && token.get_char(p) != '.'
        invariant
            n == token@.len(),
            p <= n,
            forall|j: int| 0 <= j < p ==> #[trigger] token@[j] != '.',
        decreases n - p,
    {
        p = p + 1;
    }
    if p == n {
        return Err(owned("invite token must contain payload and signature"));
    }
    proof {
        lemma_first_index_at(token@, '.', p as int);
    }
    base64_url_decode_text(token.substring_char(0, p))
}

/// The relay certificate carried by a join acceptance, decoded from URL-safe Base64.
pub fn decode_join_accepted_certificate(encoded: &str) -> (r: Result<Vec<u8>, String>)
    ensures
        bytes_result_view(r) == match base64_url_decode(encoded@) {
            Some(b) => Ok::<Seq<u8>, Seq<char>>(b),
            None => Err(base64_url_decode_error(encoded@)),
        },
{
    let claims = InviteClaims {
        version: SERVER_PROTOCOL_VERSION,
        invite_id: owned("joined"),
        label: owned("joined"),
        server_addr: owned("0.0.0.0:0"),
        server_name: owned("relay.local"),
        server_certificate_der_base64: owned(encoded),
        issued_at_unix_ms: 0,
        expires_at_unix_ms: 1,
        max_uses: 1,
    };
    decode_invite_certificate(&claims)
}

/// The route a piece of a transport order names, after trimming.
pub open spec fn route_of_piece(p: Seq<char>) -> Option<TransportRoute> {
    if trim_spec(p) == "server_relay"@ {
        Some(TransportRoute::ServerRelay)
    } else if trim_spec(p) == "direct_lan"@ {
        Some(TransportRoute::DirectLan)
    } else {
        None
    }
}

/// The routes the pieces name, in order; other pieces are skipped.
pub open spec fn routes_of(pieces: Seq<Seq<char>>) -> Seq<TransportRoute>
    decreases pieces.len(),
{
    if pieces.len() == 0 {
        Seq::empty()
    } else {
        match route_of_piece(pieces.last()) {
            Some(r) => routes_of(pieces.drop_last()).push(r),
            None => routes_of(pieces.drop_last()),
        }
    }
}

/// The preferred routes of a comma-separated order; the direct LAN route is
/// always among them, last when the order does not name it.
pub open spec fn transport_order_spec(raw: Seq<char>) -> Seq<TransportRoute> {
    let r = routes_of(split_commas(raw));
    if r.contains(TransportRoute::DirectLan) {
        r
    } else {
        r.push(TransportRoute::DirectLan)
    }
}

pub fn parse_transport_order(raw: &str) -> (r: Vec<TransportRoute>)
    ensures
        r@ == transport_order_spec(raw@),
{
    let pieces = split_on_commas(raw);
    let ghost sp = split_commas(raw@);
    let mut routes: Vec<TransportRoute> = Vec::new();
    let mut i: usize = 0;
    assert(sp.take(0) =~= Seq::<Seq<char>>::empty());
    while i < pieces.len()
        invariant
            i <= pieces@.len(),
            pieces@.len() == sp.len(),
            forall|k: int| 0 <= k < pieces@.len() ==> (#[trigger] pieces@[k])@ == sp[k],
            routes@ == routes_of(sp.take(i as int)),
        decreases pieces@.len() - i,
    {
        let t = trim(pieces[i].as_str());
        assert(sp.take(i + 1).drop_last() =~= sp.take(i as int));
        assert(sp.take(i + 1).last() == pieces@[i as int]@);
        if str_eq(t.as_str(), "server_relay") {
            routes.push(TransportRoute::ServerRelay);
        } else if str_eq(t.as_str(), "direct_lan") {
            routes.push(TransportRoute::DirectLan);
        }
        i = i + 1;
    }
    assert(sp.take(i as int) =~= sp);
    let mut has_direct = false;
    let mut k: usize = 0;
    while k < routes.len()
        invariant
            k <= routes@.len(),
            has_direct == (exists|j: int| 0 <= j < k && routes@[j] == TransportRoute::DirectLan),
        decreases routes@.len() - k,
    {
        if routes[k] == TransportRoute::DirectLan {
            has_direct = true;
        }
        k = k + 1;
    }
    if !has_direct {
        routes.push(TransportRoute::DirectLan);
    }
    routes
}

} // verus!
