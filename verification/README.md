# localmessenger

A local-network messenger's core, written in Verus: end-to-end encryption
(X3DH, Double Ratchet, group sender keys), the secure-session handshake that
binds device identities to prekey bundles and pinned transport certificates,
reliable ordered delivery, device verification by safety number and QR code,
mDNS peer discovery records, the relay server's protocol, authentication,
rate limits and blob transfer, encrypted local storage records, and the
desktop client's chat state.

## Layout

- `src/` — the verified library. Every executable function carries a
  contract over spec functions and views, and Verus proves it.
  - `crypto/`, `messaging/` — key agreement, ratchet, delivery engine, groups,
    secure sessions.
  - `device.rs`, `member.rs`, `ids.rs` — identities and verification.
  - `server_protocol/`, `server/` — relay messages, invites, auth, rate
    limits, the per-connection session state machine.
  - `discovery/`, `storage/`, `client/`, `planning/` — the remaining layers.
  - `wire.rs` — the binary layout of framed values, with parse/serialize laws.
  - `outside.rs` — the trusted items (see below).
- `tests/` — tests run against the compiled library with the real
  cryptographic crates linked.
- `app/` — ordinary Rust around the library: the command-line demo, the
  relay's connection driver and the secure-session handshake driver, with
  JSON and bincode encoding of the library's types. Verus does not read it.

## What is proved

Besides each function's contract, public proof functions state laws that
span calls, among them: encoding round trips (group messages, sender-key
distributions, QR payloads, TXT records), replay rejection in pairwise and
group sessions, the group size limit, safety-number symmetry and digit
layout, the pending-queue restore round trip, the rate limiter's per-window
bound, blob upload and download reassembly, and acceptance of a correctly
signed authentication answer.

## What is trusted

`src/outside.rs` holds the only unverified code: wrappers that each make one
call into x25519-dalek, ed25519-dalek, aes-gcm, hkdf, sha2, hmac, base64,
rand_core or std, and uninterpreted spec functions naming their results.
Each wrapper's doc comment says what its contract claims of the call.
Randomness and the clock come with no claim on their values; the functions
that use them take the drawn value in a `*_with` variant with an exact
contract.
