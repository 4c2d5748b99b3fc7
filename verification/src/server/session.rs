//! One authenticated device's session with the relay: what each envelope it
//! sends asks of the relay, and the state of its blob uploads.
//!
//! The caller reads an envelope, hands it to `RelaySession::step` with the
//! device's rate limiter and the time, and performs the action it gets back:
//! it sends a reply, routes a peer frame, stores or looks up a blob, or ends
//! the session. What comes back from routing, storing and looking up is turned
//! into replies here too.

use vstd::prelude::*;
use crate::bytes::extend_bytes;
use crate::wire::copy_range;
use crate::maps::OrderMap;
use crate::server::invites::StoredBlobRecord;
use crate::server::rate_limit::{limiter_allow_spec, DeviceUsage, ProfileView, RateLimitBucket, RateLimiter};
use crate::server_protocol::messages::{
    upload_check_spec, AuthHello, AuthResponse, BlobDownloadRequest, BlobChunkAck, BlobDownloadChunk, BlobDownloadReady,
    BlobRejected, BlobStored, BlobUploadChunk, BlobUploadFinish, BlobUploadReady, BlobUploadStart,
    ClientEnvelope, Disconnect, Health, JoinWithInvite, MediaKind, PeerRelayFrame, PeerUnavailable,
    PeerUnavailableReason, ServerEnvelope, StoredBlob, MAX_BLOB_CHUNK_BYTES, MAX_RELAY_BLOB_BYTES,
    SERVER_PROTOCOL_VERSION,
};
use crate::text::{copy_string, decimal_spec, owned, push_decimal, push_str, str_eq};

verus! {

/// An upload the relay has accepted and is receiving chunks for.
#[derive(Debug)]
pub struct PendingBlobUpload {
    pub blob_id: String,
    pub file_name: String,
    pub mime_type: String,
    pub media_kind: MediaKind,
    pub plaintext_bytes: u64,
    pub ciphertext_bytes: u64,
    pub sha256_hex: String,
    pub buffer: Vec<u8>,
}

/// The fields of a pending upload, its strings and bytes as sequences.
pub struct UploadView {
    pub blob_id: Seq<char>,
    pub file_name: Seq<char>,
    pub mime_type: Seq<char>,
    pub media_kind: MediaKind,
    pub plaintext_bytes: u64,
    pub ciphertext_bytes: u64,
    pub sha256_hex: Seq<char>,
    pub buffer: Seq<u8>,
}

impl View for PendingBlobUpload {
    type V = UploadView;

    open spec fn view(&self) -> UploadView {
        UploadView {
            blob_id: self.blob_id@,
            file_name: self.file_name@,
            mime_type: self.mime_type@,
            media_kind: self.media_kind,
            plaintext_bytes: self.plaintext_bytes,
            ciphertext_bytes: self.ciphertext_bytes,
            sha256_hex: self.sha256_hex@,
            buffer: self.buffer@,
        }
    }
}

/// The id the relay gives the blob of a device's upload request.
pub open spec fn blob_id_spec(device: Seq<char>, request_id: u64) -> Seq<char> {
    "blob-"@ + device + "-"@ + decimal_spec(request_id as nat)
}

/// A fresh upload for an accepted start request, with nothing received yet.
pub open spec fn fresh_upload(blob_id: Seq<char>, start: BlobUploadStart) -> UploadView {
    UploadView {
        blob_id,
        file_name: start.file_name@,
        mime_type: start.mime_type@,
        media_kind: start.media_kind,
        plaintext_bytes: start.plaintext_bytes,
        ciphertext_bytes: start.ciphertext_bytes,
        sha256_hex: start.sha256_hex@,
        buffer: Seq::empty(),
    }
}

/// What holds of every pending upload: it was negotiated within the relay's
/// limit, has received no more than it announced, and carries the id the
/// relay gave it.
pub open spec fn upload_wf(device: Seq<char>, request_id: u64, u: UploadView) -> bool {
    &&& 0 < u.ciphertext_bytes <= MAX_RELAY_BLOB_BYTES
    &&& u.buffer.len() <= u.ciphertext_bytes
    &&& u.blob_id == blob_id_spec(device, request_id)
}

/// The reply is a refusal of the request with this reason.
pub open spec fn rejected(r: ServerEnvelope, request_id: u64, reason: Seq<char>) -> bool {
    r matches ServerEnvelope::BlobRejected(b) && b.request_id == request_id && b.reason@ == reason
}

/// What starting an upload does: one blob request is counted; if the limit
/// refuses it, or the request does not validate, the upload is refused and
/// no upload changes. Otherwise the upload is recorded under its request id,
/// replacing one of the same id, and the device is told the blob id and the
/// largest chunk it may send.
pub open spec fn start_upload_post(
    device: Seq<char>,
    ups: Map<u64, UploadView>,
    usage: Map<Seq<char>, DeviceUsage>,
    profile: ProfileView,
    start: BlobUploadStart,
    now: i64,
    ups2: Map<u64, UploadView>,
    usage2: Map<Seq<char>, DeviceUsage>,
    r: ServerEnvelope,
) -> bool {
    let (counted, allowed) = limiter_allow_spec(usage, profile, device, RateLimitBucket::BlobRequest, 1, now);
    &&& usage2 == counted
    &&& !allowed ==> rejected(r, start.request_id, "rate limit exceeded for blob requests"@) && ups2 == ups
    &&& (allowed && upload_check_spec(start) is Err) ==> ups2 == ups && (upload_check_spec(start) matches Err(
        reason,
    ) && rejected(r, start.request_id, reason))
    &&& (allowed && upload_check_spec(start) is Ok) ==> {
        &&& ups2 == ups.insert(start.request_id, fresh_upload(blob_id_spec(device, start.request_id), start))
        &&& r matches ServerEnvelope::BlobUploadReady(ready)
        &&& ready.request_id == start.request_id
        &&& ready.blob_id@ == blob_id_spec(device, start.request_id)
        &&& ready.max_chunk_bytes == MAX_BLOB_CHUNK_BYTES
    }
}

/// What a chunk of an upload does. It is refused, in this order, when no
/// upload has its request id, when its blob id is not the upload's, when it
/// is larger than `MAX_BLOB_CHUNK_BYTES`, when the bandwidth limit refuses
/// its bytes (which are counted whatever follows), when it does not start
/// where the received bytes end, and when it would take the upload past what
/// was negotiated or past `MAX_RELAY_BLOB_BYTES`. A refused chunk changes no
/// upload. An accepted one is appended, and the device is told how many
/// bytes the relay now holds.
pub open spec fn chunk_post(
    device: Seq<char>,
    ups: Map<u64, UploadView>,
    usage: Map<Seq<char>, DeviceUsage>,
    profile: ProfileView,
    chunk: BlobUploadChunk,
    now: i64,
    ups2: Map<u64, UploadView>,
    usage2: Map<Seq<char>, DeviceUsage>,
    r: ServerEnvelope,
) -> bool {
    let id = chunk.request_id;
    let checked = ups.contains_key(id) && ups[id].blob_id == chunk.blob_id@ && chunk.bytes@.len()
        <= MAX_BLOB_CHUNK_BYTES;
    let (counted, allowed) = limiter_allow_spec(
        usage,
        profile,
        device,
        RateLimitBucket::BlobChunkBytes,
        chunk.bytes@.len() as u64,
        now,
    );
    let fits = chunk.offset == ups[id].buffer.len() && ups[id].buffer.len() + chunk.bytes@.len()
        <= MAX_RELAY_BLOB_BYTES && ups[id].buffer.len() + chunk.bytes@.len() <= ups[id].ciphertext_bytes;
    &&& !ups.contains_key(id) ==> rejected(r, id, "unknown blob upload request"@)
    &&& (ups.contains_key(id) && ups[id].blob_id != chunk.blob_id@) ==> rejected(
        r,
        id,
        "blob id does not match pending upload"@,
    )
    &&& (ups.contains_key(id) && ups[id].blob_id == chunk.blob_id@ && chunk.bytes@.len()
        > MAX_BLOB_CHUNK_BYTES) ==> rejected(r, id, "chunk exceeds maximum size of 65536 bytes"@)
    &&& !checked ==> usage2 == usage
    &&& checked ==> usage2 == counted
    &&& (checked && !allowed) ==> rejected(r, id, "rate limit exceeded for relay blob bandwidth"@)
    &&& (checked && allowed && chunk.offset != ups[id].buffer.len()) ==> rejected(
        r,
        id,
        "chunk offset is out of order"@,
    )
    &&& (checked && allowed && chunk.offset == ups[id].buffer.len() && !fits) ==> rejected(
        r,
        id,
        "blob upload exceeds negotiated size"@,
    )
    &&& if checked && allowed && fits {
        &&& ups2 == ups.insert(id, UploadView { buffer: ups[id].buffer + chunk.bytes@, ..ups[id] })
        &&& r matches ServerEnvelope::BlobChunkAck(ack)
        &&& ack.request_id == id
        &&& ack.blob_id@ == ups[id].blob_id
        &&& ack.received_bytes == ups[id].buffer.len() + chunk.bytes@.len()
    } else {
        ups2 == ups
    }
}

/// What the caller is to do after the session has looked at an envelope.
#[derive(Debug)]
pub enum SessionAction {
    /// Send this envelope to the device.
    Reply(ServerEnvelope),
    /// Pass the frame to the relay's routing and tell the device how it went.
    RoutePeerFrame(PeerRelayFrame),
    /// Send the device the relay's health, with the number of devices online.
    ReportHealth,
    /// Store the blob and its ciphertext, then send `stored_reply`.
    StoreBlob { request_id: u64, blob: StoredBlob, ciphertext: Vec<u8> },
    /// Look the blob up, then send `download_replies`.
    LookupBlob { request_id: u64, blob_id: String },
    /// End the session, after sending the envelope if there is one.
    Close(Option<ServerEnvelope>),
    /// End the session with this error.
    Fail(String),
}

/// The reply is a refusal of the request with this reason.
pub open spec fn rejected_action(r: SessionAction, request_id: u64, reason: Seq<char>) -> bool {
    r matches SessionAction::Reply(e) && rejected(e, request_id, reason)
}

/// The blob the relay stores for a completed upload of `device` at `now`.
pub open spec fn stored_from(b: StoredBlob, u: UploadView, device: Seq<char>, now: i64) -> bool {
    &&& b.blob_id@ == u.blob_id
    &&& b.uploaded_by_device_id@ == device
    &&& b.file_name@ == u.file_name
    &&& b.mime_type@ == u.mime_type
    &&& b.media_kind == u.media_kind
    &&& b.plaintext_bytes == u.plaintext_bytes
    &&& b.ciphertext_bytes == u.ciphertext_bytes
    &&& b.sha256_hex@ == u.sha256_hex
    &&& b.created_at_unix_ms == now
}

/// What finishing an upload does. The upload leaves the pending ones in any
/// case. It is refused when there is none of that request id, when the blob
/// id is not the upload's, and when the bytes received, the bytes the finish
/// announces and the bytes negotiated are not all the same. Otherwise the
/// blob is to be stored with all it received.
pub open spec fn finish_post(
    device: Seq<char>,
    ups: Map<u64, UploadView>,
    finish: BlobUploadFinish,
    now: i64,
    ups2: Map<u64, UploadView>,
    r: SessionAction,
) -> bool {
    let id = finish.request_id;
    let complete = ups[id].buffer.len() == finish.ciphertext_bytes && finish.ciphertext_bytes
        == ups[id].ciphertext_bytes;
    &&& ups2 == ups.remove(id)
    &&& !ups.contains_key(id) ==> rejected_action(r, id, "unknown blob upload request"@)
    &&& (ups.contains_key(id) && ups[id].blob_id != finish.blob_id@) ==> rejected_action(
        r,
        id,
        "blob id does not match pending upload"@,
    )
    &&& (ups.contains_key(id) && ups[id].blob_id == finish.blob_id@ && !complete) ==> rejected_action(
        r,
        id,
        "blob upload is incomplete"@,
    )
    &&& (ups.contains_key(id) && ups[id].blob_id == finish.blob_id@ && complete) ==> {
        &&& r matches SessionAction::StoreBlob { request_id, blob, ciphertext }
        &&& request_id == id
        &&& stored_from(blob, ups[id], device, now)
        &&& ciphertext@ == ups[id].buffer
    }
}

/// What a peer frame does: one peer frame is counted; a frame the limit
/// refuses is answered as unavailable, rate limited; any other is routed.
pub open spec fn peer_frame_post(
    device: Seq<char>,
    usage: Map<Seq<char>, DeviceUsage>,
    profile: ProfileView,
    frame: PeerRelayFrame,
    now: i64,
    usage2: Map<Seq<char>, DeviceUsage>,
    r: SessionAction,
) -> bool {
    let (counted, allowed) = limiter_allow_spec(usage, profile, device, RateLimitBucket::PeerFrame, 1, now);
    &&& usage2 == counted
    &&& !allowed ==> (r matches SessionAction::Reply(ServerEnvelope::PeerUnavailable(u)) && u.request_id
        == frame.request_id && u.recipient_device_id@ == frame.recipient_device_id@ && u.reason
        == PeerUnavailableReason::RateLimited)
    &&& allowed ==> r == SessionAction::RoutePeerFrame(frame)
}

/// What a health check does: one is counted; one the limit refuses ends the
/// session with a notice, any other is answered with the relay's health.
pub open spec fn health_post(
    device: Seq<char>,
    usage: Map<Seq<char>, DeviceUsage>,
    profile: ProfileView,
    now: i64,
    usage2: Map<Seq<char>, DeviceUsage>,
    r: SessionAction,
) -> bool {
    let (counted, allowed) = limiter_allow_spec(usage, profile, device, RateLimitBucket::HealthCheck, 1, now);
    &&& usage2 == counted
    &&& !allowed ==> (r matches SessionAction::Close(Some(ServerEnvelope::Disconnect(d))) && d.reason@
        == "rate limit exceeded for health checks"@)
    &&& allowed ==> r == SessionAction::ReportHealth
}

/// What a download request does: one blob request is counted; a request the
/// limit refuses is refused, any other is looked up.
pub open spec fn download_post(
    device: Seq<char>,
    usage: Map<Seq<char>, DeviceUsage>,
    profile: ProfileView,
    request: BlobDownloadRequest,
    now: i64,
    usage2: Map<Seq<char>, DeviceUsage>,
    r: SessionAction,
) -> bool {
    let (counted, allowed) = limiter_allow_spec(usage, profile, device, RateLimitBucket::BlobRequest, 1, now);
    &&& usage2 == counted
    &&& !allowed ==> rejected_action(r, request.request_id, "rate limit exceeded for blob requests"@)
    &&& allowed ==> (r matches SessionAction::LookupBlob { request_id, blob_id } && request_id
        == request.request_id && blob_id@ == request.blob_id@)
}

/// How many chunks of at most `MAX_BLOB_CHUNK_BYTES` a blob of `n` bytes is
/// sent in.
pub open spec fn chunk_count(n: nat) -> nat {
    ((n + 65535) / 65536) as nat
}

/// The `k`-th chunk of a download of `ciphertext`.
pub open spec fn download_chunk_at(e: ServerEnvelope, request_id: u64, blob_id: Seq<char>, ciphertext: Seq<u8>, k: int) -> bool {
    let start = k * 65536;
    let end = if start + 65536 <= ciphertext.len() { start + 65536 } else { ciphertext.len() as int };
    &&& e matches ServerEnvelope::BlobDownloadChunk(c)
    &&& c.request_id == request_id
    &&& c.blob_id@ == blob_id
    &&& c.offset == start
    &&& c.bytes@ == ciphertext.subrange(start, end)
    &&& c.is_last == (end >= ciphertext.len())
}

/// The relay's side of one device's session.
pub struct RelaySession {
    device_id: String,
    uploads: OrderMap<PendingBlobUpload>,
}

impl RelaySession {
    /// The authenticated device.
    pub closed spec fn device(&self) -> Seq<char> {
        self.device_id@
    }

    /// The pending uploads by request id.
    pub closed spec fn uploads(&self) -> Map<u64, UploadView> {
        self.uploads.map()
    }

    pub closed spec fn wf(&self) -> bool {
        &&& self.uploads.wf()
        &&& forall|id: u64| #[trigger] self.uploads().contains_key(id) ==> upload_wf(self.device(), id, self.uploads()[id])
    }

    /// A session of a device that has just authenticated, with no upload.
    pub fn new(device_id: &str) -> (r: RelaySession)
        ensures
            r.wf(),
            r.device() == device_id@,
            r.uploads() == Map::<u64, UploadView>::empty(),
    {
        let r = RelaySession { device_id: owned(device_id), uploads: OrderMap::new() };
        r
    }

    /// The id of the blob of one of this device's upload requests.
    pub fn blob_id(&self, request_id: u64) -> (r: String)
        ensures
            r@ == blob_id_spec(self.device(), request_id),
    {
        let mut out = String::new();
        push_str(&mut out, "blob-");
        push_str(&mut out, self.device_id.as_str());
        push_str(&mut out, "-");
        push_decimal(&mut out, request_id);
        out
    }

    /// A device starts an upload (see `start_upload_post`).
    pub fn start_upload(&mut self, limiter: &mut RateLimiter, start: BlobUploadStart, now_unix_ms: i64) -> (r: ServerEnvelope)
        requires
            old(self).wf(),
            old(limiter).wf(),
        ensures
            final(self).wf(),
            final(self).device() == old(self).device(),
            final(limiter).wf(),
            final(limiter).profile_spec() == old(limiter).profile_spec(),
            start_upload_post(
                old(self).device(),
                old(self).uploads(),
                old(limiter).usage_spec(),
                old(limiter).profile_spec(),
                start,
                now_unix_ms,
                final(self).uploads(),
                final(limiter).usage_spec(),
                r,
            ),
    {
        if !limiter.allow(self.device_id.as_str(), RateLimitBucket::BlobRequest, 1, now_unix_ms) {
            return ServerEnvelope::BlobRejected(BlobRejected {
                request_id: start.request_id,
                reason: owned("rate limit exceeded for blob requests"),
            });
        }
        match start.validate() {
            Err(reason) => {
                return ServerEnvelope::BlobRejected(BlobRejected { request_id: start.request_id, reason });
            },
            Ok(()) => {},
        }
        let request_id = start.request_id;
        let blob_id = self.blob_id(request_id);
        let reply_id = copy_string(&blob_id);
        let upload = PendingBlobUpload {
            blob_id,
            file_name: start.file_name,
            mime_type: start.mime_type,
            media_kind: start.media_kind,
            plaintext_bytes: start.plaintext_bytes,
            ciphertext_bytes: start.ciphertext_bytes,
            sha256_hex: start.sha256_hex,
            buffer: Vec::new(),
        };
        let ghost before = self.uploads();
        self.uploads.insert(request_id, upload);
        proof {
            assert forall|id: u64| #[trigger] self.uploads().contains_key(id) implies upload_wf(
                self.device(),
                id,
                self.uploads()[id],
            ) by {
                if id != request_id {
                    assert(before.contains_key(id));
                }
            }
        }
        ServerEnvelope::BlobUploadReady(BlobUploadReady {
            request_id,
            blob_id: reply_id,
            max_chunk_bytes: 65536,
        })
    }
    /// A chunk of a pending upload (see `chunk_post`).
    pub fn upload_chunk(&mut self, limiter: &mut RateLimiter, chunk: BlobUploadChunk, now_unix_ms: i64) -> (r: ServerEnvelope)
        requires
            old(self).wf(),
            old(limiter).wf(),
        ensures
            final(self).wf(),
            final(self).device() == old(self).device(),
            final(limiter).wf(),
            final(limiter).profile_spec() == old(limiter).profile_spec(),
            chunk_post(
                old(self).device(),
                old(self).uploads(),
                old(limiter).usage_spec(),
                old(limiter).profile_spec(),
                chunk,
                now_unix_ms,
                final(self).uploads(),
                final(limiter).usage_spec(),
                r,
            ),
    {
        let id = chunk.request_id;
        let ghost ups = self.uploads();
        let (accepted, buffered) = match self.uploads.get(id) {
            None => {
                return ServerEnvelope::BlobRejected(BlobRejected {
                    request_id: id,
                    reason: owned("unknown blob upload request"),
                });
            },
            Some(upload) => {
                if !str_eq(upload.blob_id.as_str(), chunk.blob_id.as_str()) {
                    return ServerEnvelope::BlobRejected(BlobRejected {
                        request_id: id,
                        reason: owned("blob id does not match pending upload"),
                    });
                }
                if chunk.bytes.len() > MAX_BLOB_CHUNK_BYTES {
                    return ServerEnvelope::BlobRejected(BlobRejected {
                        request_id: id,
                        reason: owned("chunk exceeds maximum size of 65536 bytes"),
                    });
                }
                (upload.ciphertext_bytes, upload.buffer.len())
            },
        };
        proof {
            assert(upload_wf(self.device(), id, ups[id]));
        }
        let amount: u64 = chunk.bytes.len() as u64;
        if !limiter.allow(self.device_id.as_str(), RateLimitBucket::BlobChunkBytes, amount, now_unix_ms) {
            return ServerEnvelope::BlobRejected(BlobRejected {
                request_id: id,
                reason: owned("rate limit exceeded for relay blob bandwidth"),
            });
        }
        if chunk.offset != buffered as u64 {
            return ServerEnvelope::BlobRejected(BlobRejected {
                request_id: id,
                reason: owned("chunk offset is out of order"),
            });
        }
        let next_size: u64 = buffered as u64 + amount;
        if next_size > MAX_RELAY_BLOB_BYTES || next_size > accepted {
            return ServerEnvelope::BlobRejected(BlobRejected {
                request_id: id,
                reason: owned("blob upload exceeds negotiated size"),
            });
        }
        let mut upload = match self.uploads.remove(id) {
            Some(u) => u,
            None => {
                proof {
                    assert(false);
                }
                return ServerEnvelope::BlobRejected(BlobRejected {
                    request_id: id,
                    reason: owned("unknown blob upload request"),
                });
            },
        };
        extend_bytes(&mut upload.buffer, chunk.bytes.as_slice());
        let received: u64 = upload.buffer.len() as u64;
        let blob_id = copy_string(&upload.blob_id);
        let ghost mid = self.uploads();
        self.uploads.insert(id, upload);
        proof {
            assert forall|k: u64| #[trigger] self.uploads().contains_key(k) implies upload_wf(
                self.device(),
                k,
                self.uploads()[k],
            ) by {
                if k != id {
                    assert(ups.contains_key(k));
                }
            }
            assert(self.uploads() =~= ups.insert(id, UploadView { buffer: ups[id].buffer + chunk.bytes@, ..ups[id] }));
        }
        ServerEnvelope::BlobChunkAck(BlobChunkAck { request_id: id, blob_id, received_bytes: received })
    }

    /// Finishes an upload (see `finish_post`).
    pub fn finish_upload(&mut self, finish: BlobUploadFinish, now_unix_ms: i64) -> (r: SessionAction)
        requires
            old(self).wf(),
        ensures
            final(self).wf(),
            final(self).device() == old(self).device(),
            finish_post(old(self).device(), old(self).uploads(), finish, now_unix_ms, final(self).uploads(), r),
    {
        let id = finish.request_id;
        let ghost ups = self.uploads();
        let removed = self.uploads.remove(id);
        proof {
            assert forall|k: u64| #[trigger] self.uploads().contains_key(k) implies upload_wf(
                self.device(),
                k,
                self.uploads()[k],
            ) by {
                assert(ups.contains_key(k));
            }
        }
        let upload = match removed {
            None => {
                return SessionAction::Reply(ServerEnvelope::BlobRejected(BlobRejected {
                    request_id: id,
                    reason: owned("unknown blob upload request"),
                }));
            },
            Some(u) => u,
        };
        if !str_eq(upload.blob_id.as_str(), finish.blob_id.as_str()) {
            return SessionAction::Reply(ServerEnvelope::BlobRejected(BlobRejected {
                request_id: id,
                reason: owned("blob id does not match pending upload"),
            }));
        }
        if upload.buffer.len() as u64 != finish.ciphertext_bytes || finish.ciphertext_bytes != upload.ciphertext_bytes {
            return SessionAction::Reply(ServerEnvelope::BlobRejected(BlobRejected {
                request_id: id,
                reason: owned("blob upload is incomplete"),
            }));
        }
        let blob = StoredBlob {
            blob_id: upload.blob_id,
            uploaded_by_device_id: copy_string(&self.device_id),
            file_name: upload.file_name,
            mime_type: upload.mime_type,
            media_kind: upload.media_kind,
            plaintext_bytes: upload.plaintext_bytes,
            ciphertext_bytes: upload.ciphertext_bytes,
            sha256_hex: upload.sha256_hex,
            created_at_unix_ms: now_unix_ms,
        };
        SessionAction::StoreBlob { request_id: id, blob, ciphertext: upload.buffer }
    }

    /// A peer frame (see `peer_frame_post`).
    pub fn peer_frame(&self, limiter: &mut RateLimiter, frame: PeerRelayFrame, now_unix_ms: i64) -> (r: SessionAction)
        requires
            old(limiter).wf(),
        ensures
            final(limiter).wf(),
            final(limiter).profile_spec() == old(limiter).profile_spec(),
            peer_frame_post(
                self.device(),
                old(limiter).usage_spec(),
                old(limiter).profile_spec(),
                frame,
                now_unix_ms,
                final(limiter).usage_spec(),
                r,
            ),
    {
        if !limiter.allow(self.device_id.as_str(), RateLimitBucket::PeerFrame, 1, now_unix_ms) {
            return SessionAction::Reply(ServerEnvelope::PeerUnavailable(PeerUnavailable {
                request_id: frame.request_id,
                recipient_device_id: frame.recipient_device_id,
                reason: PeerUnavailableReason::RateLimited,
            }));
        }
        SessionAction::RoutePeerFrame(frame)
    }

    /// A health check (see `health_post`).
    pub fn health_check(&self, limiter: &mut RateLimiter, now_unix_ms: i64) -> (r: SessionAction)
        requires
            old(limiter).wf(),
        ensures
            final(limiter).wf(),
            final(limiter).profile_spec() == old(limiter).profile_spec(),
            health_post(
                self.device(),
                old(limiter).usage_spec(),
                old(limiter).profile_spec(),
                now_unix_ms,
                final(limiter).usage_spec(),
                r,
            ),
    {
        if !limiter.allow(self.device_id.as_str(), RateLimitBucket::HealthCheck, 1, now_unix_ms) {
            return SessionAction::Close(Some(ServerEnvelope::Disconnect(Disconnect {
                reason: owned("rate limit exceeded for health checks"),
            })));
        }
        SessionAction::ReportHealth
    }

    /// A download request (see `download_post`).
    pub fn download_request(&self, limiter: &mut RateLimiter, request: BlobDownloadRequest, now_unix_ms: i64) -> (r: SessionAction)
        requires
            old(limiter).wf(),
        ensures
            final(limiter).wf(),
            final(limiter).profile_spec() == old(limiter).profile_spec(),
            download_post(
                self.device(),
                old(limiter).usage_spec(),
                old(limiter).profile_spec(),
                request,
                now_unix_ms,
                final(limiter).usage_spec(),
                r,
            ),
    {
        if !limiter.allow(self.device_id.as_str(), RateLimitBucket::BlobRequest, 1, now_unix_ms) {
            return SessionAction::Reply(ServerEnvelope::BlobRejected(BlobRejected {
                request_id: request.request_id,
                reason: owned("rate limit exceeded for blob requests"),
            }));
        }
        SessionAction::LookupBlob { request_id: request.request_id, blob_id: request.blob_id }
    }

    /// What the session does with an envelope the device sent after it
    /// authenticated. A disconnect ends it; an authentication envelope is an
    /// error; every other envelope goes to the operation of its kind, and
    /// changes nothing that operation does not.
    pub fn step(&mut self, limiter: &mut RateLimiter, envelope: ClientEnvelope, now_unix_ms: i64) -> (r: SessionAction)
        requires
            old(self).wf(),
            old(limiter).wf(),
        ensures
            final(self).wf(),
            final(self).device() == old(self).device(),
            final(limiter).wf(),
            final(limiter).profile_spec() == old(limiter).profile_spec(),
            ({
                let device = old(self).device();
                let ups = old(self).uploads();
                let ups2 = final(self).uploads();
                let usage = old(limiter).usage_spec();
                let usage2 = final(limiter).usage_spec();
                let profile = old(limiter).profile_spec();
                match envelope {
                    ClientEnvelope::PeerRelayFrame(f) => ups2 == ups && peer_frame_post(
                        device,
                        usage,
                        profile,
                        f,
                        now_unix_ms,
                        usage2,
                        r,
                    ),
                    ClientEnvelope::HealthCheck => ups2 == ups && health_post(device, usage, profile, now_unix_ms, usage2, r),
                    ClientEnvelope::BlobUploadStart(st) => r matches SessionAction::Reply(e) && start_upload_post(
                        device,
                        ups,
                        usage,
                        profile,
                        st,
                        now_unix_ms,
                        ups2,
                        usage2,
                        e,
                    ),
                    ClientEnvelope::BlobUploadChunk(c) => r matches SessionAction::Reply(e) && chunk_post(
                        device,
                        ups,
                        usage,
                        profile,
                        c,
                        now_unix_ms,
                        ups2,
                        usage2,
                        e,
                    ),
                    ClientEnvelope::BlobUploadFinish(f) => usage2 == usage && finish_post(device, ups, f, now_unix_ms, ups2, r),
                    ClientEnvelope::BlobDownloadRequest(q) => ups2 == ups && download_post(
                        device,
                        usage,
                        profile,
                        q,
                        now_unix_ms,
                        usage2,
                        r,
                    ),
                    ClientEnvelope::Disconnect(_) => ups2 == ups && usage2 == usage && r == SessionAction::Close(None),
                    _ => ups2 == ups && usage2 == usage && (r matches SessionAction::Fail(e) && e@
                        == "unexpected auth envelope after session start"@),
                }
            }),
    {
        match envelope {
            ClientEnvelope::PeerRelayFrame(frame) => self.peer_frame(limiter, frame, now_unix_ms),
            ClientEnvelope::HealthCheck => self.health_check(limiter, now_unix_ms),
            ClientEnvelope::BlobUploadStart(start) => SessionAction::Reply(self.start_upload(limiter, start, now_unix_ms)),
            ClientEnvelope::BlobUploadChunk(chunk) => SessionAction::Reply(self.upload_chunk(limiter, chunk, now_unix_ms)),
            ClientEnvelope::BlobUploadFinish(finish) => self.finish_upload(finish, now_unix_ms),
            ClientEnvelope::BlobDownloadRequest(request) => self.download_request(limiter, request, now_unix_ms),
            ClientEnvelope::Disconnect(_) => SessionAction::Close(None),
            _ => SessionAction::Fail(owned("unexpected auth envelope after session start")),
        }
    }
}

/// The reply to a store of an uploaded blob: the stored blob, or the store's
/// error as the reason of a refusal.
pub fn stored_reply(request_id: u64, blob: StoredBlob, outcome: Result<(), String>) -> (r: ServerEnvelope)
    ensures
        match outcome {
            Ok(()) => r matches ServerEnvelope::BlobStored(b) && b.request_id == request_id && b.blob == blob,
            Err(reason) => rejected(r, request_id, reason@),
        },
{
    match outcome {
        Ok(()) => ServerEnvelope::BlobStored(BlobStored { request_id, blob }),
        Err(reason) => ServerEnvelope::BlobRejected(BlobRejected { request_id, reason }),
    }
}

/// The relay's health at `now` with this many devices online (the count
/// taken modulo 2^32, as the field holds).
pub fn health_reply(now_unix_ms: i64, online_devices: usize) -> (r: ServerEnvelope)
    ensures
        r matches ServerEnvelope::Health(h) && h.version == SERVER_PROTOCOL_VERSION && h.server_time_unix_ms
            == now_unix_ms && h.online_devices == online_devices as u32,
{
    ServerEnvelope::Health(Health {
        version: SERVER_PROTOCOL_VERSION,
        server_time_unix_ms: now_unix_ms,
        online_devices: online_devices as u32,
    })
}

/// The replies to a download request: a refusal when the blob was not
/// found; otherwise a ready notice with the blob's metadata, then its
/// ciphertext in chunks of `MAX_BLOB_CHUNK_BYTES`, the last one marked.
pub fn download_replies(request_id: u64, blob_id: &str, found: Option<StoredBlobRecord>) -> (r: Vec<ServerEnvelope>)
    ensures
        match found {
            None => r@.len() == 1 && rejected(r@[0], request_id, "blob '"@ + blob_id@ + "' was not found"@),
            Some(record) => {
                &&& r@.len() == 1 + chunk_count(record.ciphertext@.len())
                &&& r@[0] matches ServerEnvelope::BlobDownloadReady(ready)
                &&& ready.request_id == request_id
                &&& ready.blob == record.metadata
                &&& ready.max_chunk_bytes == MAX_BLOB_CHUNK_BYTES
                &&& forall|i: int| 1 <= i < r@.len() ==> download_chunk_at(
                    #[trigger] r@[i],
                    request_id,
                    record.metadata.blob_id@,
                    record.ciphertext@,
                    i - 1,
                )
            },
        },
{
    let record = match found {
        None => {
            let mut reason = String::new();
            push_str(&mut reason, "blob '");
            push_str(&mut reason, blob_id);
            push_str(&mut reason, "' was not found");
            let mut out: Vec<ServerEnvelope> = Vec::new();
            out.push(ServerEnvelope::BlobRejected(BlobRejected { request_id, reason }));
            return out;
        },
        Some(record) => record,
    };
    let ghost meta = record.metadata;
    let chunk_blob_id = copy_string(&record.metadata.blob_id);
    let ciphertext = record.ciphertext;
    let n = ciphertext.len();
    let mut out: Vec<ServerEnvelope> = Vec::new();
    out.push(ServerEnvelope::BlobDownloadReady(BlobDownloadReady {
        request_id,
        blob: record.metadata,
        max_chunk_bytes: 65536,
    }));
    let mut offset: usize = 0;
    let mut index: usize = 0;
    while offset < n
        invariant
            n == ciphertext@.len(),
            chunk_blob_id@ == meta.blob_id@,
            offset <= n,
            offset < n ==> offset == index * 65536,
            offset == n ==> index == chunk_count(n as nat),
            n > 0 ==> index <= chunk_count(n as nat),
            n == 0 ==> index == 0,
            out@.len() == index + 1,
            out@[0] matches ServerEnvelope::BlobDownloadReady(ready) && ready.request_id == request_id
                && ready.blob == meta && ready.max_chunk_bytes == MAX_BLOB_CHUNK_BYTES,
            forall|i: int| 1 <= i < out@.len() ==> download_chunk_at(
                #[trigger] out@[i],
                request_id,
                meta.blob_id@,
                ciphertext@,
                i - 1,
            ),
        decreases n - offset,
    {
        let end: usize = if n - offset > 65536 { offset + 65536 } else { n };
        let bytes = copy_range(ciphertext.as_slice(), offset, end);
        let is_last = end >= n;
        proof {
            let k = index as int;
            assert(k * 65536 == offset);
            if end == n {
                assert(chunk_count(n as nat) == k + 1) by (nonlinear_arith)
                    requires
                        k * 65536 < n,
                        n <= k * 65536 + 65536,
                {
                }
            } else {
                assert(chunk_count(n as nat) > k + 1) by (nonlinear_arith)
                    requires
                        k * 65536 + 65536 < n,
                {
                }
            }
        }
        out.push(ServerEnvelope::BlobDownloadChunk(BlobDownloadChunk {
            request_id,
            blob_id: copy_string(&chunk_blob_id),
            offset: offset as u64,
            bytes,
            is_last,
        }));
        offset = end;
        index = index + 1;
    }
    proof {
        if n == 0 {
            assert(chunk_count(0) == 0);
        }
    }
    out
}

/// How a connection opens: with a join request, with the hello of a
/// registered device, or with something else, which is refused with a
/// notice and ends the connection with an error.
#[derive(Debug)]
pub enum OpeningStep {
    Join(JoinWithInvite),
    Hello(AuthHello),
    Refuse(ServerEnvelope, String),
}

/// What the first envelope of a connection opens.
pub fn opening_step(first: ClientEnvelope) -> (r: OpeningStep)
    ensures
        match first {
            ClientEnvelope::JoinWithInvite(j) => r == OpeningStep::Join(j),
            ClientEnvelope::AuthHello(h) => r == OpeningStep::Hello(h),
            _ => r matches OpeningStep::Refuse(ServerEnvelope::Disconnect(d), e) && d.reason@
                == "expected auth hello or join request"@ && e@ == "expected auth hello or join request"@,
        },
{
    match first {
        ClientEnvelope::JoinWithInvite(j) => OpeningStep::Join(j),
        ClientEnvelope::AuthHello(h) => OpeningStep::Hello(h),
        _ => OpeningStep::Refuse(
            ServerEnvelope::Disconnect(Disconnect { reason: owned("expected auth hello or join request") }),
            owned("expected auth hello or join request"),
        ),
    }
}

/// The second envelope of a device's connection must answer the challenge.
pub fn expect_auth_response(second: ClientEnvelope) -> (r: Result<AuthResponse, String>)
    ensures
        match second {
            ClientEnvelope::AuthResponse(a) => r == Ok::<AuthResponse, String>(a),
            _ => r matches Err(e) && e@ == "expected auth response"@,
        },
{
    match second {
        ClientEnvelope::AuthResponse(a) => Ok(a),
        _ => Err(owned("expected auth response")),
    }
}

/// The bytes a download chunk carries; none for any other envelope.
pub open spec fn envelope_bytes(e: ServerEnvelope) -> Seq<u8> {
    match e {
        ServerEnvelope::BlobDownloadChunk(c) => c.bytes@,
        _ => Seq::empty(),
    }
}

/// The bytes of a sequence of envelopes, one after the other.
pub open spec fn chunks_bytes(es: Seq<ServerEnvelope>) -> Seq<u8>
    decreases es.len(),
{
    if es.len() == 0 {
        Seq::empty()
    } else {
        chunks_bytes(es.drop_last()) + envelope_bytes(es.last())
    }
}

proof fn lemma_chunk_prefix(es: Seq<ServerEnvelope>, request_id: u64, blob_id: Seq<char>, ciphertext: Seq<u8>, k: int)
    requires
        0 <= k <= es.len(),
        es.len() == chunk_count(ciphertext.len()),
        forall|i: int| 0 <= i < es.len() ==> download_chunk_at(#[trigger] es[i], request_id, blob_id, ciphertext, i),
    ensures
        chunks_bytes(es.take(k)) == ciphertext.subrange(
            0,
            if k * 65536 <= ciphertext.len() { k * 65536 } else { ciphertext.len() as int },
        ),
    decreases k,
{
    let n = ciphertext.len() as int;
    if k == 0 {
        assert(es.take(0) =~= Seq::<ServerEnvelope>::empty());
        assert(ciphertext.subrange(0, 0) =~= Seq::<u8>::empty());
    } else {
        lemma_chunk_prefix(es, request_id, blob_id, ciphertext, k - 1);
        let j = k - 1;
        assert(j * 65536 < n) by (nonlinear_arith)
            requires
                0 <= j,
                j < (n + 65535) / 65536,
                0 <= n,
        {
        }
        assert(es.take(k).drop_last() =~= es.take(j));
        assert(es.take(k).last() == es[j]);
        assert(download_chunk_at(es[j], request_id, blob_id, ciphertext, j));
        let start = j * 65536;
        let end = if start + 65536 <= n { start + 65536 } else { n };
        assert(ciphertext.subrange(0, start) + ciphertext.subrange(start, end) =~= ciphertext.subrange(0, end));
    }
}

/// A download gives back the stored ciphertext: the chunks that follow the
/// ready notice, taken in order, hold exactly its bytes.
pub proof fn lemma_download_reassembles(r: Seq<ServerEnvelope>, request_id: u64, blob_id: Seq<char>, ciphertext: Seq<u8>)
    requires
        r.len() == 1 + chunk_count(ciphertext.len()),
        forall|i: int| 1 <= i < r.len() ==> download_chunk_at(#[trigger] r[i], request_id, blob_id, ciphertext, i - 1),
    ensures
        chunks_bytes(r.skip(1)) == ciphertext,
{
    let es = r.skip(1);
    let n = ciphertext.len() as int;
    assert forall|i: int| 0 <= i < es.len() implies download_chunk_at(#[trigger] es[i], request_id, blob_id, ciphertext, i) by {
        assert(es[i] == r[i + 1]);
    }
    lemma_chunk_prefix(es, request_id, blob_id, ciphertext, es.len() as int);
    let c = es.len() as int;
    assert(c * 65536 >= n) by (nonlinear_arith)
        requires
            c == (n + 65535) / 65536,
            0 <= n,
    {
    }
    assert(es.take(c) =~= es);
    assert(ciphertext.subrange(0, n) =~= ciphertext);
}

/// What holds of every pending upload of a session: it was negotiated within
/// the relay's limit, holds no more than was negotiated, and carries the blob
/// id the relay gave it.
pub proof fn lemma_uploads_within_negotiated(session: &RelaySession, request_id: u64)
    requires
        session.wf(),
        session.uploads().contains_key(request_id),
    ensures
        upload_wf(session.device(), request_id, session.uploads()[request_id]),
{
}

} // verus!
