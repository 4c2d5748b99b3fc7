//! The client's side of blob transfers through the relay and of the relay's
//! replies: how an upload is cut into chunks and its acknowledgements
//! checked, how a download is put back together, and which waiting request
//! an envelope from the relay answers.

use vstd::prelude::*;
use crate::bytes::extend_bytes;
use crate::client::relay::{peer_unavailable_label_spec, peer_unavailable_reason_label};
use crate::server::rate_limit::{limiter_allow_spec, DeviceUsage, ProfileView, RateLimitBucket};
use crate::server::session::{chunk_count, chunk_post, finish_post, SessionAction, UploadView};
use crate::server_protocol::messages::{
    BlobUploadFinish as FinishRequest, MAX_RELAY_BLOB_BYTES,
    BlobChunkAck, BlobDownloadChunk, BlobDownloadReady, BlobRejected, BlobStored, BlobUploadChunk,
    BlobUploadFinish, BlobUploadReady, BlobUploadStart, MediaKind, PeerUnavailableReason, ServerEnvelope,
    StoredBlob,
};
use crate::text::{owned, push_str};
use crate::wire::copy_range;

verus! {

/// A blob the relay has stored for this client.
#[derive(Debug)]
pub struct UploadedBlobHandle {
    pub metadata: StoredBlob,
}

/// A blob downloaded from the relay, still encrypted.
#[derive(Debug)]
pub struct DownloadedBlob {
    pub metadata: StoredBlob,
    pub ciphertext: Vec<u8>,
}

/// What the relay sends about a download in progress.
#[derive(Debug)]
pub enum BlobDownloadEvent {
    Ready(BlobDownloadReady),
    Chunk(BlobDownloadChunk),
    Rejected(String),
}

/// The request that starts an upload of `ciphertext`.
pub fn upload_start(
    request_id: u64,
    file_name: String,
    mime_type: String,
    media_kind: MediaKind,
    plaintext_bytes: u64,
    ciphertext: &[u8],
    sha256_hex: String,
) -> (r: BlobUploadStart)
    ensures
        r == (BlobUploadStart {
            request_id,
            file_name,
            mime_type,
            media_kind,
            plaintext_bytes,
            ciphertext_bytes: ciphertext@.len() as u64,
            sha256_hex,
        }),
{
    BlobUploadStart {
        request_id,
        file_name,
        mime_type,
        media_kind,
        plaintext_bytes,
        ciphertext_bytes: ciphertext.len() as u64,
        sha256_hex,
    }
}

/// The `k`-th chunk of an upload of `ciphertext`: at most
/// `MAX_BLOB_CHUNK_BYTES` bytes, at its offset.
pub open spec fn upload_chunk_at(c: BlobUploadChunk, request_id: u64, blob_id: Seq<char>, ciphertext: Seq<u8>, k: int) -> bool {
    let start = k * 65536;
    let end = if start + 65536 <= ciphertext.len() { start + 65536 } else { ciphertext.len() as int };
    &&& c.request_id == request_id
    &&& c.blob_id@ == blob_id
    &&& c.offset == start
    &&& c.bytes@ == ciphertext.subrange(start, end)
}

/// The chunks an upload of `ciphertext` is sent in, in order.
pub fn upload_chunks(request_id: u64, blob_id: &str, ciphertext: &[u8]) -> (r: Vec<BlobUploadChunk>)
    ensures
        r@.len() == chunk_count(ciphertext@.len()),
        forall|k: int| 0 <= k < r@.len() ==> upload_chunk_at(#[trigger] r@[k], request_id, blob_id@, ciphertext@, k),
{
    let n = ciphertext.len();
    let mut out: Vec<BlobUploadChunk> = Vec::new();
    let mut offset: usize = 0;
    let mut index: usize = 0;
    while offset < n
        invariant
            n == ciphertext@.len(),
            offset <= n,
            offset < n ==> offset == index * 65536,
            offset == n ==> index == chunk_count(n as nat),
            n == 0 ==> index == 0,
            out@.len() == index,
            forall|k: int| 0 <= k < out@.len() ==> upload_chunk_at(#[trigger] out@[k], request_id, blob_id@, ciphertext@, k),
        decreases n - offset,
    {
        let end: usize = if n - offset > 65536 { offset + 65536 } else { n };
        proof {
            let k = index as int;
            if end == n {
                assert(chunk_count(n as nat) == k + 1) by (nonlinear_arith)
                    requires
                        k * 65536 < n,
                        n <= k * 65536 + 65536,
                {
                }
            }
        }
        out.push(BlobUploadChunk {
            request_id,
            blob_id: owned(blob_id),
            offset: offset as u64,
            bytes: copy_range(ciphertext, offset, end),
        });
        offset = end;
        index = index + 1;
    }
    proof {
        if n == 0 {
            assert(chunk_count(0) == 0);
        }
    }
    out
}

/// Checks the relay's acknowledgement of a chunk of `chunk_len` bytes sent
/// at `offset`: it must count exactly the bytes sent so far, which become
/// the next offset.
pub fn check_chunk_ack(ack: &BlobChunkAck, offset: u64, chunk_len: usize) -> (r: Result<u64, String>)
    ensures
        ack.received_bytes == offset + chunk_len ==> r == Ok::<u64, String>(ack.received_bytes),
        ack.received_bytes != offset + chunk_len ==> (r matches Err(e) && e@
            == "blob chunk ack returned unexpected byte count"@),
{
    if (ack.received_bytes as u128) != (offset as u128) + (chunk_len as u128) {
        return Err(owned("blob chunk ack returned unexpected byte count"));
    }
    Ok(ack.received_bytes)
}

/// The request that finishes an upload of `ciphertext_len` bytes.
pub fn upload_finish(request_id: u64, blob_id: String, ciphertext_len: usize) -> (r: BlobUploadFinish)
    ensures
        r == (BlobUploadFinish { request_id, blob_id, ciphertext_bytes: ciphertext_len as u64 }),
{
    BlobUploadFinish { request_id, blob_id, ciphertext_bytes: ciphertext_len as u64 }
}

/// A download being put back together from the relay's events.
pub struct BlobDownloadAssembly {
    metadata: Option<StoredBlob>,
    ciphertext: Vec<u8>,
}

/// Whether a download goes on or has ended, with the blob or the error.
#[derive(Debug)]
pub enum DownloadStep {
    Continue,
    Finished(Result<DownloadedBlob, String>),
}

impl BlobDownloadAssembly {
    /// The metadata of the ready notice, once it came.
    pub closed spec fn metadata_spec(&self) -> Option<StoredBlob> {
        self.metadata
    }

    /// The bytes received so far, in order.
    pub closed spec fn received(&self) -> Seq<u8> {
        self.ciphertext@
    }

    /// A download that has received nothing.
    pub fn new() -> (r: BlobDownloadAssembly)
        ensures
            r.metadata_spec() is None,
            r.received() == Seq::<u8>::empty(),
    {
        BlobDownloadAssembly { metadata: None, ciphertext: Vec::new() }
    }

    /// Takes one event. A ready notice records the metadata. A chunk that
    /// does not start where the received bytes end ends the download with an
    /// error; any other is appended, and when it is the last, the download
    /// ends: with an error when no metadata came or when the bytes received
    /// are not as many as the metadata says, else with the blob, and nothing
    /// is left behind. A refusal ends the download with its reason. A
    /// download that ends with an error keeps what it held.
    pub fn on_event(&mut self, event: BlobDownloadEvent) -> (r: DownloadStep)
        ensures
            match event {
                BlobDownloadEvent::Ready(ready) => r is Continue && final(self).metadata_spec() == Some(ready.blob)
                    && final(self).received() == old(self).received(),
                BlobDownloadEvent::Rejected(reason) => r == DownloadStep::Finished(Err(reason)) && *final(self)
                    == *old(self),
                BlobDownloadEvent::Chunk(c) => {
                    let all = old(self).received() + c.bytes@;
                    if c.offset != old(self).received().len() {
                        *final(self) == *old(self) && (r matches DownloadStep::Finished(Err(e)) && e@
                            == "blob download chunks arrived out of order"@)
                    } else if !c.is_last {
                        r is Continue && final(self).metadata_spec() == old(self).metadata_spec()
                            && final(self).received() == all
                    } else {
                        match old(self).metadata_spec() {
                            None => *final(self) == *old(self) && (r matches DownloadStep::Finished(Err(e)) && e@
                                == "blob download missing metadata"@),
                            Some(meta) => if all.len() != meta.ciphertext_bytes {
                                *final(self) == *old(self) && (r matches DownloadStep::Finished(Err(e)) && e@
                                    == "blob download byte count does not match metadata"@)
                            } else {
                                &&& r matches DownloadStep::Finished(Ok(blob))
                                &&& blob.metadata == meta
                                &&& blob.ciphertext@ == all
                                &&& final(self).metadata_spec() is None
                                &&& final(self).received() == Seq::<u8>::empty()
                            },
                        }
                    }
                },
            },
    {
        match event {
            BlobDownloadEvent::Ready(ready) => {
                self.metadata = Some(ready.blob);
                DownloadStep::Continue
            },
            BlobDownloadEvent::Rejected(reason) => DownloadStep::Finished(Err(reason)),
            BlobDownloadEvent::Chunk(chunk) => {
                let have = self.ciphertext.len();
                if chunk.offset != have as u64 {
                    return DownloadStep::Finished(Err(owned("blob download chunks arrived out of order")));
                }
                if !chunk.is_last {
                    extend_bytes(&mut self.ciphertext, chunk.bytes.as_slice());
                    return DownloadStep::Continue;
                }
                let expected: u64 = match &self.metadata {
                    None => {
                        return DownloadStep::Finished(Err(owned("blob download missing metadata")));
                    },
                    Some(meta) => meta.ciphertext_bytes,
                };
                if (have as u128) + (chunk.bytes.len() as u128) != expected as u128 {
                    return DownloadStep::Finished(
                        Err(owned("blob download byte count does not match metadata")),
                    );
                }
                let mut metadata: Option<StoredBlob> = None;
                std::mem::swap(&mut metadata, &mut self.metadata);
                let mut ciphertext: Vec<u8> = Vec::new();
                std::mem::swap(&mut ciphertext, &mut self.ciphertext);
                extend_bytes(&mut ciphertext, chunk.bytes.as_slice());
                match metadata {
                    Some(meta) => DownloadStep::Finished(Ok(DownloadedBlob { metadata: meta, ciphertext })),
                    None => DownloadStep::Finished(Err(owned("blob download missing metadata"))),
                }
            },
        }
    }
}

/// The relay's answer to a routed peer frame.
#[derive(Debug, Clone, Copy, PartialEq, Eq, Structural)]
pub enum RouteSendResult {
    Queued,
    Unavailable(PeerUnavailableReason),
}

/// Whether sending a frame through the relay succeeded: a frame the relay
/// reported unavailable fails with the reason; one it queued, and one it
/// said nothing about in time, succeed.
pub fn route_send_outcome(answer: Option<RouteSendResult>) -> (r: Result<(), String>)
    ensures
        match answer {
            Some(RouteSendResult::Unavailable(reason)) => r matches Err(e) && e@ == "relay recipient unavailable: "@
                + peer_unavailable_label_spec(reason),
            _ => r is Ok,
        },
{
    match answer {
        Some(RouteSendResult::Unavailable(reason)) => {
            let mut e = String::new();
            push_str(&mut e, "relay recipient unavailable: ");
            push_str(&mut e, peer_unavailable_reason_label(reason));
            Err(e)
        },
        _ => Ok(()),
    }
}

/// Which waiting request an envelope from the relay is for.
#[derive(Debug)]
pub enum ReceiverRoute {
    /// A frame from a peer, for the inbox of its sender.
    Inbox { sender_device_id: String, payload: Vec<u8> },
    /// The fate of a routed frame.
    RouteResult { request_id: u64, result: RouteSendResult },
    /// The start of an upload was accepted.
    BlobStart(BlobUploadReady),
    /// A chunk of an upload was acknowledged.
    BlobChunk(BlobChunkAck),
    /// An upload was stored.
    BlobFinish(BlobStored),
    /// An event of a download.
    Download { request_id: u64, event: BlobDownloadEvent },
    /// A blob request was refused; see `rejection_target`.
    Rejection(BlobRejected),
    /// Nothing waits for it.
    Ignore,
}

/// Where an envelope from the relay goes.
pub fn receiver_route(envelope: ServerEnvelope) -> (r: ReceiverRoute)
    ensures
        match envelope {
            ServerEnvelope::PeerFrame(f) => r == ReceiverRoute::Inbox {
                sender_device_id: f.sender_device_id,
                payload: f.payload,
            },
            ServerEnvelope::PeerUnavailable(u) => r == ReceiverRoute::RouteResult {
                request_id: u.request_id,
                result: RouteSendResult::Unavailable(u.reason),
            },
            ServerEnvelope::PeerQueued(q) => r == ReceiverRoute::RouteResult {
                request_id: q.request_id,
                result: RouteSendResult::Queued,
            },
            ServerEnvelope::BlobUploadReady(ready) => r == ReceiverRoute::BlobStart(ready),
            ServerEnvelope::BlobChunkAck(ack) => r == ReceiverRoute::BlobChunk(ack),
            ServerEnvelope::BlobStored(stored) => r == ReceiverRoute::BlobFinish(stored),
            ServerEnvelope::BlobDownloadReady(ready) => r == ReceiverRoute::Download {
                request_id: ready.request_id,
                event: BlobDownloadEvent::Ready(ready),
            },
            ServerEnvelope::BlobDownloadChunk(c) => r == ReceiverRoute::Download {
                request_id: c.request_id,
                event: BlobDownloadEvent::Chunk(c),
            },
            ServerEnvelope::BlobRejected(rejected) => r == ReceiverRoute::Rejection(rejected),
            _ => r is Ignore,
        },
{
    match envelope {
        ServerEnvelope::PeerFrame(f) => ReceiverRoute::Inbox { sender_device_id: f.sender_device_id, payload: f.payload },
        ServerEnvelope::PeerUnavailable(u) => ReceiverRoute::RouteResult {
            request_id: u.request_id,
            result: RouteSendResult::Unavailable(u.reason),
        },
        ServerEnvelope::PeerQueued(q) => ReceiverRoute::RouteResult { request_id: q.request_id, result: RouteSendResult::Queued },
        ServerEnvelope::BlobUploadReady(ready) => ReceiverRoute::BlobStart(ready),
        ServerEnvelope::BlobChunkAck(ack) => ReceiverRoute::BlobChunk(ack),
        ServerEnvelope::BlobStored(stored) => ReceiverRoute::BlobFinish(stored),
        ServerEnvelope::BlobDownloadReady(ready) => {
            let request_id = ready.request_id;
            ReceiverRoute::Download { request_id, event: BlobDownloadEvent::Ready(ready) }
        },
        ServerEnvelope::BlobDownloadChunk(c) => {
            let request_id = c.request_id;
            ReceiverRoute::Download { request_id, event: BlobDownloadEvent::Chunk(c) }
        },
        ServerEnvelope::BlobRejected(rejected) => ReceiverRoute::Rejection(rejected),
        _ => ReceiverRoute::Ignore,
    }
}

/// The kinds of blob request a refusal can be for.
#[derive(Debug, Clone, Copy, PartialEq, Eq, Structural)]
pub enum PendingBlobRequest {
    Start,
    Chunk,
    Finish,
    Download,
}

/// Which waiting request a refusal goes to, given which kinds wait under its
/// request id: a start first, then a chunk, then a finish, then a download.
pub fn rejection_target(start_waits: bool, chunk_waits: bool, finish_waits: bool, download_waits: bool) -> (r: Option<PendingBlobRequest>)
    ensures
        r == (if start_waits {
            Some(PendingBlobRequest::Start)
        } else if chunk_waits {
            Some(PendingBlobRequest::Chunk)
        } else if finish_waits {
            Some(PendingBlobRequest::Finish)
        } else if download_waits {
            Some(PendingBlobRequest::Download)
        } else {
            None
        }),
{
    if start_waits {
        Some(PendingBlobRequest::Start)
    } else if chunk_waits {
        Some(PendingBlobRequest::Chunk)
    } else if finish_waits {
        Some(PendingBlobRequest::Finish)
    } else if download_waits {
        Some(PendingBlobRequest::Download)
    } else {
        None
    }
}

/// The relay takes the client's chunks in order: when an upload holds the
/// first `k` chunks of a ciphertext it announced in full, and the bandwidth
/// limit lets the `k`-th chunk (as `upload_chunks` cuts it) through, the
/// upload then holds one chunk more and the acknowledgement counts exactly
/// those bytes.
pub proof fn lemma_client_chunk_accepted(
    device: Seq<char>,
    ups: Map<u64, UploadView>,
    usage: Map<Seq<char>, DeviceUsage>,
    profile: ProfileView,
    chunk: BlobUploadChunk,
    now: i64,
    ups2: Map<u64, UploadView>,
    usage2: Map<Seq<char>, DeviceUsage>,
    r: ServerEnvelope,
    ciphertext: Seq<u8>,
    k: int,
)
    requires
        ups.contains_key(chunk.request_id),
        0 <= k < chunk_count(ciphertext.len()),
        upload_chunk_at(chunk, chunk.request_id, ups[chunk.request_id].blob_id, ciphertext, k),
        ups[chunk.request_id].buffer == ciphertext.subrange(0, k * 65536),
        ups[chunk.request_id].ciphertext_bytes == ciphertext.len(),
        ciphertext.len() <= MAX_RELAY_BLOB_BYTES,
        limiter_allow_spec(usage, profile, device, RateLimitBucket::BlobChunkBytes, chunk.bytes@.len() as u64, now).1,
        chunk_post(device, ups, usage, profile, chunk, now, ups2, usage2, r),
    ensures
        ({
            let end = if (k + 1) * 65536 <= ciphertext.len() { (k + 1) * 65536 } else { ciphertext.len() as int };
            &&& ups2.contains_key(chunk.request_id)
            &&& ups2[chunk.request_id].buffer == ciphertext.subrange(0, end)
            &&& r matches ServerEnvelope::BlobChunkAck(ack) && ack.received_bytes == end
        }),
{
    let n = ciphertext.len() as int;
    let id = chunk.request_id;
    assert(k * 65536 < n) by (nonlinear_arith)
        requires
            0 <= k,
            k < (n + 65535) / 65536,
            0 <= n,
    {
    }
    let start = k * 65536;
    let end = if start + 65536 <= n { start + 65536 } else { n };
    assert(ciphertext.subrange(0, start) + ciphertext.subrange(start, end) =~= ciphertext.subrange(0, end));
}

/// An upload that holds the whole ciphertext it announced, finished with its
/// blob id and that length, is stored with exactly that ciphertext.
pub proof fn lemma_complete_upload_stored(
    device: Seq<char>,
    ups: Map<u64, UploadView>,
    finish: FinishRequest,
    now: i64,
    ups2: Map<u64, UploadView>,
    r: SessionAction,
    ciphertext: Seq<u8>,
)
    requires
        ups.contains_key(finish.request_id),
        ups[finish.request_id].buffer == ciphertext,
        ups[finish.request_id].ciphertext_bytes == ciphertext.len(),
        ups[finish.request_id].blob_id == finish.blob_id@,
        finish.ciphertext_bytes == ciphertext.len(),
        finish_post(device, ups, finish, now, ups2, r),
    ensures
        r matches SessionAction::StoreBlob { request_id, blob, ciphertext: stored } && request_id == finish.request_id
            && stored@ == ciphertext && blob.ciphertext_bytes == ciphertext.len(),
        !ups2.contains_key(finish.request_id),
{
}

} // verus!
