use localmessenger::client::direct::{
    direct_receipt, direct_transfer_envelopes, new_direct_transfer_id, DirectTransferEnvelope, DirectTransferReceiver,
    TransferStep,
};
use localmessenger::client::media::sha256_hex;
use localmessenger::client::transfer::{
    check_chunk_ack, receiver_route, rejection_target, route_send_outcome, upload_chunks, upload_finish,
    upload_start, BlobDownloadAssembly, BlobDownloadEvent, DownloadStep, PendingBlobRequest, ReceiverRoute,
    RouteSendResult,
};
use localmessenger::server::invites::StoredBlobRecord;
use localmessenger::server::rate_limit::{RateLimitProfile, RateLimiter};
use localmessenger::server::session::{download_replies, RelaySession, SessionAction};
use localmessenger::server_protocol::messages::{
    BlobChunkAck, BlobDownloadChunk, BlobRejected, ClientEnvelope, MediaKind, PeerQueued, PeerUnavailableReason,
    ServerEnvelope, StoredBlob,
};

fn sample_blob(ciphertext_bytes: u64) -> StoredBlob {
    StoredBlob {
        blob_id: "blob-alice-phone-1".to_string(),
        uploaded_by_device_id: "alice-phone".to_string(),
        file_name: "photo.jpg".to_string(),
        mime_type: "image/jpeg".to_string(),
        media_kind: MediaKind::Photo,
        plaintext_bytes: 3,
        ciphertext_bytes,
        sha256_hex: "ab".repeat(32),
        created_at_unix_ms: 9,
    }
}

#[test]
fn upload_is_cut_into_relay_sized_chunks() {
    let ciphertext: Vec<u8> = (0..140_000u32).map(|i| (i % 199) as u8).collect();
    let chunks = upload_chunks(3, "blob-x", &ciphertext);
    assert_eq!(chunks.len(), 3);
    assert_eq!(chunks[0].offset, 0);
    assert_eq!(chunks[1].offset, 65_536);
    assert_eq!(chunks[2].offset, 131_072);
    assert_eq!(chunks[2].bytes.len(), 140_000 - 131_072);
    let joined: Vec<u8> = chunks.iter().flat_map(|c| c.bytes.clone()).collect();
    assert_eq!(joined, ciphertext);
    assert!(upload_chunks(3, "blob-x", &[]).is_empty());

    let start = upload_start(3, "a.bin".to_string(), "application/octet-stream".to_string(), MediaKind::File, 10, &ciphertext, "cd".repeat(32));
    assert_eq!(start.ciphertext_bytes, 140_000);
    assert_eq!(upload_finish(3, "blob-x".to_string(), ciphertext.len()).ciphertext_bytes, 140_000);

    let ack = BlobChunkAck { request_id: 3, blob_id: "blob-x".to_string(), received_bytes: 65_536 };
    assert_eq!(check_chunk_ack(&ack, 0, 65_536), Ok(65_536));
    assert_eq!(
        check_chunk_ack(&ack, 0, 100).unwrap_err(),
        "blob chunk ack returned unexpected byte count"
    );
}

#[test]
fn client_upload_is_accepted_by_relay_session() {
    let ciphertext: Vec<u8> = (0..70_000u32).map(|i| (i % 97) as u8).collect();
    let mut session = RelaySession::new("alice-phone");
    let mut limiter = RateLimiter::new(RateLimitProfile::new(60_000, 10, 10, 1_000_000, 10).expect("profile"));
    let start = upload_start(5, "v.mov".to_string(), "video/quicktime".to_string(), MediaKind::File, 60_000, &ciphertext, "ef".repeat(32));
    let blob_id = match session.step(&mut limiter, ClientEnvelope::BlobUploadStart(start), 1) {
        SessionAction::Reply(ServerEnvelope::BlobUploadReady(ready)) => ready.blob_id,
        other => panic!("unexpected {other:?}"),
    };
    let mut offset = 0u64;
    for chunk in upload_chunks(5, &blob_id, &ciphertext) {
        let len = chunk.bytes.len();
        let sent_at = chunk.offset;
        match session.step(&mut limiter, ClientEnvelope::BlobUploadChunk(chunk), 2) {
            SessionAction::Reply(ServerEnvelope::BlobChunkAck(ack)) => {
                offset = check_chunk_ack(&ack, sent_at, len).expect("ack");
            }
            other => panic!("unexpected {other:?}"),
        }
    }
    assert_eq!(offset, 70_000);
    match session.step(&mut limiter, ClientEnvelope::BlobUploadFinish(upload_finish(5, blob_id, ciphertext.len())), 3) {
        SessionAction::StoreBlob { ciphertext: stored, .. } => assert_eq!(stored, ciphertext),
        other => panic!("unexpected {other:?}"),
    }
}

#[test]
fn download_assembly_rebuilds_relay_chunks() {
    let ciphertext: Vec<u8> = (0..100_000u32).map(|i| (i % 211) as u8).collect();
    let record = StoredBlobRecord { metadata: sample_blob(100_000), ciphertext: ciphertext.clone() };
    let replies = download_replies(2, "blob-alice-phone-1", Some(record));
    let mut assembly = BlobDownloadAssembly::new();
    let mut finished = None;
    for reply in replies {
        let event = match receiver_route(reply) {
            ReceiverRoute::Download { request_id: 2, event } => event,
            other => panic!("unexpected {other:?}"),
        };
        if let DownloadStep::Finished(result) = assembly.on_event(event) {
            finished = Some(result);
        }
    }
    let blob = finished.expect("finished").expect("blob");
    assert_eq!(blob.ciphertext, ciphertext);
    assert_eq!(blob.metadata, sample_blob(100_000));
}

#[test]
fn download_assembly_rejects_bad_sequences() {
    let chunk = |offset: u64, bytes: &[u8], is_last: bool| {
        BlobDownloadEvent::Chunk(BlobDownloadChunk {
            request_id: 1,
            blob_id: "b".to_string(),
            offset,
            bytes: bytes.to_vec(),
            is_last,
        })
    };
    let error = |step: DownloadStep| match step {
        DownloadStep::Finished(Err(e)) => e,
        other => panic!("unexpected {other:?}"),
    };
    let mut assembly = BlobDownloadAssembly::new();
    assert_eq!(error(assembly.on_event(chunk(4, b"x", false))), "blob download chunks arrived out of order");
    assert_eq!(error(assembly.on_event(chunk(0, b"abc", true))), "blob download missing metadata");
    let mut assembly = BlobDownloadAssembly::new();
    let ready = match download_replies(1, "b", Some(StoredBlobRecord { metadata: sample_blob(5), ciphertext: b"abcde".to_vec() })).remove(0) {
        ServerEnvelope::BlobDownloadReady(ready) => ready,
        other => panic!("unexpected {other:?}"),
    };
    assert!(matches!(assembly.on_event(BlobDownloadEvent::Ready(ready)), DownloadStep::Continue));
    assert_eq!(error(assembly.on_event(chunk(0, b"abc", true))), "blob download byte count does not match metadata");
    assert_eq!(error(assembly.on_event(BlobDownloadEvent::Rejected("gone".to_string()))), "gone");
}

#[test]
fn relay_replies_reach_their_waiting_requests() {
    assert!(matches!(
        receiver_route(ServerEnvelope::PeerQueued(PeerQueued {
            request_id: 8,
            recipient_device_id: "bob-phone".to_string(),
            queued_at_unix_ms: 1,
        })),
        ReceiverRoute::RouteResult { request_id: 8, result: RouteSendResult::Queued }
    ));
    assert!(matches!(
        receiver_route(ServerEnvelope::BlobRejected(BlobRejected { request_id: 4, reason: "no".to_string() })),
        ReceiverRoute::Rejection(r) if r.request_id == 4
    ));
    assert_eq!(rejection_target(false, true, true, true), Some(PendingBlobRequest::Chunk));
    assert_eq!(rejection_target(false, false, false, true), Some(PendingBlobRequest::Download));
    assert_eq!(rejection_target(false, false, false, false), None);
    assert_eq!(route_send_outcome(Some(RouteSendResult::Queued)), Ok(()));
    assert_eq!(route_send_outcome(None), Ok(()));
    assert_eq!(
        route_send_outcome(Some(RouteSendResult::Unavailable(PeerUnavailableReason::Offline))).unwrap_err(),
        "relay recipient unavailable: offline"
    );
}

#[test]
fn direct_transfer_delivers_what_was_announced() {
    let ciphertext: Vec<u8> = (0..180_000u32).map(|i| (i % 233) as u8).collect();
    let digest = sha256_hex(&ciphertext);
    let id = new_direct_transfer_id();
    assert!(id.starts_with("direct-"));
    assert_eq!(id.len(), "direct-".len() + 16);
    let envelopes = direct_transfer_envelopes(&id, "large.mov", "video/quicktime", &ciphertext, &digest);
    assert_eq!(envelopes.len(), 4);
    let mut receiver = DirectTransferReceiver::new(&id, "large.mov", "video/quicktime", &digest);
    let mut last = TransferStep::Continue;
    for envelope in envelopes {
        last = receiver.on_envelope(envelope);
    }
    assert_eq!(last, TransferStep::Done(Ok(())));
    let receipt = direct_receipt(id, ciphertext.len(), digest);
    assert_eq!(receipt.transferred_bytes, 180_000);
}

#[test]
fn direct_transfer_rejects_mismatches() {
    let ciphertext = b"abc".to_vec();
    let digest = sha256_hex(&ciphertext);
    let envelopes = direct_transfer_envelopes("direct-1", "a.bin", "application/octet-stream", &ciphertext, &digest);
    let mut wrong_id = DirectTransferReceiver::new("direct-2", "a.bin", "application/octet-stream", &digest);
    assert_eq!(wrong_id.on_envelope(envelopes[0].clone()), TransferStep::Done(Err("direct transfer id mismatch".to_string())));
    let mut wrong_name = DirectTransferReceiver::new("direct-1", "b.bin", "application/octet-stream", &digest);
    assert_eq!(wrong_name.on_envelope(envelopes[0].clone()), TransferStep::Done(Err("direct transfer metadata mismatch".to_string())));
    let mut early = DirectTransferReceiver::new("direct-1", "a.bin", "application/octet-stream", &digest);
    assert_eq!(early.on_envelope(envelopes[1].clone()), TransferStep::Done(Err("expected metadata frame first".to_string())));
    let mut twice = DirectTransferReceiver::new("direct-1", "a.bin", "application/octet-stream", &digest);
    assert_eq!(twice.on_envelope(envelopes[0].clone()), TransferStep::Continue);
    assert_eq!(
        twice.on_envelope(envelopes[0].clone()),
        TransferStep::Done(Err("unexpected metadata envelope during transfer".to_string()))
    );
    let mut wrong_digest = DirectTransferReceiver::new("direct-1", "a.bin", "application/octet-stream", &sha256_hex(b"xyz"));
    assert_eq!(wrong_digest.on_envelope(envelopes[0].clone()), TransferStep::Continue);
    assert_eq!(wrong_digest.on_envelope(envelopes[1].clone()), TransferStep::Done(Err("direct transfer digest mismatch".to_string())));
    let mut out_of_order = DirectTransferReceiver::new("direct-1", "a.bin", "application/octet-stream", &digest);
    assert_eq!(out_of_order.on_envelope(envelopes[0].clone()), TransferStep::Continue);
    assert_eq!(
        out_of_order.on_envelope(DirectTransferEnvelope::Chunk { offset: 2, bytes: b"c".to_vec(), is_last: true }),
        TransferStep::Done(Err("direct transfer chunk order mismatch".to_string()))
    );
    let mut short = DirectTransferReceiver::new("direct-1", "a.bin", "application/octet-stream", &digest);
    assert_eq!(short.on_envelope(envelopes[0].clone()), TransferStep::Continue);
    assert_eq!(
        short.on_envelope(DirectTransferEnvelope::Chunk { offset: 0, bytes: b"ab".to_vec(), is_last: true }),
        TransferStep::Done(Err("direct transfer length mismatch".to_string()))
    );
}
