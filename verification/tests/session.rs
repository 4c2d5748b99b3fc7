use localmessenger::server::invites::StoredBlobRecord;
use localmessenger::server::rate_limit::{RateLimitProfile, RateLimiter};
use localmessenger::server::session::{
    download_replies, expect_auth_response, health_reply, opening_step, stored_reply, OpeningStep,
    RelaySession, SessionAction,
};
use localmessenger::server_protocol::messages::{
    AuthHello, BlobDownloadRequest, BlobUploadChunk, BlobUploadFinish, BlobUploadStart, ClientEnvelope,
    Disconnect, MediaKind, PeerRelayFrame, PeerUnavailableReason, ServerEnvelope, StoredBlob,
};

fn limiter() -> RateLimiter {
    RateLimiter::new(RateLimitProfile::new(60_000, 2, 2, 1_000, 1).expect("profile"))
}

fn start(request_id: u64, ciphertext_bytes: u64) -> ClientEnvelope {
    ClientEnvelope::BlobUploadStart(BlobUploadStart {
        request_id,
        file_name: "photo.jpg".to_string(),
        mime_type: "image/jpeg".to_string(),
        media_kind: MediaKind::Photo,
        plaintext_bytes: 6,
        ciphertext_bytes,
        sha256_hex: "ab".repeat(32),
    })
}

fn chunk(request_id: u64, blob_id: &str, offset: u64, bytes: &[u8]) -> ClientEnvelope {
    ClientEnvelope::BlobUploadChunk(BlobUploadChunk {
        request_id,
        blob_id: blob_id.to_string(),
        offset,
        bytes: bytes.to_vec(),
    })
}

fn reply(action: SessionAction) -> ServerEnvelope {
    match action {
        SessionAction::Reply(envelope) => envelope,
        other => panic!("expected a reply, got {other:?}"),
    }
}

fn rejection(action: SessionAction) -> String {
    match reply(action) {
        ServerEnvelope::BlobRejected(rejected) => rejected.reason,
        other => panic!("expected a rejection, got {other:?}"),
    }
}

#[test]
fn upload_session_accepts_ordered_chunks_and_stores_the_blob() {
    let mut session = RelaySession::new("alice-phone");
    let mut limiter = limiter();
    let ready = match reply(session.step(&mut limiter, start(7, 6), 100)) {
        ServerEnvelope::BlobUploadReady(ready) => ready,
        other => panic!("unexpected {other:?}"),
    };
    assert_eq!(ready.blob_id, "blob-alice-phone-7");
    assert_eq!(ready.max_chunk_bytes, 65_536);

    match reply(session.step(&mut limiter, chunk(7, &ready.blob_id, 0, b"abc"), 110)) {
        ServerEnvelope::BlobChunkAck(ack) => assert_eq!(ack.received_bytes, 3),
        other => panic!("unexpected {other:?}"),
    }
    assert_eq!(
        rejection(session.step(&mut limiter, chunk(7, &ready.blob_id, 0, b"def"), 120)),
        "chunk offset is out of order"
    );
    assert_eq!(
        rejection(session.step(&mut limiter, chunk(7, &ready.blob_id, 3, b"defg"), 130)),
        "blob upload exceeds negotiated size"
    );
    assert_eq!(
        rejection(session.step(&mut limiter, chunk(7, "blob-other", 3, b"def"), 140)),
        "blob id does not match pending upload"
    );
    match reply(session.step(&mut limiter, chunk(7, &ready.blob_id, 3, b"def"), 150)) {
        ServerEnvelope::BlobChunkAck(ack) => assert_eq!(ack.received_bytes, 6),
        other => panic!("unexpected {other:?}"),
    }

    let finish = ClientEnvelope::BlobUploadFinish(BlobUploadFinish {
        request_id: 7,
        blob_id: ready.blob_id.clone(),
        ciphertext_bytes: 6,
    });
    match session.step(&mut limiter, finish, 200) {
        SessionAction::StoreBlob { request_id, blob, ciphertext } => {
            assert_eq!(request_id, 7);
            assert_eq!(ciphertext, b"abcdef".to_vec());
            assert_eq!(blob.uploaded_by_device_id, "alice-phone");
            assert_eq!(blob.created_at_unix_ms, 200);
            match stored_reply(7, blob.clone(), Ok(())) {
                ServerEnvelope::BlobStored(stored) => assert_eq!(stored.blob, blob),
                other => panic!("unexpected {other:?}"),
            }
            match stored_reply(7, blob, Err("disk full".to_string())) {
                ServerEnvelope::BlobRejected(rejected) => assert_eq!(rejected.reason, "disk full"),
                other => panic!("unexpected {other:?}"),
            }
        }
        other => panic!("unexpected {other:?}"),
    }
    let again = ClientEnvelope::BlobUploadFinish(BlobUploadFinish {
        request_id: 7,
        blob_id: ready.blob_id,
        ciphertext_bytes: 6,
    });
    assert_eq!(rejection(session.step(&mut limiter, again, 210)), "unknown blob upload request");
}

#[test]
fn upload_session_refuses_invalid_and_incomplete_uploads() {
    let mut session = RelaySession::new("alice-phone");
    let mut limiter = limiter();
    assert_eq!(
        rejection(session.step(&mut limiter, start(1, 0), 100)),
        "ciphertext bytes must be greater than zero"
    );
    assert_eq!(
        rejection(session.step(&mut limiter, chunk(1, "blob-alice-phone-1", 0, b"x"), 100)),
        "unknown blob upload request"
    );
    let big = vec![0u8; 65_537];
    let _ = session.step(&mut limiter, start(2, 100), 100);
    assert_eq!(
        rejection(session.step(&mut limiter, chunk(2, "blob-alice-phone-2", 0, &big), 100)),
        "chunk exceeds maximum size of 65536 bytes"
    );
    let finish = ClientEnvelope::BlobUploadFinish(BlobUploadFinish {
        request_id: 2,
        blob_id: "blob-alice-phone-2".to_string(),
        ciphertext_bytes: 100,
    });
    assert_eq!(rejection(session.step(&mut limiter, finish, 100)), "blob upload is incomplete");
    assert_eq!(
        rejection(session.step(&mut limiter, start(3, 10), 100)),
        "rate limit exceeded for blob requests"
    );
}

#[test]
fn session_rate_limits_frames_and_health_checks() {
    let session = RelaySession::new("alice-phone");
    let mut session = session;
    let mut limiter = limiter();
    let frame = |id: u64| {
        ClientEnvelope::PeerRelayFrame(PeerRelayFrame {
            request_id: id,
            recipient_device_id: "bob-phone".to_string(),
            payload: vec![1, 2, 3],
        })
    };
    assert!(matches!(session.step(&mut limiter, frame(1), 10), SessionAction::RoutePeerFrame(f) if f.request_id == 1));
    assert!(matches!(session.step(&mut limiter, frame(2), 20), SessionAction::RoutePeerFrame(_)));
    match reply(session.step(&mut limiter, frame(3), 30)) {
        ServerEnvelope::PeerUnavailable(unavailable) => {
            assert_eq!(unavailable.request_id, 3);
            assert_eq!(unavailable.reason, PeerUnavailableReason::RateLimited);
        }
        other => panic!("unexpected {other:?}"),
    }
    assert!(matches!(session.step(&mut limiter, ClientEnvelope::HealthCheck, 40), SessionAction::ReportHealth));
    match session.step(&mut limiter, ClientEnvelope::HealthCheck, 50) {
        SessionAction::Close(Some(ServerEnvelope::Disconnect(d))) => {
            assert_eq!(d.reason, "rate limit exceeded for health checks")
        }
        other => panic!("unexpected {other:?}"),
    }
    match health_reply(60, 4) {
        ServerEnvelope::Health(h) => {
            assert_eq!(h.server_time_unix_ms, 60);
            assert_eq!(h.online_devices, 4);
        }
        other => panic!("unexpected {other:?}"),
    }
    let disconnect = ClientEnvelope::Disconnect(Disconnect { reason: "bye".to_string() });
    assert!(matches!(session.step(&mut limiter, disconnect, 70), SessionAction::Close(None)));
    let hello = ClientEnvelope::AuthHello(AuthHello {
        version: 1,
        member_id: "alice".to_string(),
        device_id: "alice-phone".to_string(),
    });
    match session.step(&mut limiter, hello, 80) {
        SessionAction::Fail(e) => assert_eq!(e, "unexpected auth envelope after session start"),
        other => panic!("unexpected {other:?}"),
    }
}

#[test]
fn download_replies_split_ciphertext_into_marked_chunks() {
    let metadata = StoredBlob {
        blob_id: "blob-alice-phone-9".to_string(),
        uploaded_by_device_id: "alice-phone".to_string(),
        file_name: "clip.bin".to_string(),
        mime_type: "application/octet-stream".to_string(),
        media_kind: MediaKind::File,
        plaintext_bytes: 10,
        ciphertext_bytes: 65_536 + 10,
        sha256_hex: "cd".repeat(32),
        created_at_unix_ms: 5,
    };
    let ciphertext: Vec<u8> = (0..65_546u32).map(|i| (i % 251) as u8).collect();
    let replies = download_replies(
        4,
        "blob-alice-phone-9",
        Some(StoredBlobRecord { metadata: metadata.clone(), ciphertext: ciphertext.clone() }),
    );
    assert_eq!(replies.len(), 3);
    assert!(matches!(&replies[0], ServerEnvelope::BlobDownloadReady(r) if r.blob == metadata && r.max_chunk_bytes == 65_536));
    let mut joined = Vec::new();
    for (index, envelope) in replies[1..].iter().enumerate() {
        match envelope {
            ServerEnvelope::BlobDownloadChunk(c) => {
                assert_eq!(c.offset, (index * 65_536) as u64);
                assert_eq!(c.is_last, index == 1);
                joined.extend_from_slice(&c.bytes);
            }
            other => panic!("unexpected {other:?}"),
        }
    }
    assert_eq!(joined, ciphertext);

    let missing = download_replies(5, "blob-x", None);
    assert_eq!(missing.len(), 1);
    assert!(matches!(&missing[0], ServerEnvelope::BlobRejected(r) if r.reason == "blob 'blob-x' was not found"));

    let mut session = RelaySession::new("alice-phone");
    let mut limiter = limiter();
    let request = ClientEnvelope::BlobDownloadRequest(BlobDownloadRequest {
        request_id: 6,
        blob_id: "blob-x".to_string(),
    });
    assert!(matches!(
        session.step(&mut limiter, request, 1),
        SessionAction::LookupBlob { request_id: 6, ref blob_id } if blob_id == "blob-x"
    ));
}

#[test]
fn connection_opening_requires_hello_or_join() {
    let hello = AuthHello { version: 1, member_id: "alice".to_string(), device_id: "alice-phone".to_string() };
    assert!(matches!(opening_step(ClientEnvelope::AuthHello(hello.clone())), OpeningStep::Hello(h) if h == hello));
    match opening_step(ClientEnvelope::HealthCheck) {
        OpeningStep::Refuse(ServerEnvelope::Disconnect(d), e) => {
            assert_eq!(d.reason, "expected auth hello or join request");
            assert_eq!(e, "expected auth hello or join request");
        }
        other => panic!("unexpected {other:?}"),
    }
    assert_eq!(
        expect_auth_response(ClientEnvelope::HealthCheck).unwrap_err(),
        "expected auth response"
    );
}
