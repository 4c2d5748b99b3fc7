//! A media file handed over directly between two devices: the sender
//! announces it and sends its ciphertext in chunks; the receiver checks
//! that what arrives is what was announced, in order, in full, and with the
//! announced digest.

use vstd::prelude::*;
use crate::bytes::extend_bytes;
use crate::client::media::{sha256_hex, DirectTransferReceipt};
use crate::outside::{random_bytes_32, sha256};
use crate::server::session::chunk_count;
use crate::text::{copy_string, hex_encode, hex_spec, owned, push_str, str_eq};
use crate::wire::copy_range;

verus! {

/// What travels over a direct transfer.
#[derive(Debug, Clone, PartialEq, Eq)]
pub enum DirectTransferEnvelope {
    Meta { transfer_id: String, file_name: String, mime_type: String, sha256_hex: String, total_bytes: u64 },
    Chunk { offset: u64, bytes: Vec<u8>, is_last: bool },
}

/// The id of a transfer: `direct-` and eight random bytes in hex.
pub fn new_direct_transfer_id() -> (r: String)
    ensures
        exists|b: Seq<u8>| b.len() == 8 && r@ == "direct-"@ + hex_spec(b),
{
    let random = random_bytes_32();
    let mut out = owned("direct-");
    let eight = copy_range(&random, 0, 8);
    let hex = hex_encode(eight.as_slice());
    push_str(&mut out, hex.as_str());
    out
}

/// The `k`-th chunk envelope of a transfer of `ciphertext`.
pub open spec fn direct_chunk_at(e: DirectTransferEnvelope, ciphertext: Seq<u8>, k: int) -> bool {
    let start = k * 65536;
    let end = if start + 65536 <= ciphertext.len() { start + 65536 } else { ciphertext.len() as int };
    &&& e matches DirectTransferEnvelope::Chunk { offset, bytes, is_last }
    &&& offset == start
    &&& bytes@ == ciphertext.subrange(start, end)
    &&& is_last == (end >= ciphertext.len())
}

/// What the sender sends: the announcement of the transfer, then the
/// ciphertext in chunks of at most `MAX_BLOB_CHUNK_BYTES`, the last marked.
pub fn direct_transfer_envelopes(
    transfer_id: &str,
    file_name: &str,
    mime_type: &str,
    ciphertext: &[u8],
    digest_hex: &str,
) -> (r: Vec<DirectTransferEnvelope>)
    ensures
        r@.len() == 1 + chunk_count(ciphertext@.len()),
        r@[0] matches DirectTransferEnvelope::Meta { transfer_id: t, file_name: f, mime_type: m, sha256_hex: h, total_bytes }
            && t@ == transfer_id@ && f@ == file_name@ && m@ == mime_type@ && h@ == digest_hex@ && total_bytes
            == ciphertext@.len(),
        forall|i: int| 1 <= i < r@.len() ==> direct_chunk_at(#[trigger] r@[i], ciphertext@, i - 1),
{
    let n = ciphertext.len();
    let mut out: Vec<DirectTransferEnvelope> = Vec::new();
    out.push(DirectTransferEnvelope::Meta {
        transfer_id: owned(transfer_id),
        file_name: owned(file_name),
        mime_type: owned(mime_type),
        sha256_hex: owned(digest_hex),
        total_bytes: n as u64,
    });
    let mut offset: usize = 0;
    let mut index: usize = 0;
    while offset < n
        invariant
            n == ciphertext@.len(),
            offset <= n,
            offset < n ==> offset == index * 65536,
            offset == n ==> index == chunk_count(n as nat),
            n == 0 ==> index == 0,
            out@.len() == index + 1,
            out@[0] matches DirectTransferEnvelope::Meta { transfer_id: t, file_name: f, mime_type: m, sha256_hex: h, total_bytes }
                && t@ == transfer_id@ && f@ == file_name@ && m@ == mime_type@ && h@ == digest_hex@ && total_bytes
                == ciphertext@.len(),
            forall|i: int| 1 <= i < out@.len() ==> direct_chunk_at(#[trigger] out@[i], ciphertext@, i - 1),
        decreases n - offset,
    {
        let end: usize = if n - offset > 65536 { offset + 65536 } else { n };
        proof {
            let k = index as int;
            if end == n {
                assert(chunk_count(n as nat) == k + 1) by (nonlinear_arith)
                    requires
                        k * 65536 < n,
                        n <= k * 65536 + 65536,
                {
                }
            }
        }
        out.push(DirectTransferEnvelope::Chunk {
            offset: offset as u64,
            bytes: copy_range(ciphertext, offset, end),
            is_last: end >= n,
        });
        offset = end;
        index = index + 1;
    }
    proof {
        if n == 0 {
            assert(chunk_count(0) == 0);
        }
    }
    out
}

/// The receiver's side of a direct transfer it expects.
pub struct DirectTransferReceiver {
    transfer_id: String,
    file_name: String,
    mime_type: String,
    expected_sha256_hex: String,
    announced: Option<(u64, String)>,
    received: Vec<u8>,
}

/// Whether a transfer goes on or has ended, well or with an error.
#[derive(Debug, PartialEq, Eq)]
pub enum TransferStep {
    Continue,
    Done(Result<(), String>),
}

/// The error a transfer ended with.
pub open spec fn failed_with(r: TransferStep, e: Seq<char>) -> bool {
    r matches TransferStep::Done(Err(x)) && x@ == e
}

impl DirectTransferReceiver {
    pub closed spec fn expected_id(&self) -> Seq<char> {
        self.transfer_id@
    }

    pub closed spec fn expected_name(&self) -> Seq<char> {
        self.file_name@
    }

    pub closed spec fn expected_mime(&self) -> Seq<char> {
        self.mime_type@
    }

    pub closed spec fn expected_digest(&self) -> Seq<char> {
        self.expected_sha256_hex@
    }

    /// The announced length and digest, once the announcement came.
    pub closed spec fn announcement(&self) -> Option<(u64, Seq<char>)> {
        match self.announced {
            Some((n, h)) => Some((n, h@)),
            None => None,
        }
    }

    /// The bytes received so far.
    pub closed spec fn received_spec(&self) -> Seq<u8> {
        self.received@
    }

    /// A receiver expecting the transfer of this id, name, type and digest.
    pub fn new(transfer_id: &str, file_name: &str, mime_type: &str, expected_sha256_hex: &str) -> (r: DirectTransferReceiver)
        ensures
            r.expected_id() == transfer_id@,
            r.expected_name() == file_name@,
            r.expected_mime() == mime_type@,
            r.expected_digest() == expected_sha256_hex@,
            r.announcement() is None,
            r.received_spec() == Seq::<u8>::empty(),
    {
        DirectTransferReceiver {
            transfer_id: owned(transfer_id),
            file_name: owned(file_name),
            mime_type: owned(mime_type),
            expected_sha256_hex: owned(expected_sha256_hex),
            announced: None,
            received: Vec::new(),
        }
    }

    /// Takes one envelope. First must come the announcement, of the expected
    /// id, name and type; then chunks, each starting where the received
    /// bytes end. After the last chunk the bytes must be as many as
    /// announced, and the announced digest must be both the expected one and
    /// the digest of the bytes. Any other envelope ends the transfer with an
    /// error.
    pub fn on_envelope(&mut self, envelope: DirectTransferEnvelope) -> (r: TransferStep)
        ensures
            final(self).expected_id() == old(self).expected_id(),
            final(self).expected_name() == old(self).expected_name(),
            final(self).expected_mime() == old(self).expected_mime(),
            final(self).expected_digest() == old(self).expected_digest(),
            match (old(self).announcement(), envelope) {
                (None, DirectTransferEnvelope::Meta { transfer_id, file_name, mime_type, sha256_hex, total_bytes }) => {
                    if transfer_id@ != old(self).expected_id() {
                        failed_with(r, "direct transfer id mismatch"@)
                    } else if file_name@ != old(self).expected_name() || mime_type@ != old(self).expected_mime() {
                        failed_with(r, "direct transfer metadata mismatch"@)
                    } else {
                        r == TransferStep::Continue && final(self).announcement() == Some((total_bytes, sha256_hex@))
                            && final(self).received_spec() == old(self).received_spec()
                    }
                },
                (None, DirectTransferEnvelope::Chunk { .. }) => failed_with(r, "expected metadata frame first"@),
                (Some(_), DirectTransferEnvelope::Meta { .. }) => failed_with(
                    r,
                    "unexpected metadata envelope during transfer"@,
                ),
                (Some((total, claimed)), DirectTransferEnvelope::Chunk { offset, bytes, is_last }) => {
                    let all = old(self).received_spec() + bytes@;
                    if offset != old(self).received_spec().len() {
                        failed_with(r, "direct transfer chunk order mismatch"@)
                    } else if !is_last {
                        r == TransferStep::Continue && final(self).received_spec() == all
                            && final(self).announcement() == old(self).announcement()
                    } else if all.len() != total {
                        failed_with(r, "direct transfer length mismatch"@)
                    } else if claimed != old(self).expected_digest() || claimed != hex_spec(sha256(all)) {
                        failed_with(r, "direct transfer digest mismatch"@)
                    } else {
                        r == TransferStep::Done(Ok(())) && final(self).received_spec() == all
                    }
                },
            },
    {
        match envelope {
            DirectTransferEnvelope::Meta { transfer_id, file_name, mime_type, sha256_hex, total_bytes } => {
                if self.announced.is_some() {
                    return TransferStep::Done(Err(owned("unexpected metadata envelope during transfer")));
                }
                if !str_eq(transfer_id.as_str(), self.transfer_id.as_str()) {
                    return TransferStep::Done(Err(owned("direct transfer id mismatch")));
                }
                if !str_eq(file_name.as_str(), self.file_name.as_str()) || !str_eq(mime_type.as_str(), self.mime_type.as_str()) {
                    return TransferStep::Done(Err(owned("direct transfer metadata mismatch")));
                }
                self.announced = Some((total_bytes, sha256_hex));
                TransferStep::Continue
            },
            DirectTransferEnvelope::Chunk { offset, bytes, is_last } => {
                let (total, matches_expected) = match &self.announced {
                    None => {
                        return TransferStep::Done(Err(owned("expected metadata frame first")));
                    },
                    Some((total, claimed)) => (*total, str_eq(claimed.as_str(), self.expected_sha256_hex.as_str())),
                };
                if offset != self.received.len() as u64 {
                    return TransferStep::Done(Err(owned("direct transfer chunk order mismatch")));
                }
                extend_bytes(&mut self.received, bytes.as_slice());
                if !is_last {
                    return TransferStep::Continue;
                }
                if self.received.len() as u64 != total {
                    return TransferStep::Done(Err(owned("direct transfer length mismatch")));
                }
                let actual = sha256_hex(self.received.as_slice());
                let claimed_ok = match &self.announced {
                    Some((_, claimed)) => matches_expected && str_eq(claimed.as_str(), actual.as_str()),
                    None => false,
                };
                if !claimed_ok {
                    return TransferStep::Done(Err(owned("direct transfer digest mismatch")));
                }
                TransferStep::Done(Ok(()))
            },
        }
    }
}

/// What the sender reports of a transfer that went through.
pub fn direct_receipt(transfer_id: String, ciphertext_len: usize, digest_hex: String) -> (r: DirectTransferReceipt)
    ensures
        r.transfer_id == transfer_id,
        r.transferred_bytes == ciphertext_len as u64,
        r.sha256_hex == digest_hex,
{
    DirectTransferReceipt { transfer_id, transferred_bytes: ciphertext_len as u64, sha256_hex: digest_hex }
}

} // verus!
