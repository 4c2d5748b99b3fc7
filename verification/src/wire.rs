//! The binary layout of sender-key distributions, group messages and QR
//! payloads: integers as fixed-width little-endian bytes, strings and byte
//! strings behind a 64-bit little-endian length, fixed-size arrays as their
//! raw bytes, fields one after the other.  Every parser returns the value and
//! the bytes that follow it; bytes left after the last field are ignored.

use vstd::prelude::*;
use vstd::utf8::{decode_utf8, encode_utf8, valid_utf8};
use crate::bytes::{array32_at, extend_bytes, u32_le_spec, u32_le};
use crate::outside::string_from_utf8;

verus! {

broadcast use vstd::utf8::encode_utf8_decode_utf8, vstd::utf8::encode_utf8_valid_utf8;

/// The little-endian bytes of a `u64`.
pub closed spec fn u64_le_spec(x: u64) -> Seq<u8> {
    seq![
        (x % 0x100) as u8,
        ((x / 0x100) % 0x100) as u8,
        ((x / 0x1_0000) % 0x100) as u8,
        ((x / 0x100_0000) % 0x100) as u8,
        ((x / 0x1_0000_0000) % 0x100) as u8,
        ((x / 0x100_0000_0000) % 0x100) as u8,
        ((x / 0x1_0000_0000_0000) % 0x100) as u8,
        (x / 0x100_0000_0000_0000) as u8,
    ]
}

/// The value of the first four bytes, least significant first.
pub open spec fn le4(b: Seq<u8>) -> int {
    b[0] + 0x100 * b[1] + 0x1_0000 * b[2] + 0x100_0000 * b[3]
}

/// The value of the first eight bytes, least significant first.
pub open spec fn le8(b: Seq<u8>) -> int {
    le4(b) + 0x1_0000_0000 * le4(b.skip(4))
}

/// A byte string behind its length.
pub closed spec fn bytes_frame(d: Seq<u8>) -> Seq<u8> {
    u64_le_spec(d.len() as u64) + d
}

/// A string as its UTF-8 bytes behind their length.
pub closed spec fn text_frame(s: Seq<char>) -> Seq<u8> {
    bytes_frame(encode_utf8(s))
}

#[verifier::opaque]
pub open spec fn parse_u8(b: Seq<u8>) -> Option<(u8, Seq<u8>)> {
    if b.len() >= 1 {
        Some((b[0], b.skip(1)))
    } else {
        None
    }
}

#[verifier::opaque]
pub open spec fn parse_u32(b: Seq<u8>) -> Option<(u32, Seq<u8>)> {
    if b.len() >= 4 {
        Some((le4(b) as u32, b.skip(4)))
    } else {
        None
    }
}

#[verifier::opaque]
pub open spec fn parse_u64(b: Seq<u8>) -> Option<(u64, Seq<u8>)> {
    if b.len() >= 8 {
        Some((le8(b) as u64, b.skip(8)))
    } else {
        None
    }
}

#[verifier::opaque]
pub open spec fn parse_i64(b: Seq<u8>) -> Option<(i64, Seq<u8>)> {
    match parse_u64(b) {
        Some((v, rest)) => Some((v as i64, rest)),
        None => None,
    }
}

#[verifier::opaque]
pub open spec fn parse_array32(b: Seq<u8>) -> Option<(Seq<u8>, Seq<u8>)> {
    if b.len() >= 32 {
        Some((b.take(32), b.skip(32)))
    } else {
        None
    }
}

#[verifier::opaque]
pub open spec fn parse_bytes(b: Seq<u8>) -> Option<(Seq<u8>, Seq<u8>)> {
    match parse_u64(b) {
        Some((n, rest)) => if n <= rest.len() {
            Some((rest.take(n as int), rest.skip(n as int)))
        } else {
            None
        },
        None => None,
    }
}

#[verifier::opaque]
pub open spec fn parse_text(b: Seq<u8>) -> Option<(Seq<char>, Seq<u8>)> {
    match parse_bytes(b) {
        Some((d, rest)) => if valid_utf8(d) {
            Some((decode_utf8(d), rest))
        } else {
            None
        },
        None => None,
    }
}

pub proof fn lemma_frame_lengths(x: u64, d: Seq<u8>, s: Seq<char>)
    ensures
        u64_le_spec(x).len() == 8,
        bytes_frame(d).len() == 8 + d.len(),
        text_frame(s).len() == 8 + encode_utf8(s).len(),
{
}

pub proof fn lemma_parse_u8(v: u8, rest: Seq<u8>)
    ensures
        parse_u8(seq![v] + rest) == Some((v, rest)),
{
    reveal(parse_u8);
    assert((seq![v] + rest).skip(1) =~= rest);
}

pub proof fn lemma_parse_u32(x: u32, rest: Seq<u8>)
    ensures
        parse_u32(u32_le_spec(x) + rest) == Some((x, rest)),
{
    reveal(parse_u32);
    let b = u32_le_spec(x) + rest;
    assert(b.skip(4) =~= rest);
    assert(x == (x % 0x100) as u8 + 0x100 * (((x / 0x100) % 0x100) as u8) + 0x1_0000 * (((x / 0x1_0000) % 0x100) as u8)
        + 0x100_0000 * ((x / 0x100_0000) as u8)) by (bit_vector);
}

pub proof fn lemma_parse_u64(x: u64, rest: Seq<u8>)
    ensures
        parse_u64(u64_le_spec(x) + rest) == Some((x, rest)),
{
    reveal(parse_u64);
    let b = u64_le_spec(x) + rest;
    assert(b.skip(8) =~= rest);
    assert(x == (x % 0x100) as u8 + 0x100 * (((x / 0x100) % 0x100) as u8) + 0x1_0000 * (((x / 0x1_0000) % 0x100) as u8)
        + 0x100_0000 * (((x / 0x100_0000) % 0x100) as u8) + 0x1_0000_0000 * ((
    ((x / 0x1_0000_0000) % 0x100) as u8) + 0x100 * (((x / 0x100_0000_0000) % 0x100) as u8) + 0x1_0000 * (((x
        / 0x1_0000_0000_0000) % 0x100) as u8) + 0x100_0000 * ((x / 0x100_0000_0000_0000) as u8))) by (bit_vector);
}

pub proof fn lemma_parse_i64(x: i64, rest: Seq<u8>)
    ensures
        parse_i64(u64_le_spec(x as u64) + rest) == Some((x, rest)),
{
    reveal(parse_i64);
    lemma_parse_u64(x as u64, rest);
    assert(((x as u64) as i64) == x) by (bit_vector);
}

pub proof fn lemma_parse_array32(d: Seq<u8>, rest: Seq<u8>)
    requires
        d.len() == 32,
    ensures
        parse_array32(d + rest) == Some((d, rest)),
{
    reveal(parse_array32);
    assert((d + rest).take(32) =~= d);
    assert((d + rest).skip(32) =~= rest);
}

pub proof fn lemma_parse_bytes(d: Seq<u8>, rest: Seq<u8>)
    requires
        d.len() <= u64::MAX,
    ensures
        parse_bytes(bytes_frame(d) + rest) == Some((d, rest)),
{
    reveal(parse_bytes);
    let n = d.len() as u64;
    assert(bytes_frame(d) + rest =~= u64_le_spec(n) + (d + rest));
    lemma_parse_u64(n, d + rest);
    assert((d + rest).take(n as int) =~= d);
    assert((d + rest).skip(n as int) =~= rest);
}

pub proof fn lemma_parse_text(s: Seq<char>, rest: Seq<u8>)
    requires
        encode_utf8(s).len() <= u64::MAX,
    ensures
        parse_text(text_frame(s) + rest) == Some((s, rest)),
{
    reveal(parse_text);
    lemma_parse_bytes(encode_utf8(s), rest);
}

/// Appends the little-endian bytes of `x`.
pub fn write_u64(out: &mut Vec<u8>, x: u64)
    ensures
        final(out)@ == old(out)@ + u64_le_spec(x),
{
    let a: [u8; 8] = [
        (x % 0x100) as u8,
        ((x / 0x100) % 0x100) as u8,
        ((x / 0x1_0000) % 0x100) as u8,
        ((x / 0x100_0000) % 0x100) as u8,
        ((x / 0x1_0000_0000) % 0x100) as u8,
        ((x / 0x100_0000_0000) % 0x100) as u8,
        ((x / 0x1_0000_0000_0000) % 0x100) as u8,
        (x / 0x100_0000_0000_0000) as u8,
    ];
    assert(a@ =~= u64_le_spec(x));
    extend_bytes(out, &a);
}

/// Appends the little-endian bytes of `x`.
pub fn write_u32(out: &mut Vec<u8>, x: u32)
    ensures
        final(out)@ == old(out)@ + u32_le_spec(x),
{
    let a = u32_le(x);
    extend_bytes(out, &a);
}

/// Appends a byte string behind its length.
pub fn write_bytes(out: &mut Vec<u8>, d: &[u8])
    ensures
        final(out)@ == old(out)@ + bytes_frame(d@),
{
    write_u64(out, d.len() as u64);
    extend_bytes(out, d);
    assert(final(out)@ =~= old(out)@ + bytes_frame(d@));
}

/// Appends a string as its UTF-8 bytes behind their length.
pub fn write_text(out: &mut Vec<u8>, s: &str)
    ensures
        final(out)@ == old(out)@ + text_frame(s@),
        encode_utf8(s@).len() <= usize::MAX,
{
    let b = s.as_bytes();
    let n = b.len();
    assert(n == encode_utf8(s@).len());
    write_bytes(out, b);
}

pub fn read_u8(b: &[u8], p: usize) -> (r: Option<(u8, usize)>)
    requires
        p <= b@.len(),
    ensures
        match r {
            Some((v, q)) => q <= b@.len() && parse_u8(b@.skip(p as int)) == Some((v, b@.skip(q as int))),
            None => parse_u8(b@.skip(p as int)) is None,
        },
{
    reveal(parse_u8);
    if b.len() - p < 1 {
        return None;
    }
    assert(b@.skip(p as int).skip(1) =~= b@.skip(p + 1));
    Some((b[p], p + 1))
}

pub fn read_u32(b: &[u8], p: usize) -> (r: Option<(u32, usize)>)
    requires
        p <= b@.len(),
    ensures
        match r {
            Some((v, q)) => q <= b@.len() && parse_u32(b@.skip(p as int)) == Some((v, b@.skip(q as int))),
            None => parse_u32(b@.skip(p as int)) is None,
        },
{
    reveal(parse_u32);
    if b.len() - p < 4 {
        return None;
    }
    let v: u32 = b[p] as u32 + 0x100 * (b[p + 1] as u32) + 0x1_0000 * (b[p + 2] as u32) + 0x100_0000 * (b[p + 3] as u32);
    assert(b@.skip(p as int).skip(4) =~= b@.skip(p + 4));
    Some((v, p + 4))
}

pub fn read_u64(b: &[u8], p: usize) -> (r: Option<(u64, usize)>)
    requires
        p <= b@.len(),
    ensures
        match r {
            Some((v, q)) => q <= b@.len() && parse_u64(b@.skip(p as int)) == Some((v, b@.skip(q as int))),
            None => parse_u64(b@.skip(p as int)) is None,
        },
{
    reveal(parse_u64);
    if b.len() - p < 8 {
        return None;
    }
    let lo: u64 = b[p] as u64 + 0x100 * (b[p + 1] as u64) + 0x1_0000 * (b[p + 2] as u64) + 0x100_0000 * (b[p + 3] as u64);
    let hi: u64 = b[p + 4] as u64 + 0x100 * (b[p + 5] as u64) + 0x1_0000 * (b[p + 6] as u64) + 0x100_0000 * (b[p + 7] as u64);
    let v: u64 = lo + 0x1_0000_0000 * hi;
    let ghost t = b@.skip(p as int);
    assert(t.skip(4)[0] == t[4] && t.skip(4)[1] == t[5] && t.skip(4)[2] == t[6] && t.skip(4)[3] == t[7]);
    assert(t.skip(8) =~= b@.skip(p + 8));
    Some((v, p + 8))
}

pub fn read_i64(b: &[u8], p: usize) -> (r: Option<(i64, usize)>)
    requires
        p <= b@.len(),
    ensures
        match r {
            Some((v, q)) => q <= b@.len() && parse_i64(b@.skip(p as int)) == Some((v, b@.skip(q as int))),
            None => parse_i64(b@.skip(p as int)) is None,
        },
{
    reveal(parse_i64);
    match read_u64(b, p) {
        Some((v, q)) => Some((v as i64, q)),
        None => None,
    }
}

pub fn read_array32(b: &[u8], p: usize) -> (r: Option<([u8; 32], usize)>)
    requires
        p <= b@.len(),
    ensures
        match r {
            Some((v, q)) => q <= b@.len() && parse_array32(b@.skip(p as int)) == Some((v@, b@.skip(q as int))),
            None => parse_array32(b@.skip(p as int)) is None,
        },
{
    reveal(parse_array32);
    if b.len() - p < 32 {
        return None;
    }
    let a = array32_at(b, p);
    assert(b@.skip(p as int).take(32) =~= a@);
    assert(b@.skip(p as int).skip(32) =~= b@.skip(p + 32));
    Some((a, p + 32))
}

/// The bytes of `b` from `start` up to `end`.
pub fn copy_range(b: &[u8], start: usize, end: usize) -> (r: Vec<u8>)
    requires
        start <= end <= b@.len(),
    ensures
        r@ == b@.subrange(start as int, end as int),
{
    let mut out: Vec<u8> = Vec::new();
    let mut i: usize = start;
    while i < end
        invariant
            start <= i <= end <= b@.len(),
            out@ == b@.subrange(start as int, i as int),
        decreases end - i,
    {
        out.push(b[i]);
        i = i + 1;
        assert(out@ =~= b@.subrange(start as int, i as int));
    }
    out
}

pub fn read_bytes(b: &[u8], p: usize) -> (r: Option<(Vec<u8>, usize)>)
    requires
        p <= b@.len(),
    ensures
        match r {
            Some((v, q)) => q <= b@.len() && parse_bytes(b@.skip(p as int)) == Some((v@, b@.skip(q as int))),
            None => parse_bytes(b@.skip(p as int)) is None,
        },
{
    reveal(parse_bytes);
    let (n, q) = match read_u64(b, p) {
        Some(x) => x,
        None => return None,
    };
    let avail = b.len() - q;
    if n > avail as u64 {
        return None;
    }
    let n = n as usize;
    let d = copy_range(b, q, q + n);
    assert(b@.skip(q as int).take(n as int) =~= d@);
    assert(b@.skip(q as int).skip(n as int) =~= b@.skip(q + n));
    Some((d, q + n))
}

pub fn read_text(b: &[u8], p: usize) -> (r: Option<(String, usize)>)
    requires
        p <= b@.len(),
    ensures
        match r {
            Some((v, q)) => q <= b@.len() && parse_text(b@.skip(p as int)) == Some((v@, b@.skip(q as int))),
            None => parse_text(b@.skip(p as int)) is None,
        },
{
    reveal(parse_text);
    let (d, q) = match read_bytes(b, p) {
        Some(x) => x,
        None => return None,
    };
    match string_from_utf8(d) {
        Some(s) => Some((s, q)),
        None => None,
    }
}

#[verifier::opaque]
pub open spec fn parse_array12(b: Seq<u8>) -> Option<(Seq<u8>, Seq<u8>)> {
    if b.len() >= 12 {
        Some((b.take(12), b.skip(12)))
    } else {
        None
    }
}

pub proof fn lemma_parse_array12(d: Seq<u8>, rest: Seq<u8>)
    requires
        d.len() == 12,
    ensures
        parse_array12(d + rest) == Some((d, rest)),
{
    reveal(parse_array12);
    assert((d + rest).take(12) =~= d);
    assert((d + rest).skip(12) =~= rest);
}

pub fn read_array12(b: &[u8], p: usize) -> (r: Option<([u8; 12], usize)>)
    requires
        p <= b@.len(),
    ensures
        match r {
            Some((v, q)) => q <= b@.len() && parse_array12(b@.skip(p as int)) == Some((v@, b@.skip(q as int))),
            None => parse_array12(b@.skip(p as int)) is None,
        },
{
    reveal(parse_array12);
    if b.len() - p < 12 {
        return None;
    }
    let a = crate::bytes::array12_at(b, p);
    assert(b@.skip(p as int).take(12) =~= a@);
    assert(b@.skip(p as int).skip(12) =~= b@.skip(p + 12));
    Some((a, p + 12))
}

} // verus!
