//! Fixed-size byte arrays cut from byte sequences, and byte-string building.

use vstd::prelude::*;

verus! {

/// The 32 bytes of `v` starting at `start`.
pub fn array32_at(v: &[u8], start: usize) -> (r: [u8; 32])
    requires
        start + 32 <= v@.len(),
    ensures
        r@ == v@.subrange(start as int, start + 32),
{
    let mut a = [0u8; 32];
    let n = v.len();
    let mut i: usize = 0;
    while i < 32
        invariant
            n == v@.len(),
            i <= 32,
            start + 32 <= v@.len(),
            forall|j: int| 0 <= j < i ==> a@[j] == v@[start + j],
        decreases 32 - i,
    {
        a[i] = v[start + i];
        i = i + 1;
    }
    assert(a@ =~= v@.subrange(start as int, start + 32));
    a
}

/// The 12 bytes of `v` starting at `start`.
pub fn array12_at(v: &[u8], start: usize) -> (r: [u8; 12])
    requires
        start + 12 <= v@.len(),
    ensures
        r@ == v@.subrange(start as int, start + 12),
{
    let mut a = [0u8; 12];
    let n = v.len();
    let mut i: usize = 0;
    while i < 12
        invariant
            n == v@.len(),
            i <= 12,
            start + 12 <= v@.len(),
            forall|j: int| 0 <= j < i ==> a@[j] == v@[start + j],
        decreases 12 - i,
    {
        a[i] = v[start + i];
        i = i + 1;
    }
    assert(a@ =~= v@.subrange(start as int, start + 12));
    a
}

/// The 64 bytes of `v` starting at `start`.
pub fn array64_at(v: &[u8], start: usize) -> (r: [u8; 64])
    requires
        start + 64 <= v@.len(),
    ensures
        r@ == v@.subrange(start as int, start + 64),
{
    let mut a = [0u8; 64];
    let n = v.len();
    let mut i: usize = 0;
    while i < 64
        invariant
            n == v@.len(),
            i <= 64,
            start + 64 <= v@.len(),
            forall|j: int| 0 <= j < i ==> a@[j] == v@[start + j],
        decreases 64 - i,
    {
        a[i] = v[start + i];
        i = i + 1;
    }
    assert(a@ =~= v@.subrange(start as int, start + 64));
    a
}

/// Appends all of `tail` to `out`.
pub fn extend_bytes(out: &mut Vec<u8>, tail: &[u8])
    ensures
        final(out)@ == old(out)@ + tail@,
{
    let n = tail.len();
    let mut i: usize = 0;
    while i < n
        invariant
            n == tail@.len(),
            i <= n,
            out@ == old(out)@ + tail@.subrange(0, i as int),
        decreases n - i,
    {
        out.push(tail[i]);
        i = i + 1;
        assert(tail@.subrange(0, i as int) =~= tail@.subrange(0, i - 1).push(tail@[i - 1]));
    }
    assert(tail@.subrange(0, n as int) =~= tail@);
}

/// A fresh copy of a byte slice.
pub fn to_vec(s: &[u8]) -> (r: Vec<u8>)
    ensures
        r@ == s@,
{
    let mut out: Vec<u8> = Vec::new();
    extend_bytes(&mut out, s);
    assert(out@ =~= s@);
    out
}

/// Byte-wise equality.
pub fn bytes_eq(a: &[u8], b: &[u8]) -> (r: bool)
    ensures
        r == (a@ == b@),
{
    if a.len() != b.len() {
        return false;
    }
    let n = a.len();
    let mut i: usize = 0;
    while i < n
        invariant
            n == a@.len(),
            n == b@.len(),
            i <= n,
            forall|j: int| 0 <= j < i ==> a@[j] == b@[j],
        decreases n - i,
    {
        if a[i] != b[i] {
            return false;
        }
        i = i + 1;
    }
    assert(a@ =~= b@);
    true
}

/// The big-endian bytes of a `u32`.
pub open spec fn u32_be_spec(x: u32) -> Seq<u8> {
    seq![(x / 0x1000000) as u8, ((x / 0x10000) % 0x100) as u8, ((x / 0x100) % 0x100) as u8, (x % 0x100) as u8]
}

pub fn u32_be(x: u32) -> (r: [u8; 4])
    ensures
        r@ == u32_be_spec(x),
{
    let r = [(x / 0x1000000) as u8, ((x / 0x10000) % 0x100) as u8, ((x / 0x100) % 0x100) as u8, (x % 0x100) as u8];
    assert(r@ =~= u32_be_spec(x));
    r
}

/// The little-endian bytes of a `u32`.
pub open spec fn u32_le_spec(x: u32) -> Seq<u8> {
    seq![(x % 0x100) as u8, ((x / 0x100) % 0x100) as u8, ((x / 0x10000) % 0x100) as u8, (x / 0x1000000) as u8]
}

pub fn u32_le(x: u32) -> (r: [u8; 4])
    ensures
        r@ == u32_le_spec(x),
{
    let r = [(x % 0x100) as u8, ((x / 0x100) % 0x100) as u8, ((x / 0x10000) % 0x100) as u8, (x / 0x1000000) as u8];
    assert(r@ =~= u32_le_spec(x));
    r
}

} // verus!
