//! The text of a peer's address as the interface shows it: dotted decimal
//! for IPv4; for IPv6, lower-case hex groups with the first longest run of
//! two or more zero groups shortened to `::`, and IPv4-mapped addresses as
//! `::ffff:` and the IPv4 address; a port after a colon, an IPv6 address
//! then in brackets.

use vstd::prelude::*;
use crate::discovery::peer::{IpAddress, SocketAddress};
use crate::text::{decimal_spec, hex_char, owned, push_decimal, push_hex_digit, push_str};

verus! {

/// Lower-case hex of a number without leading zeros (`0` for zero).
pub open spec fn hex_number(n: nat) -> Seq<char>
    decreases n,
{
    if n < 16 {
        seq![hex_char(n as int)]
    } else {
        hex_number(n / 16).push(hex_char((n % 16) as int))
    }
}

fn push_hex_number(out: &mut String, n: u16)
    ensures
        final(out)@ == old(out)@ + hex_number(n as nat),
    decreases n,
{
    if n < 16 {
        push_hex_digit(out, n as u8);
        assert(final(out)@ =~= old(out)@ + hex_number(n as nat));
    } else {
        push_hex_number(out, n / 16);
        push_hex_digit(out, (n % 16) as u8);
        assert(final(out)@ =~= old(out)@ + hex_number(n as nat));
    }
}

/// Groups in hex, separated by colons.
pub open spec fn joined_groups(groups: Seq<u16>) -> Seq<char>
    decreases groups.len(),
{
    if groups.len() == 0 {
        Seq::empty()
    } else if groups.len() == 1 {
        hex_number(groups[0] as nat)
    } else {
        joined_groups(groups.drop_last()) + ":"@ + hex_number(groups.last() as nat)
    }
}

/// The number of zero groups the groups end with.
pub open spec fn trailing_zero_groups(groups: Seq<u16>) -> nat
    decreases groups.len(),
{
    if groups.len() > 0 && groups.last() == 0 {
        trailing_zero_groups(groups.drop_last()) + 1
    } else {
        0
    }
}

/// The first longest run of zero groups, as its start and length (a length
/// of zero when there is none).
pub open spec fn longest_zero_run(groups: Seq<u16>) -> (int, int)
    decreases groups.len(),
{
    if groups.len() == 0 {
        (0, 0)
    } else {
        let best = longest_zero_run(groups.drop_last());
        let run = trailing_zero_groups(groups) as int;
        if run > best.1 {
            (groups.len() - run, run)
        } else {
            best
        }
    }
}

/// The eight 16-bit groups of an IPv6 address.
pub open spec fn ipv6_groups(b: Seq<u8>) -> Seq<u16> {
    Seq::new(8, |i: int| (b[2 * i] * 256 + b[2 * i + 1]) as u16)
}

/// Dotted decimal.
pub open spec fn ipv4_text(b: Seq<u8>) -> Seq<char> {
    decimal_spec(b[0] as nat) + "."@ + decimal_spec(b[1] as nat) + "."@ + decimal_spec(b[2] as nat) + "."@
        + decimal_spec(b[3] as nat)
}

/// The address is an IPv4 address mapped into IPv6 (`::ffff:a.b.c.d`).
pub open spec fn ipv4_mapped(b: Seq<u8>) -> bool {
    &&& forall|i: int| 0 <= i < 10 ==> b[i] == 0
    &&& b[10] == 0xff
    &&& b[11] == 0xff
}

/// The text of an IPv6 address.
pub open spec fn ipv6_text(b: Seq<u8>) -> Seq<char> {
    if ipv4_mapped(b) {
        "::ffff:"@ + ipv4_text(b.subrange(12, 16))
    } else {
        let groups = ipv6_groups(b);
        let (start, len) = longest_zero_run(groups);
        if len > 1 {
            joined_groups(groups.subrange(0, start)) + "::"@ + joined_groups(groups.subrange(start + len, 8))
        } else {
            joined_groups(groups)
        }
    }
}

/// The text of an address and port.
pub open spec fn socket_address_text(a: SocketAddress) -> Seq<char> {
    match a.ip {
        IpAddress::V4(b) => ipv4_text(b@) + ":"@ + decimal_spec(a.port as nat),
        IpAddress::V6(b) => "["@ + ipv6_text(b@) + "]:"@ + decimal_spec(a.port as nat),
    }
}

fn push_ipv4(out: &mut String, b: &[u8; 4])
    ensures
        final(out)@ == old(out)@ + ipv4_text(b@),
{
    push_decimal(out, b[0] as u64);
    push_str(out, ".");
    push_decimal(out, b[1] as u64);
    push_str(out, ".");
    push_decimal(out, b[2] as u64);
    push_str(out, ".");
    push_decimal(out, b[3] as u64);
    assert(final(out)@ =~= old(out)@ + ipv4_text(b@));
}

fn push_groups(out: &mut String, groups: &Vec<u16>, from: usize, to: usize)
    requires
        from <= to <= groups@.len(),
    ensures
        final(out)@ == old(out)@ + joined_groups(groups@.subrange(from as int, to as int)),
{
    let mut i: usize = from;
    while i < to
        invariant
            from <= i <= to <= groups@.len(),
            out@ == old(out)@ + joined_groups(groups@.subrange(from as int, i as int)),
        decreases to - i,
    {
        let ghost before = out@;
        if i > from {
            push_str(out, ":");
        }
        push_hex_number(out, groups[i]);
        proof {
            let s = groups@.subrange(from as int, i + 1);
            assert(s.drop_last() =~= groups@.subrange(from as int, i as int));
            assert(s.last() == groups@[i as int]);
            if i == from {
                assert(groups@.subrange(from as int, i as int) =~= Seq::<u16>::empty());
            }
            assert(out@ =~= old(out)@ + joined_groups(s));
        }
        i = i + 1;
    }
}

fn push_ipv6(out: &mut String, b: &[u8; 16])
    ensures
        final(out)@ == old(out)@ + ipv6_text(b@),
{
    let mut mapped = b[10] == 0xff && b[11] == 0xff;
    let mut k: usize = 0;
    while k < 10
        invariant
            k <= 10,
            mapped ==> forall|i: int| 0 <= i < k ==> b@[i] == 0,
            mapped ==> b@[10] == 0xff && b@[11] == 0xff,
            !mapped ==> !ipv4_mapped(b@),
        decreases 10 - k,
    {
        if b[k] != 0 {
            mapped = false;
        }
        k = k + 1;
    }
    if mapped {
        push_str(out, "::ffff:");
        let v4: [u8; 4] = [b[12], b[13], b[14], b[15]];
        assert(v4@ =~= b@.subrange(12, 16));
        push_ipv4(out, &v4);
        return;
    }
    let mut groups: Vec<u16> = Vec::new();
    let mut g: usize = 0;
    while g < 8
        invariant
            g <= 8,
            groups@.len() == g,
            forall|i: int| 0 <= i < g ==> groups@[i] == ipv6_groups(b@)[i],
        decreases 8 - g,
    {
        let value: u16 = (b[2 * g] as u16) * 256 + (b[2 * g + 1] as u16);
        groups.push(value);
        g = g + 1;
    }
    assert(groups@ =~= ipv6_groups(b@));
    let mut best_start: usize = 0;
    let mut best_len: usize = 0;
    let mut cur_len: usize = 0;
    let mut i: usize = 0;
    assert(groups@.take(0) =~= Seq::<u16>::empty());
    while i < 8
        invariant
            i <= 8,
            groups@.len() == 8,
            (best_start as int, best_len as int) == longest_zero_run(groups@.take(i as int)),
            cur_len == trailing_zero_groups(groups@.take(i as int)),
            cur_len <= i,
            best_start + best_len <= i,
        decreases 8 - i,
    {
        proof {
            assert(groups@.take(i + 1).drop_last() =~= groups@.take(i as int));
            assert(groups@.take(i + 1).last() == groups@[i as int]);
        }
        if groups[i] == 0 {
            cur_len = cur_len + 1;
            if cur_len > best_len {
                best_len = cur_len;
                best_start = i + 1 - cur_len;
            }
        } else {
            cur_len = 0;
        }
        i = i + 1;
    }
    assert(groups@.take(8) =~= groups@);
    if best_len > 1 {
        push_groups(out, &groups, 0, best_start);
        push_str(out, "::");
        push_groups(out, &groups, best_start + best_len, 8);
    } else {
        push_groups(out, &groups, 0, 8);
        assert(groups@.subrange(0, 8) =~= groups@);
    }
}

/// The text of an address and port (see `socket_address_text`).
pub fn socket_address_string(a: &SocketAddress) -> (r: String)
    ensures
        r@ == socket_address_text(*a),
{
    let mut out = String::new();
    match &a.ip {
        IpAddress::V4(b) => {
            push_ipv4(&mut out, b);
            push_str(&mut out, ":");
        },
        IpAddress::V6(b) => {
            push_str(&mut out, "[");
            push_ipv6(&mut out, b);
            push_str(&mut out, "]:");
        },
    }
    push_decimal(&mut out, a.port as u64);
    out
}

} // verus!
