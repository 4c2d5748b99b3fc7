//! What decoding gives back of what encoding wrote.

use vstd::prelude::*;
use crate::discovery::peer::{
    capability_from_name_spec, capability_name_spec, joined_caps_spec, txt_records_spec,
    LocalPeerAnnouncement, PeerCapability,
};
use crate::discovery::txt::{
    all_digits_spec, digits_value, first_bad_record, parse_caps_spec, parse_u16_spec,
    split_commas, txt_decode_spec, txt_map_spec, unsigned_digits, TxtView,
};
use crate::ids::{identifier_text_check_spec, is_valid_identifier_spec};
use crate::text::{decimal_spec, digit_char, first_index_of, is_blank_spec, lemma_first_index_at};

verus! {

proof fn lemma_digit_char(k: int)
    requires
        0 <= k < 10,
    ensures
        crate::text::is_ascii_digit_spec(digit_char(k)),
        (digit_char(k) as int) - ('0' as int) == k,
{
}

proof fn lemma_decimal_digits(n: nat)
    ensures
        decimal_spec(n).len() > 0,
        all_digits_spec(decimal_spec(n)),
        digits_value(decimal_spec(n)) == n,
    decreases n,
{
    let d = decimal_spec(n);
    if n < 10 {
        lemma_digit_char(n as int);
        assert(d == seq![digit_char(n as int)]);
        assert(d.drop_last() =~= Seq::<char>::empty());
        assert(digits_value(d) == digits_value(d.drop_last()) * 10 + ((d.last() as int) - ('0' as int)) as nat);
    } else {
        lemma_decimal_digits(n / 10);
        lemma_digit_char((n % 10) as int);
        let e = decimal_spec(n / 10);
        assert(d == e.push(digit_char((n % 10) as int)));
        assert(d.drop_last() =~= e);
        assert(digits_value(d) == digits_value(e) * 10 + ((d.last() as int) - ('0' as int)) as nat);
        assert forall|i: int| 0 <= i < d.len() implies crate::text::is_ascii_digit_spec(#[trigger] d[i]) by {
            if i < e.len() {
                assert(d[i] == e[i]);
            }
        }
    }
}

proof fn lemma_parse_decimal(n: u16)
    ensures
        parse_u16_spec(decimal_spec(n as nat)) == Some(n),
{
    lemma_decimal_digits(n as nat);
    let d = decimal_spec(n as nat);
    assert(d[0] != '+');
    assert(unsigned_digits(d) == d);
}

pub open spec fn comma_free(s: Seq<char>) -> bool {
    forall|i: int| 0 <= i < s.len() ==> #[trigger] s[i] != ','
}

proof fn lemma_split_append(x: Seq<char>, y: Seq<char>)
    requires
        comma_free(y),
    ensures
        split_commas(x + y) == split_commas(x).update(
            split_commas(x).len() - 1,
            split_commas(x).last() + y,
        ),
        split_commas(x + y).len() == split_commas(x).len(),
    decreases y.len(),
{
    lemma_split_len(x);
    if y.len() == 0 {
        assert(x + y =~= x);
        assert(split_commas(x).last() + y =~= split_commas(x).last());
        assert(split_commas(x).update(split_commas(x).len() - 1, split_commas(x).last())
            =~= split_commas(x));
    } else {
        let y0 = y.drop_last();
        assert(comma_free(y0));
        lemma_split_append(x, y0);
        assert((x + y).drop_last() =~= x + y0);
        assert((x + y).last() == y.last());
        assert(y[y.len() - 1] != ',');
        let sx = split_commas(x);
        let mid = split_commas(x + y0);
        assert(mid == sx.update(sx.len() - 1, sx.last() + y0));
        assert(mid.last() == sx.last() + y0);
        assert(split_commas(x + y) == mid.update(mid.len() - 1, mid.last().push(y.last())));
        assert((sx.last() + y0).push(y.last()) =~= sx.last() + y);
        assert(split_commas(x + y) =~= sx.update(sx.len() - 1, sx.last() + y));
    }
}

proof fn lemma_split_len(s: Seq<char>)
    ensures
        split_commas(s).len() >= 1,
    decreases s.len(),
{
    if s.len() > 0 {
        lemma_split_len(s.drop_last());
    }
}

proof fn lemma_split_comma_then(x: Seq<char>, y: Seq<char>)
    requires
        comma_free(y),
    ensures
        split_commas(x + ","@ + y) == split_commas(x).push(y),
{
    reveal_strlit(",");
    let xc = x + ","@;
    assert(xc.drop_last() =~= x);
    assert(split_commas(xc) == split_commas(x).push(Seq::empty()));
    lemma_split_append(xc, y);
    assert(Seq::<char>::empty() + y =~= y);
    assert(split_commas(x).push(Seq::empty()).update(split_commas(x).len() as int, y)
        =~= split_commas(x).push(y));
}

proof fn lemma_names(c: PeerCapability)
    ensures
        capability_name_spec(c).len() > 0,
        comma_free(capability_name_spec(c)),
        capability_from_name_spec(capability_name_spec(c)) == Some(c),
{
    reveal_strlit("messaging-v1");
    reveal_strlit("files-v1");
    reveal_strlit("voice-v1");
    reveal_strlit("presence-v1");
    assert("messaging-v1"@ != "files-v1"@) by { assert("messaging-v1"@[0] != "files-v1"@[0]); }
    assert("messaging-v1"@ != "voice-v1"@) by { assert("messaging-v1"@[0] != "voice-v1"@[0]); }
    assert("messaging-v1"@ != "presence-v1"@) by { assert("messaging-v1"@[0] != "presence-v1"@[0]); }
    assert("files-v1"@ != "voice-v1"@) by { assert("files-v1"@[0] != "voice-v1"@[0]); }
    assert("files-v1"@ != "presence-v1"@) by { assert("files-v1"@[0] != "presence-v1"@[0]); }
    assert("voice-v1"@ != "presence-v1"@) by { assert("voice-v1"@[0] != "presence-v1"@[0]); }
}

proof fn lemma_caps_round_trip(caps: Seq<PeerCapability>)
    ensures
        parse_caps_spec(split_commas(joined_caps_spec(caps))) == Ok::<Seq<PeerCapability>, Seq<char>>(caps),
        caps.len() > 0 ==> split_commas(joined_caps_spec(caps)) == caps.map_values(
            |c: PeerCapability| capability_name_spec(c),
        ),
    decreases caps.len(),
{
    if caps.len() == 0 {
        let pieces = split_commas(joined_caps_spec(caps));
        assert(joined_caps_spec(caps) == Seq::<char>::empty());
        assert(pieces == seq![Seq::<char>::empty()]);
        assert(pieces.drop_last() =~= Seq::<Seq<char>>::empty());
        assert(parse_caps_spec(pieces.drop_last()) == Ok::<Seq<PeerCapability>, Seq<char>>(Seq::empty()));
        assert(pieces.last().len() == 0);
        assert(caps =~= Seq::<PeerCapability>::empty());
    } else if caps.len() == 1 {
        lemma_names(caps[0]);
        let n = capability_name_spec(caps[0]);
        assert(joined_caps_spec(caps) == n);
        lemma_split_append(Seq::empty(), n);
        assert(Seq::<char>::empty() + n =~= n);
        assert(split_commas(Seq::<char>::empty()) == seq![Seq::<char>::empty()]);
        assert(split_commas(n) =~= seq![n]);
        let pieces = seq![n];
        assert(pieces.drop_last() =~= Seq::<Seq<char>>::empty());
        assert(parse_caps_spec(pieces.drop_last()) == Ok::<Seq<PeerCapability>, Seq<char>>(Seq::empty()));
        assert(pieces.last() == n);
        assert(caps.map_values(|c: PeerCapability| capability_name_spec(c)) =~= seq![n]);
        assert(Seq::<PeerCapability>::empty().push(caps[0]) =~= caps);
    } else {
        let init = caps.drop_last();
        lemma_caps_round_trip(init);
        lemma_names(caps.last());
        let n = capability_name_spec(caps.last());
        lemma_split_comma_then(joined_caps_spec(init), n);
        let pieces = split_commas(joined_caps_spec(caps));
        assert(pieces == split_commas(joined_caps_spec(init)).push(n));
        assert(pieces.drop_last() =~= split_commas(joined_caps_spec(init)));
        assert(init.push(caps.last()) =~= caps);
        assert(pieces.last() == n);
        assert(parse_caps_spec(pieces.drop_last()) == Ok::<Seq<PeerCapability>, Seq<char>>(init));
        assert(pieces =~= caps.map_values(|c: PeerCapability| capability_name_spec(c))) by {
            assert forall|i: int| 0 <= i < pieces.len() implies pieces[i] == capability_name_spec(caps[i]) by {
                if i < init.len() {
                    assert(split_commas(joined_caps_spec(init)) == init.map_values(|c: PeerCapability| capability_name_spec(c)));
                    assert(pieces[i] == split_commas(joined_caps_spec(init))[i]);
                    assert(init[i] == caps[i]);
                }
            }
        }
    }
}

proof fn lemma_record_split(key: Seq<char>, value: Seq<char>)
    requires
        key.len() > 0,
        forall|i: int| 0 <= i < key.len() ==> #[trigger] key[i] != '=',
    ensures
        first_index_of(key + "="@ + value, '=') == Some(key.len() as int),
        (key + "="@ + value).subrange(0, key.len() as int) == key,
        (key + "="@ + value).subrange(key.len() as int + 1, (key + "="@ + value).len() as int) == value,
{
    reveal_strlit("=");
    let r = key + "="@ + value;
    assert forall|j: int| 0 <= j < key.len() implies #[trigger] r[j] != '=' by {
        assert(r[j] == key[j]);
    }
    lemma_first_index_at(r, '=', key.len() as int);
    assert(r.subrange(0, key.len() as int) =~= key);
    assert(r.subrange(key.len() as int + 1, r.len() as int) =~= value);
}

/// Decoding the TXT records of an announcement gives back its member id,
/// device id, device name, port and capabilities.
pub proof fn lemma_txt_round_trip(a: LocalPeerAnnouncement)
    requires
        is_valid_identifier_spec(a.member_id@),
        is_valid_identifier_spec(a.device_id@),
        a.port != 0,
    ensures
        txt_decode_spec(txt_records_spec(a)) == Ok::<TxtView, crate::discovery::peer::DiscoveryErrorView>(
            TxtView {
                member_id: a.member_id@,
                device_id: a.device_id@,
                device_name: a.device_name@,
                port: a.port,
                capabilities: a.capabilities@,
            },
        ),
{
    reveal_strlit("lmv=1");
    reveal_strlit("mid=");
    reveal_strlit("did=");
    reveal_strlit("name=");
    reveal_strlit("port=");
    reveal_strlit("caps=");
    reveal_strlit("lmv");
    reveal_strlit("mid");
    reveal_strlit("did");
    reveal_strlit("name");
    reveal_strlit("port");
    reveal_strlit("caps");
    reveal_strlit("1");
    reveal_strlit("=");
    let recs = txt_records_spec(a);
    let port_text = decimal_spec(a.port as nat);
    let caps_text = joined_caps_spec(a.capabilities@);
    assert("lmv=1"@ =~= "lmv"@ + "="@ + "1"@);
    assert("mid="@ + a.member_id@ =~= "mid"@ + "="@ + a.member_id@);
    assert("did="@ + a.device_id@ =~= "did"@ + "="@ + a.device_id@);
    assert("name="@ + a.device_name@ =~= "name"@ + "="@ + a.device_name@);
    assert("port="@ + port_text =~= "port"@ + "="@ + port_text);
    assert("caps="@ + caps_text =~= "caps"@ + "="@ + caps_text);
    lemma_record_split("lmv"@, "1"@);
    lemma_record_split("mid"@, a.member_id@);
    lemma_record_split("did"@, a.device_id@);
    lemma_record_split("name"@, a.device_name@);
    lemma_record_split("port"@, port_text);
    lemma_record_split("caps"@, caps_text);
    assert(recs.take(1).drop_last() =~= recs.take(0));
    assert(recs.take(2).drop_last() =~= recs.take(1));
    assert(recs.take(3).drop_last() =~= recs.take(2));
    assert(recs.take(4).drop_last() =~= recs.take(3));
    assert(recs.take(5).drop_last() =~= recs.take(4));
    assert(recs.drop_last() =~= recs.take(5));
    assert(first_bad_record(recs.take(0)) is None);
    assert(first_bad_record(recs.take(1)) is None);
    assert(first_bad_record(recs.take(2)) is None);
    assert(first_bad_record(recs.take(3)) is None);
    assert(first_bad_record(recs.take(4)) is None);
    assert(first_bad_record(recs.take(5)) is None);
    assert(first_bad_record(recs) is None);
    assert(recs.take(1).last() == recs[0]);
    assert(recs.take(2).last() == recs[1]);
    assert(recs.take(3).last() == recs[2]);
    assert(recs.take(4).last() == recs[3]);
    assert(recs.take(5).last() == recs[4]);
    let m0 = txt_map_spec(recs.take(0));
    let m1 = txt_map_spec(recs.take(1));
    let m2 = txt_map_spec(recs.take(2));
    let m3 = txt_map_spec(recs.take(3));
    let m4 = txt_map_spec(recs.take(4));
    let m5 = txt_map_spec(recs.take(5));
    let m = txt_map_spec(recs);
    assert(m1 == m0.insert("lmv"@, "1"@));
    assert(m2 == m1.insert("mid"@, a.member_id@));
    assert(m3 == m2.insert("did"@, a.device_id@));
    assert(m4 == m3.insert("name"@, a.device_name@));
    assert(m5 == m4.insert("port"@, port_text));
    assert(m == m5.insert("caps"@, caps_text));
    assert("lmv"@[0] == 'l' && "mid"@[0] == 'm' && "did"@[0] == 'd');
    assert("name"@[0] == 'n' && "port"@[0] == 'p' && "caps"@[0] == 'c');
    assert(m["lmv"@] == "1"@);
    assert(m["mid"@] == a.member_id@);
    assert(m["did"@] == a.device_id@);
    assert(m["name"@] == a.device_name@);
    assert(m["port"@] == port_text);
    assert(m["caps"@] == caps_text);
    lemma_parse_decimal(a.port);
    lemma_caps_round_trip(a.capabilities@);
    assert(identifier_text_check_spec("member_id"@, a.member_id@) is Ok);
    assert(identifier_text_check_spec("device_id"@, a.device_id@) is Ok);
}

} // verus!
