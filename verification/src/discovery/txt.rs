//! Encoding an announcement as DNS-SD TXT records and decoding them back.

use vstd::prelude::*;
use crate::discovery::peer::{
    capability_from_name_spec, DiscoveredPeer, DiscoveryError, DiscoveryErrorView,
    LocalPeerAnnouncement, PeerCapability, SocketAddress,
};
use crate::ids::{identifier_text_check_spec, DeviceId, MemberId};
use crate::maps::StrMap;
use crate::text::{
    first_index_of, is_ascii_digit_spec, lemma_first_index_at, lemma_first_index_of, owned,
    str_eq,
};

verus! {

/// The unsigned decimal number spelled by ASCII digits.
pub open spec fn digits_value(s: Seq<char>) -> nat
    decreases s.len(),
{
    if s.len() == 0 {
        0
    } else {
        digits_value(s.drop_last()) * 10 + ((s.last() as int) - ('0' as int)) as nat
    }
}

pub open spec fn all_digits_spec(s: Seq<char>) -> bool {
    forall|i: int| 0 <= i < s.len() ==> is_ascii_digit_spec(#[trigger] s[i])
}

/// The digits of an unsigned number, after an optional leading `+`.
pub open spec fn unsigned_digits(s: Seq<char>) -> Seq<char> {
    if s.len() > 0 && s[0] == '+' {
        s.drop_first()
    } else {
        s
    }
}

/// What `str::parse::<u16>` accepts: an optional `+`, then at least one ASCII
/// digit, with a value that fits in 16 bits.
pub open spec fn parse_u16_spec(s: Seq<char>) -> Option<u16> {
    let d = unsigned_digits(s);
    if d.len() > 0 && all_digits_spec(d) && digits_value(d) <= 65535 {
        Some(digits_value(d) as u16)
    } else {
        None
    }
}

proof fn lemma_digits_prefix(d: Seq<char>, k: int)
    requires
        0 <= k <= d.len(),
        all_digits_spec(d),
    ensures
        digits_value(d.take(k)) <= digits_value(d),
    decreases d.len() - k,
{
    if k < d.len() {
        lemma_digits_prefix(d, k + 1);
        assert(d.take(k + 1).drop_last() =~= d.take(k));
        assert(is_ascii_digit_spec(d[k]));
    } else {
        assert(d.take(k) =~= d);
    }
}

/// Parses an unsigned 16-bit decimal number.
pub fn parse_u16(s: &str) -> (r: Option<u16>)
    ensures
        r == parse_u16_spec(s@),
{
    let n = s.unicode_len();
    let mut start: usize = 0;
    if n > 0 && s.get_char(0) == '+' {
        start = 1;
    }
    let ghost d = unsigned_digits(s@);
    proof {
        assert(d =~= s@.subrange(start as int, n as int));
    }
    if start == n {
        return None;
    }
    let mut acc: u32 = 0;
    let mut i: usize = start;
    while i < n
        invariant
            n == s@.len(),
            start <= i <= n,
            start < n,
            d == s@.subrange(start as int, n as int),
            d == unsigned_digits(s@),
            acc == digits_value(d.take(i - start)),
            acc <= 65535,
            all_digits_spec(d.take(i - start)),
        decreases n - i,
    {
        let c = s.get_char(i);
        proof {
            assert(d.take(i - start + 1).drop_last() =~= d.take(i - start));
            assert(d[i - start] == c);
        }
        if !('0' <= c && c <= '9') {
            assert(!is_ascii_digit_spec(d[i - start]));
            return None;
        }
        let digit: u32 = (c as u32) - ('0' as u32);
        acc = acc * 10 + digit;
        i = i + 1;
        proof {
            assert(all_digits_spec(d.take(i - start))) by {
                assert forall|j: int| 0 <= j < i - start implies is_ascii_digit_spec(#[trigger] d.take(i - start)[j]) by {
                    if j < i - start - 1 {
                        assert(d.take(i - start)[j] == d.take(i - start - 1)[j]);
                    }
                }
            }
        }
        if acc > 65535 {
            proof {
                if all_digits_spec(d) {
                    lemma_digits_prefix(d, i - start);
                }
            }
            return None;
        }
    }
    proof {
        assert(d.take(i - start) =~= d);
    }
    Some(acc as u16)
}

/// The pieces of `s` between commas (one empty piece for an empty text).
pub open spec fn split_commas(s: Seq<char>) -> Seq<Seq<char>>
    decreases s.len(),
{
    if s.len() == 0 {
        seq![Seq::empty()]
    } else {
        let prev = split_commas(s.drop_last());
        if s.last() == ',' {
            prev.push(Seq::empty())
        } else {
            prev.update(prev.len() - 1, prev.last().push(s.last()))
        }
    }
}

proof fn lemma_split_commas_nonempty(s: Seq<char>)
    ensures
        split_commas(s).len() >= 1,
    decreases s.len(),
{
    if s.len() > 0 {
        lemma_split_commas_nonempty(s.drop_last());
    }
}

/// The capabilities named by the non-empty pieces, or the first piece that
/// names none.
pub open spec fn parse_caps_spec(pieces: Seq<Seq<char>>) -> Result<Seq<PeerCapability>, Seq<char>>
    decreases pieces.len(),
{
    if pieces.len() == 0 {
        Ok(Seq::empty())
    } else {
        match parse_caps_spec(pieces.drop_last()) {
            Err(e) => Err(e),
            Ok(cs) => if pieces.last().len() == 0 {
                Ok(cs)
            } else {
                match capability_from_name_spec(pieces.last()) {
                    Some(c) => Ok(cs.push(c)),
                    None => Err(pieces.last()),
                }
            },
        }
    }
}

proof fn lemma_split_extends(s: Seq<char>, k: int)
    requires
        0 <= k <= s.len(),
    ensures
        split_commas(s).len() >= split_commas(s.take(k)).len(),
        forall|j: int| 0 <= j < split_commas(s.take(k)).len() - 1 ==> #[trigger] split_commas(s)[j]
            == split_commas(s.take(k))[j],
    decreases s.len() - k,
{
    if k == s.len() {
        assert(s.take(k) =~= s);
    } else {
        lemma_split_extends(s, k + 1);
        lemma_split_commas_nonempty(s.take(k));
        assert(s.take(k + 1).drop_last() =~= s.take(k));
        let a = split_commas(s.take(k));
        let b = split_commas(s.take(k + 1));
        assert forall|j: int| 0 <= j < a.len() - 1 implies #[trigger] split_commas(s)[j] == a[j] by {
            assert(b[j] == a[j]);
        }
    }
}

proof fn lemma_parse_caps_err_extends(p: Seq<Seq<char>>, q: Seq<Seq<char>>)
    requires
        parse_caps_spec(p) is Err,
    ensures
        parse_caps_spec(p + q) == parse_caps_spec(p),
    decreases q.len(),
{
    if q.len() == 0 {
        assert(p + q =~= p);
    } else {
        lemma_parse_caps_err_extends(p, q.drop_last());
        assert((p + q).drop_last() =~= p + q.drop_last());
    }
}

/// An unknown name among the complete pieces before position `i` is the
/// error of the whole list.
proof fn lemma_parse_caps_prefix_err(whole: Seq<Seq<char>>, sp: Seq<Seq<char>>, s: Seq<char>, i: int)
    requires
        0 <= i < s.len(),
        whole == split_commas(s),
        split_commas(s.take(i + 1)) == sp.push(Seq::empty()),
        parse_caps_spec(sp) is Err,
    ensures
        parse_caps_spec(whole) == parse_caps_spec(sp),
{
    lemma_split_extends(s, i + 1);
    let pre = whole.take(sp.len() as int);
    assert forall|j: int| 0 <= j < sp.len() implies #[trigger] pre[j] == sp[j] by {
        assert(sp.push(Seq::<char>::empty())[j] == sp[j]);
    }
    assert(pre =~= sp);
    assert(whole =~= pre + whole.skip(sp.len() as int));
    lemma_parse_caps_err_extends(sp, whole.skip(sp.len() as int));
}

fn parse_piece(piece: &str, caps: &mut Vec<PeerCapability>) -> (r: bool)
    ensures
        piece@.len() == 0 ==> r && final(caps)@ == old(caps)@,
        piece@.len() > 0 ==> match capability_from_name_spec(piece@) {
            Some(c) => r && final(caps)@ == old(caps)@.push(c),
            None => !r,
        },
{
    if piece.unicode_len() == 0 {
        return true;
    }
    match PeerCapability::from_name(piece) {
        Ok(c) => {
            caps.push(c);
            true
        },
        Err(_) => false,
    }
}


/// The comma-separated pieces of a text.
pub fn split_on_commas(value: &str) -> (r: Vec<String>)
    ensures
        r@.len() == split_commas(value@).len(),
        forall|k: int| 0 <= k < r@.len() ==> (#[trigger] r@[k])@ == split_commas(value@)[k],
{
    let n = value.unicode_len();
    let mut pieces: Vec<String> = Vec::new();
    let mut start: usize = 0;
    let mut i: usize = 0;
    proof {
        assert(value@.take(0) =~= Seq::<char>::empty());
        assert(value@.subrange(0, 0) =~= Seq::<char>::empty());
    }
    while i < n
        invariant
            n == value@.len(),
            start <= i <= n,
            split_commas(value@.take(i as int)).len() >= 1,
            split_commas(value@.take(i as int)).last() == value@.subrange(start as int, i as int),
            pieces@.len() == split_commas(value@.take(i as int)).len() - 1,
            forall|k: int| 0 <= k < pieces@.len() ==> (#[trigger] pieces@[k])@ == split_commas(value@.take(i as int))[k],
        decreases n - i,
    {
        let ghost sp = split_commas(value@.take(i as int));
        proof {
            assert(value@.take(i + 1).drop_last() =~= value@.take(i as int));
        }
        let c = value.get_char(i);
        if c == ',' {
            let piece = owned(value.substring_char(start, i));
            pieces.push(piece);
            start = i + 1;
            proof {
                assert(split_commas(value@.take(i + 1)) == sp.push(Seq::empty()));
                assert(value@.subrange(start as int, i + 1) =~= Seq::<char>::empty());
            }
        } else {
            proof {
                let next = sp.update(sp.len() - 1, sp.last().push(c));
                assert(split_commas(value@.take(i + 1)) == next);
                assert(value@.subrange(start as int, i + 1) =~= value@.subrange(start as int, i as int).push(c));
            }
        }
        i = i + 1;
    }
    pieces.push(owned(value.substring_char(start, n)));
    proof {
        assert(value@.take(n as int) =~= value@);
    }
    pieces
}

/// Parses a comma-separated list of capability names, skipping empty pieces.
pub fn parse_capability_list(value: &str) -> (r: Result<Vec<PeerCapability>, String>)
    ensures
        match r {
            Ok(v) => parse_caps_spec(split_commas(value@)) == Ok::<Seq<PeerCapability>, Seq<char>>(v@),
            Err(e) => parse_caps_spec(split_commas(value@)) == Err::<Seq<PeerCapability>, Seq<char>>(e@),
        },
{
    let n = value.unicode_len();
    let mut caps: Vec<PeerCapability> = Vec::new();
    let mut start: usize = 0;
    let mut i: usize = 0;
    proof {
        assert(value@.take(0) =~= Seq::<char>::empty());
        assert(value@.subrange(0, 0) =~= Seq::<char>::empty());
    }
    while i < n
        invariant
            n == value@.len(),
            start <= i <= n,
            split_commas(value@.take(i as int)).len() >= 1,
            split_commas(value@.take(i as int)).last() == value@.subrange(start as int, i as int),
            parse_caps_spec(split_commas(value@.take(i as int)).drop_last()) == Ok::<
                Seq<PeerCapability>,
                Seq<char>,
            >(caps@),
        decreases n - i,
    {
        let ghost sp = split_commas(value@.take(i as int));
        proof {
            assert(value@.take(i + 1).drop_last() =~= value@.take(i as int));
        }
        let c = value.get_char(i);
        if c == ',' {
            let piece = value.substring_char(start, i);
            proof {
                assert(sp.drop_last().push(sp.last()) =~= sp);
            }
            if !parse_piece(piece, &mut caps) {
                proof {
                    assert(split_commas(value@.take(i + 1)) == sp.push(Seq::empty()));
                    assert(parse_caps_spec(sp) == Err::<Seq<PeerCapability>, Seq<char>>(piece@));
                    lemma_parse_caps_prefix_err(split_commas(value@), sp, value@, i as int);
                }
                return Err(owned(piece));
            }
            start = i + 1;
            proof {
                assert(split_commas(value@.take(i + 1)) == sp.push(Seq::empty()));
                assert(sp.push(Seq::<char>::empty()).drop_last() =~= sp);
                assert(value@.subrange(start as int, i + 1) =~= Seq::<char>::empty());
            }
        } else {
            proof {
                let next = sp.update(sp.len() - 1, sp.last().push(c));
                assert(split_commas(value@.take(i + 1)) == next);
                assert(next.drop_last() =~= sp.drop_last());
                assert(value@.subrange(start as int, i + 1) =~= value@.subrange(start as int, i as int).push(c));
            }
        }
        i = i + 1;
    }
    proof {
        assert(value@.take(n as int) =~= value@);
    }
    let ghost sp = split_commas(value@);
    let piece = value.substring_char(start, n);
    proof {
        assert(sp.drop_last().push(sp.last()) =~= sp);
    }
    if !parse_piece(piece, &mut caps) {
        return Err(owned(piece));
    }
    Ok(caps)
}

/// The fields read from a peer's TXT records.
#[derive(Debug, Clone, PartialEq, Eq)]
pub struct TxtPayload {
    pub member_id: MemberId,
    pub device_id: DeviceId,
    pub device_name: String,
    pub port: u16,
    pub capabilities: Vec<PeerCapability>,
}

/// A TXT payload with its identifiers and name taken as text.
pub struct TxtView {
    pub member_id: Seq<char>,
    pub device_id: Seq<char>,
    pub device_name: Seq<char>,
    pub port: u16,
    pub capabilities: Seq<PeerCapability>,
}

impl View for TxtPayload {
    type V = TxtView;

    open spec fn view(&self) -> TxtView {
        TxtView {
            member_id: self.member_id@,
            device_id: self.device_id@,
            device_name: self.device_name@,
            port: self.port,
            capabilities: self.capabilities@,
        }
    }
}

/// The texts of a list of strings.
pub open spec fn texts(v: Seq<String>) -> Seq<Seq<char>> {
    v.map_values(|s: String| s@)
}

/// Index of the first record without `=`, if any.
pub open spec fn first_bad_record(records: Seq<Seq<char>>) -> Option<int>
    decreases records.len(),
{
    if records.len() == 0 {
        None
    } else {
        match first_bad_record(records.drop_last()) {
            Some(i) => Some(i),
            None => if first_index_of(records.last(), '=') is None {
                Some(records.len() - 1)
            } else {
                None
            },
        }
    }
}

/// Key and value of each record, split at its first `=`; a later record
/// replaces an earlier one with the same key.
pub open spec fn txt_map_spec(records: Seq<Seq<char>>) -> Map<Seq<char>, Seq<char>>
    decreases records.len(),
{
    if records.len() == 0 {
        Map::empty()
    } else {
        let m = txt_map_spec(records.drop_last());
        let r = records.last();
        match first_index_of(r, '=') {
            Some(p) => m.insert(r.subrange(0, p), r.subrange(p + 1, r.len() as int)),
            None => m,
        }
    }
}

/// What decoding TXT records gives, check by check in the order the fields are read.
pub open spec fn txt_decode_spec(records: Seq<Seq<char>>) -> Result<TxtView, DiscoveryErrorView> {
    let m = txt_map_spec(records);
    if first_bad_record(records) is Some {
        Err(DiscoveryErrorView::InvalidTxtRecord(records[first_bad_record(records)->0]))
    } else if !m.contains_key("lmv"@) {
        Err(DiscoveryErrorView::MissingTxtField("lmv"@))
    } else if m["lmv"@] != "1"@ {
        Err(DiscoveryErrorView::InvalidTxtRecord("unsupported TXT version "@ + m["lmv"@]))
    } else if !m.contains_key("mid"@) {
        Err(DiscoveryErrorView::MissingTxtField("mid"@))
    } else if identifier_text_check_spec("member_id"@, m["mid"@]) is Err {
        Err(DiscoveryErrorView::InvalidTxtRecord(
            identifier_text_check_spec("member_id"@, m["mid"@])->Err_0,
        ))
    } else if !m.contains_key("did"@) {
        Err(DiscoveryErrorView::MissingTxtField("did"@))
    } else if identifier_text_check_spec("device_id"@, m["did"@]) is Err {
        Err(DiscoveryErrorView::InvalidTxtRecord(
            identifier_text_check_spec("device_id"@, m["did"@])->Err_0,
        ))
    } else if !m.contains_key("name"@) {
        Err(DiscoveryErrorView::MissingTxtField("name"@))
    } else if !m.contains_key("port"@) {
        Err(DiscoveryErrorView::MissingTxtField("port"@))
    } else if parse_u16_spec(m["port"@]) is None {
        Err(DiscoveryErrorView::InvalidTxtRecord("port"@))
    } else if parse_u16_spec(m["port"@]) == Some(0u16) {
        Err(DiscoveryErrorView::InvalidServicePort(0))
    } else if !m.contains_key("caps"@) {
        Err(DiscoveryErrorView::MissingTxtField("caps"@))
    } else {
        match parse_caps_spec(split_commas(m["caps"@])) {
            Err(piece) => Err(DiscoveryErrorView::InvalidCapability(piece)),
            Ok(caps) => Ok(
                TxtView {
                    member_id: m["mid"@],
                    device_id: m["did"@],
                    device_name: m["name"@],
                    port: parse_u16_spec(m["port"@])->0,
                    capabilities: caps,
                },
            ),
        }
    }
}

/// The TXT records of an announcement.
pub fn encode_txt_records(local_peer: &LocalPeerAnnouncement) -> (r: Vec<String>)
    ensures
        r@.len() == 6,
        texts(r@) == crate::discovery::peer::txt_records_spec(*local_peer),
{
    let r = local_peer.txt_records();
    assert(texts(r@) =~= crate::discovery::peer::txt_records_spec(*local_peer));
    r
}

fn txt_value<'a>(map: &'a StrMap<String>, key: &'static str) -> (r: Result<&'a String, DiscoveryError>)
    requires
        map.wf(),
    ensures
        match r {
            Ok(v) => map.map().contains_key(key@) && map.map()[key@] == v@,
            Err(e) => !map.map().contains_key(key@) && e@ == DiscoveryErrorView::MissingTxtField(key@),
        },
{
    match map.get(key) {
        Some(v) => Ok(v),
        None => Err(DiscoveryError::MissingTxtField(key)),
    }
}

/// Reads a peer's fields from its TXT records.
#[verifier::rlimit(40)]
pub fn decode_txt_records(records: Vec<String>) -> (r: Result<TxtPayload, DiscoveryError>)
    ensures
        match r {
            Ok(p) => txt_decode_spec(texts(records@)) == Ok::<TxtView, DiscoveryErrorView>(p@),
            Err(e) => txt_decode_spec(texts(records@)) == Err::<TxtView, DiscoveryErrorView>(e@),
        },
{
    let ghost recs = texts(records@);
    let mut map: StrMap<String> = StrMap::new();
    let mut i: usize = 0;
    while i < records.len()
        invariant
            recs == texts(records@),
            i <= records@.len(),
            map.wf(),
            map.map() == txt_map_spec(recs.take(i as int)),
            first_bad_record(recs.take(i as int)) is None,
        decreases records@.len() - i,
    {
        let rec = records[i].as_str();
        proof {
            assert(recs.take(i + 1).drop_last() =~= recs.take(i as int));
            assert(recs.take(i + 1).last() == rec@);
            lemma_first_index_of(rec@, '=');
        }
        let n = rec.unicode_len();
        let mut p: usize = 0;
        while p < n && rec.get_char(p) != '='
            invariant
                n == rec@.len(),
                p <= n,
                forall|j: int| 0 <= j < p ==> #[trigger] rec@[j] != '=',
            decreases n - p,
        {
            p = p + 1;
        }
        if p == n {
            proof {
                assert(first_bad_record(recs.take(i + 1)) == Some(i as int));
                lemma_first_bad_extends(recs, i as int);
            }
            return Err(DiscoveryError::InvalidTxtRecord(owned(rec)));
        }
        proof {
            lemma_first_index_at(rec@, '=', p as int);
        }
        map.insert(owned(rec.substring_char(0, p)), owned(rec.substring_char(p + 1, n)));
        i = i + 1;
    }
    proof {
        assert(recs.take(i as int) =~= recs);
    }
    let version = match txt_value(&map, "lmv") {
        Err(e) => return Err(e),
        Ok(v) => v,
    };
    if !str_eq(version.as_str(), "1") {
        let mut text = owned("unsupported TXT version ");
        text.append(version.as_str());
        return Err(DiscoveryError::InvalidTxtRecord(text));
    }
    let mid = match txt_value(&map, "mid") {
        Err(e) => return Err(e),
        Ok(v) => v,
    };
    let member_id = match MemberId::new(mid.as_str()) {
        Err(e) => return Err(DiscoveryError::InvalidTxtRecord(e.message())),
        Ok(id) => id,
    };
    let did = match txt_value(&map, "did") {
        Err(e) => return Err(e),
        Ok(v) => v,
    };
    let device_id = match DeviceId::new(did.as_str()) {
        Err(e) => return Err(DiscoveryError::InvalidTxtRecord(e.message())),
        Ok(id) => id,
    };
    let name = match txt_value(&map, "name") {
        Err(e) => return Err(e),
        Ok(v) => v,
    };
    let port_text = match txt_value(&map, "port") {
        Err(e) => return Err(e),
        Ok(v) => v,
    };
    let port = match parse_u16(port_text.as_str()) {
        None => return Err(DiscoveryError::InvalidTxtRecord(owned("port"))),
        Some(p) => p,
    };
    if port == 0 {
        return Err(DiscoveryError::InvalidServicePort(port));
    }
    let caps_text = match txt_value(&map, "caps") {
        Err(e) => return Err(e),
        Ok(v) => v,
    };
    let capabilities = match parse_capability_list(caps_text.as_str()) {
        Err(piece) => return Err(DiscoveryError::InvalidCapability(piece)),
        Ok(c) => c,
    };
    Ok(TxtPayload { member_id, device_id, device_name: name.clone(), port, capabilities })
}

proof fn lemma_first_bad_extends(recs: Seq<Seq<char>>, i: int)
    requires
        0 <= i < recs.len(),
        first_bad_record(recs.take(i + 1)) == Some(i),
    ensures
        first_bad_record(recs) == Some(i),
    decreases recs.len() - i,
{
    if i + 1 == recs.len() {
        assert(recs.take(i + 1) =~= recs);
    } else {
        lemma_first_bad_prefix(recs, i + 1, i);
    }
}

proof fn lemma_first_bad_prefix(recs: Seq<Seq<char>>, k: int, i: int)
    requires
        0 <= i < k <= recs.len(),
        first_bad_record(recs.take(k)) == Some(i),
    ensures
        first_bad_record(recs) == Some(i),
    decreases recs.len() - k,
{
    if k == recs.len() {
        assert(recs.take(k) =~= recs);
    } else {
        assert(recs.take(k + 1).drop_last() =~= recs.take(k));
        lemma_first_bad_prefix(recs, k + 1, i);
    }
}

impl TxtPayload {
    /// The discovered peer: these fields plus where and under what name it
    /// was found.
    pub fn into_peer(
        self,
        service_instance: String,
        socket_address: Option<SocketAddress>,
        hostname: Option<String>,
    ) -> (r: DiscoveredPeer)
        ensures
            r.service_instance == service_instance,
            r.member_id@ == self.member_id@,
            r.device_id@ == self.device_id@,
            r.device_name == self.device_name,
            r.port == self.port,
            r.socket_address == socket_address,
            r.hostname == hostname,
            r.capabilities == self.capabilities,
    {
        DiscoveredPeer {
            service_instance,
            member_id: self.member_id,
            device_id: self.device_id,
            device_name: self.device_name,
            port: self.port,
            socket_address,
            hostname,
            capabilities: self.capabilities,
        }
    }
}

} // verus!
