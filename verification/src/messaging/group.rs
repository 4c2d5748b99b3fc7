//! Group messaging with sender keys: the membership of a group, each
//! device's signed sender-key chain, and epoch rotation.

use vstd::prelude::*;
use crate::device::{compare_chars, lemma_lex_antisymmetric, lemma_lex_transitive, lex_order_chars, Device};
use crate::bytes::u32_le_spec;
use crate::ids::{is_valid_identifier_spec, DeviceId, MemberId};
use crate::wire::{
    lemma_parse_array32, lemma_parse_text, lemma_parse_u32, lemma_parse_u64, lemma_parse_u8, parse_array32, parse_text,
    parse_u32, parse_u64, parse_u8, read_array32, read_text, read_u32, read_u64, read_u8, text_frame, u64_le_spec, write_text,
    write_u32, write_u64,
};
use vstd::utf8::encode_utf8;
use crate::member::lemma_lex_order_zero_equal;
use crate::messaging::error::MessagingError;

verus! {

/// The most participants a group can have.
pub const MAX_GROUP_PARTICIPANTS: usize = 8;

/// One device of a group and the member it belongs to.
#[derive(Debug, PartialEq, Eq)]
pub struct GroupParticipant {
    member_id: MemberId,
    device_id: DeviceId,
}

/// A participant as its member and device ids.
pub struct ParticipantView {
    pub member_id: Seq<char>,
    pub device_id: Seq<char>,
}

impl View for GroupParticipant {
    type V = ParticipantView;

    closed spec fn view(&self) -> ParticipantView {
        ParticipantView { member_id: self.member_id@, device_id: self.device_id@ }
    }
}

impl GroupParticipant {
    pub fn new(member_id: MemberId, device_id: DeviceId) -> (r: GroupParticipant)
        ensures
            r@.member_id == member_id@,
            r@.device_id == device_id@,
    {
        GroupParticipant { member_id, device_id }
    }

    /// The participant a device is: its owner and its id.
    pub fn from_device(device: &Device) -> (r: GroupParticipant)
        ensures
            r@.member_id == device@.owner_member_id,
            r@.device_id == device@.device_id,
    {
        GroupParticipant { member_id: device.owner_member_id().duplicate(), device_id: device.device_id().duplicate() }
    }

    pub fn member_id(&self) -> (r: &MemberId)
        ensures
            r@ == self@.member_id,
    {
        &self.member_id
    }

    pub fn device_id(&self) -> (r: &DeviceId)
        ensures
            r@ == self@.device_id,
    {
        &self.device_id
    }

    pub fn duplicate(&self) -> (r: GroupParticipant)
        ensures
            r@ == self@,
    {
        GroupParticipant { member_id: self.member_id.duplicate(), device_id: self.device_id.duplicate() }
    }
}

/// The participants, in strictly ascending device-id order.
pub open spec fn sorted_participants(s: Seq<ParticipantView>) -> bool {
    forall|i: int, j: int| 0 <= i < j < s.len() ==> lex_order_chars(#[trigger] s[i].device_id, #[trigger] s[j].device_id) < 0
}

/// The member of each participating device.
pub open spec fn participant_map(s: Seq<ParticipantView>) -> Map<Seq<char>, Seq<char>> {
    Map::new(
        |d: Seq<char>| exists|i: int| 0 <= i < s.len() && #[trigger] s[i].device_id == d,
        |d: Seq<char>| s[choose|i: int| 0 <= i < s.len() && #[trigger] s[i].device_id == d].member_id,
    )
}

/// The devices of a group, at most eight, kept in ascending device-id order.
#[derive(Debug, PartialEq, Eq)]
pub struct GroupMembership {
    participants: Vec<GroupParticipant>,
}

impl View for GroupMembership {
    type V = Seq<ParticipantView>;

    closed spec fn view(&self) -> Seq<ParticipantView> {
        self.participants@.map_values(|p: GroupParticipant| p@)
    }
}

/// Why a list of participants does not make a group.
pub enum MembershipError {
    Duplicate(Seq<char>),
    LimitExceeded(nat),
}

/// The views of a list of participants.
pub open spec fn participant_views(ps: Seq<GroupParticipant>) -> Seq<ParticipantView> {
    ps.map_values(|p: GroupParticipant| p@)
}

/// Adding each participant in turn: the group's members and size, or the
/// first refusal.
pub open spec fn build_membership_spec(ps: Seq<ParticipantView>) -> Result<(Map<Seq<char>, Seq<char>>, nat), MembershipError>
    decreases ps.len(),
{
    if ps.len() == 0 {
        Ok((Map::empty(), 0))
    } else {
        match build_membership_spec(ps.drop_last()) {
            Err(e) => Err(e),
            Ok((m, n)) => if m.contains_key(ps.last().device_id) {
                Err(MembershipError::Duplicate(ps.last().device_id))
            } else if n >= MAX_GROUP_PARTICIPANTS {
                Err(MembershipError::LimitExceeded(n + 1))
            } else {
                Ok((m.insert(ps.last().device_id, ps.last().member_id), n + 1))
            },
        }
    }
}


/// Once adding participants fails, it fails for every longer list too.
proof fn lemma_build_membership_prefix(ps: Seq<ParticipantView>, k: int)
    requires
        0 <= k <= ps.len(),
        build_membership_spec(ps.take(k)) is Err,
    ensures
        build_membership_spec(ps) == build_membership_spec(ps.take(k)),
    decreases ps.len() - k,
{
    if k < ps.len() {
        assert(ps.take(k + 1).drop_last() =~= ps.take(k));
        lemma_build_membership_prefix(ps, k + 1);
    } else {
        assert(ps.take(k) =~= ps);
    }
}

impl GroupMembership {
    pub closed spec fn wf(&self) -> bool {
        &&& sorted_participants(self@)
        &&& self@.len() <= MAX_GROUP_PARTICIPANTS
    }

    /// A group never holds more than eight devices.
    pub proof fn lemma_participant_limit(&self)
        requires
            self.wf(),
        ensures
            self@.len() <= MAX_GROUP_PARTICIPANTS,
    {
    }

    /// The member of each participating device.
    pub open spec fn map(&self) -> Map<Seq<char>, Seq<char>> {
        participant_map(self@)
    }

    /// The participants stand in strictly ascending device-id order, so no
    /// device occurs twice, and each is found in the map under its device id.
    pub proof fn lemma_sorted_participants(&self)
        requires
            self.wf(),
        ensures
            sorted_participants(self@),
            forall|i: int| 0 <= i < self@.len() ==> self.map().contains_key(#[trigger] self@[i].device_id)
                && self.map()[self@[i].device_id] == self@[i].member_id,
    {
        assert forall|i: int| 0 <= i < self@.len() implies self.map().contains_key(#[trigger] self@[i].device_id)
            && self.map()[self@[i].device_id] == self@[i].member_id by {
            self.lemma_map_index(i);
        }
    }

    fn empty() -> (r: GroupMembership)
        ensures
            r.wf(),
            r@ == Seq::<ParticipantView>::empty(),
    {
        let r = GroupMembership { participants: Vec::new() };
        assert(r@ =~= Seq::<ParticipantView>::empty());
        r
    }

    pub fn len(&self) -> (r: usize)
        ensures
            r == self@.len(),
    {
        self.participants.len()
    }

    pub fn is_empty(&self) -> (r: bool)
        ensures
            r == (self@.len() == 0),
    {
        self.participants.len() == 0
    }

    /// Where the device is, or where it would go.
    fn locate(&self, device_id: &DeviceId) -> (r: (usize, bool))
        requires
            self.wf(),
        ensures
            r.0 <= self@.len(),
            r.1 ==> r.0 < self@.len() && self@[r.0 as int].device_id == device_id@,
            !r.1 ==> !self.map().contains_key(device_id@),
            !r.1 ==> forall|i: int| 0 <= i < r.0 ==> lex_order_chars(#[trigger] self@[i].device_id, device_id@) < 0,
            !r.1 ==> forall|i: int| r.0 <= i < self@.len() ==> lex_order_chars(device_id@, #[trigger] self@[i].device_id) < 0,
    {
        let n = self.participants.len();
        let mut i: usize = 0;
        while i < n
            invariant
                n == self@.len(),
                i <= n,
                self.wf(),
                forall|j: int| 0 <= j < i ==> lex_order_chars(#[trigger] self@[j].device_id, device_id@) < 0,
            decreases n - i,
        {
            let c = compare_chars(self.participants[i].device_id.as_str(), device_id.as_str());
            proof {
                assert(self@[i as int] == self.participants@[i as int]@);
            }
            if c == 0 {
                proof {
                    lemma_lex_order_zero_equal(self@[i as int].device_id, device_id@);
                }
                return (i, true);
            }
            if c > 0 {
                proof {
                    lemma_lex_antisymmetric(self@[i as int].device_id, device_id@);
                    assert forall|j: int| i <= j < self@.len() implies lex_order_chars(device_id@, #[trigger] self@[j].device_id) < 0 by {
                        if j > i {
                            lemma_lex_transitive(device_id@, self@[i as int].device_id, self@[j].device_id);
                        }
                    }
                    self.lemma_absent(device_id@, i as int);
                }
                return (i, false);
            }
            proof {
                lemma_lex_antisymmetric(self@[i as int].device_id, device_id@);
            }
            i = i + 1;
        }
        proof {
            self.lemma_absent(device_id@, n as int);
        }
        (n, false)
    }

    proof fn lemma_absent(&self, d: Seq<char>, k: int)
        requires
            0 <= k <= self@.len(),
            forall|i: int| 0 <= i < k ==> lex_order_chars(#[trigger] self@[i].device_id, d) < 0,
            forall|i: int| k <= i < self@.len() ==> lex_order_chars(d, #[trigger] self@[i].device_id) < 0,
        ensures
            !self.map().contains_key(d),
    {
        if self.map().contains_key(d) {
            let i = choose|i: int| 0 <= i < self@.len() && #[trigger] self@[i].device_id == d;
            lemma_lex_order_zero_equal(self@[i].device_id, d);
            lemma_lex_order_zero_equal(d, self@[i].device_id);
        }
    }

    proof fn lemma_map_index(&self, i: int)
        requires
            self.wf(),
            0 <= i < self@.len(),
        ensures
            self.map().contains_key(self@[i].device_id),
            self.map()[self@[i].device_id] == self@[i].member_id,
    {
        let d = self@[i].device_id;
        assert(exists|j: int| 0 <= j < self@.len() && #[trigger] self@[j].device_id == d);
        let j = choose|j: int| 0 <= j < self@.len() && #[trigger] self@[j].device_id == d;
        if j != i {
            lemma_lex_order_zero_equal(self@[i].device_id, self@[j].device_id);
            lemma_lex_order_zero_equal(self@[j].device_id, self@[i].device_id);
        }
    }

    pub fn contains(&self, device_id: &DeviceId) -> (r: bool)
        requires
            self.wf(),
        ensures
            r == self.map().contains_key(device_id@),
    {
        let (i, found) = self.locate(device_id);
        proof {
            if found {
                self.lemma_map_index(i as int);
            }
        }
        found
    }

    pub fn participant(&self, device_id: &DeviceId) -> (r: Option<&GroupParticipant>)
        requires
            self.wf(),
        ensures
            match r {
                Some(p) => self.map().contains_key(device_id@) && p@.device_id == device_id@ && p@.member_id
                    == self.map()[device_id@],
                None => !self.map().contains_key(device_id@),
            },
    {
        let (i, found) = self.locate(device_id);
        if found {
            proof {
                self.lemma_map_index(i as int);
                assert(self@[i as int] == self.participants@[i as int]@);
            }
            Some(&self.participants[i])
        } else {
            None
        }
    }

    /// The participants in ascending device-id order.
    pub fn participants(&self) -> (r: Vec<&GroupParticipant>)
        ensures
            r@.len() == self@.len(),
            forall|i: int| 0 <= i < r@.len() ==> (#[trigger] r@[i])@ == self@[i],
            self.wf() ==> forall|i: int, j: int| 0 <= i < j < r@.len() ==> lex_order_chars(
                (#[trigger] r@[i])@.device_id, (#[trigger] r@[j])@.device_id) < 0,
    {
        let mut out: Vec<&GroupParticipant> = Vec::new();
        let mut i: usize = 0;
        while i < self.participants.len()
            invariant
                i <= self@.len(),
                self@.len() == self.participants@.len(),
                out@.len() == i,
                forall|j: int| 0 <= j < i ==> (#[trigger] out@[j])@ == self@[j],
            decreases self@.len() - i,
        {
            out.push(&self.participants[i]);
            i = i + 1;
        }
        out
    }


    /// A group of the given participants, added in turn: the first device
    /// already present, or a ninth device, is refused, and so is an empty list.
    pub fn new(participants: Vec<GroupParticipant>) -> (r: Result<GroupMembership, MessagingError>)
        ensures
            match build_membership_spec(participant_views(participants@)) {
                Err(MembershipError::Duplicate(d)) => r matches Err(MessagingError::DuplicateGroupParticipant(s)) && s@ == d,
                Err(MembershipError::LimitExceeded(n)) => r == Err::<GroupMembership, MessagingError>(
                    MessagingError::GroupMembershipLimitExceeded(n as usize),
                ),
                Ok((m, n)) => if n == 0 {
                    r == Err::<GroupMembership, MessagingError>(MessagingError::EmptyGroupMembership)
                } else {
                    r matches Ok(g) && g.wf() && g.map() == m && g@.len() == n
                },
            },
    {
        let ghost views = participant_views(participants@);
        let mut membership = GroupMembership::empty();
        let mut rest = participants;
        let mut taken: Vec<GroupParticipant> = Vec::new();
        assert(views.take(0) =~= Seq::<ParticipantView>::empty());
        assert(membership.map() =~= Map::<Seq<char>, Seq<char>>::empty());
        let n = rest.len();
        let mut i: usize = 0;
        while i < n
            invariant
                n == views.len(),
                i <= n,
                views == participant_views(participants@),
                rest@.len() == n - i,
                forall|j: int| 0 <= j < n - i ==> (#[trigger] rest@[j])@ == views[i + j],
                membership.wf(),
                build_membership_spec(views.take(i as int)) == Ok::<(Map<Seq<char>, Seq<char>>, nat), MembershipError>(
                    (membership.map(), membership@.len()),
                ),
            decreases n - i,
        {
            let p = rest.remove(0);
            assert(p@ == views[i as int]);
            assert(views.take(i + 1).drop_last() =~= views.take(i as int));
            assert(views.take(i + 1).last() == views[i as int]);
            let ghost before = membership;
            match membership.add_participant(p) {
                Ok(()) => {},
                Err(e) => {
                    assert(build_membership_spec(views.take(i + 1)) is Err);
                    proof {
                        lemma_build_membership_prefix(views, i as int + 1);
                    }
                    return Err(e);
                },
            }
            assert forall|j: int| 0 <= j < n - (i + 1) implies (#[trigger] rest@[j])@ == views[i + 1 + j] by {
            }
            i = i + 1;
        }
        assert(views.take(n as int) =~= views);
        if membership.is_empty() {
            return Err(MessagingError::EmptyGroupMembership);
        }
        Ok(membership)
    }

    /// Removes a device and hands back its participant; a device that is not
    /// a member is refused.
    pub fn remove_participant(&mut self, device_id: &DeviceId) -> (r: Result<GroupParticipant, MessagingError>)
        requires
            old(self).wf(),
        ensures
            final(self).wf(),
            old(self).map().contains_key(device_id@) ==> (r matches Ok(p) && p@.device_id == device_id@
                && p@.member_id == old(self).map()[device_id@] && final(self).map() == old(self).map().remove(device_id@)
                && final(self)@.len() + 1 == old(self)@.len()),
            !old(self).map().contains_key(device_id@) ==> (r matches Err(MessagingError::MissingGroupParticipant(d))
                && d@ == device_id@) && final(self)@ == old(self)@,
    {
        let (k, found) = self.locate(device_id);
        if !found {
            return Err(MessagingError::MissingGroupParticipant(device_id.to_string()));
        }
        proof {
            self.lemma_map_index(k as int);
        }
        let ghost before = self@;
        let ghost d = device_id@;
        let p = self.participants.remove(k);
        proof {
            assert(p@ == before[k as int]);
            assert(self@ =~= before.remove(k as int));
            assert forall|i: int, j: int| 0 <= i < j < self@.len() implies lex_order_chars(#[trigger] self@[i].device_id, #[trigger] self@[j].device_id) < 0 by {
                if j < k {
                    assert(self@[i] == before[i] && self@[j] == before[j]);
                } else if i < k {
                    assert(self@[i] == before[i] && self@[j] == before[j + 1]);
                } else {
                    assert(self@[i] == before[i + 1] && self@[j] == before[j + 1]);
                }
            }
            assert forall|x: Seq<char>| #[trigger] self.map().contains_key(x) == old(self).map().remove(d).contains_key(x) by {
                if self.map().contains_key(x) {
                    let i = choose|i: int| 0 <= i < self@.len() && #[trigger] self@[i].device_id == x;
                    if i < k {
                        assert(before[i].device_id == x);
                        if x == d {
                            lemma_lex_order_zero_equal(before[i].device_id, before[k as int].device_id);
                        }
                    } else {
                        assert(before[i + 1].device_id == x);
                        if x == d {
                            lemma_lex_order_zero_equal(before[k as int].device_id, before[i + 1].device_id);
                        }
                    }
                }
                if old(self).map().remove(d).contains_key(x) {
                    let i = choose|i: int| 0 <= i < before.len() && #[trigger] before[i].device_id == x;
                    if i < k {
                        assert(self@[i].device_id == x);
                    } else {
                        assert(i != k);
                        assert(self@[i - 1].device_id == x);
                    }
                }
            }
            assert forall|x: Seq<char>| #[trigger] self.map().contains_key(x) implies self.map()[x] == old(self).map().remove(d)[x] by {
                let i = choose|i: int| 0 <= i < self@.len() && #[trigger] self@[i].device_id == x;
                self.lemma_map_index(i);
                if i < k {
                    old(self).lemma_map_index(i);
                } else {
                    old(self).lemma_map_index(i + 1);
                }
            }
            assert(self.map() =~= old(self).map().remove(d));
        }
        Ok(p)
    }

    /// A copy with the same participants.
    pub fn duplicate(&self) -> (r: GroupMembership)
        ensures
            r@ == self@,
            self.wf() ==> r.wf(),
    {
        let mut out: Vec<GroupParticipant> = Vec::new();
        let mut i: usize = 0;
        while i < self.participants.len()
            invariant
                i <= self.participants@.len(),
                out@.len() == i,
                forall|j: int| 0 <= j < i ==> (#[trigger] out@[j])@ == self.participants@[j]@,
            decreases self.participants@.len() - i,
        {
            out.push(self.participants[i].duplicate());
            i = i + 1;
        }
        let r = GroupMembership { participants: out };
        assert(r@ =~= self@);
        r
    }

    /// Adds a device; refuses one already present, then a ninth.
    pub fn add_participant(&mut self, participant: GroupParticipant) -> (r: Result<(), MessagingError>)
        requires
            old(self).wf(),
        ensures
            final(self).wf(),
            old(self).map().contains_key(participant@.device_id) ==> (r matches Err(
                MessagingError::DuplicateGroupParticipant(d),
            ) && d@ == participant@.device_id) && final(self)@ == old(self)@,
            !old(self).map().contains_key(participant@.device_id) && old(self)@.len() >= MAX_GROUP_PARTICIPANTS
                ==> r == Err::<(), MessagingError>(MessagingError::GroupMembershipLimitExceeded(
                (old(self)@.len() + 1) as usize,
            )) && final(self)@ == old(self)@,
            !old(self).map().contains_key(participant@.device_id) && old(self)@.len() < MAX_GROUP_PARTICIPANTS
                ==> r is Ok && final(self).map() == old(self).map().insert(
                participant@.device_id,
                participant@.member_id,
            ) && final(self)@.len() == old(self)@.len() + 1,
    {
        let (k, found) = self.locate(&participant.device_id);
        if found {
            proof {
                self.lemma_map_index(k as int);
            }
            return Err(MessagingError::DuplicateGroupParticipant(participant.device_id.to_string()));
        }
        if self.participants.len() >= MAX_GROUP_PARTICIPANTS {
            return Err(MessagingError::GroupMembershipLimitExceeded(self.participants.len() + 1));
        }
        let ghost before = self@;
        let ghost pv = participant@;
        self.participants.insert(k, participant);
        proof {
            assert(self@ =~= before.insert(k as int, pv));
            assert forall|i: int, j: int| 0 <= i < j < self@.len() implies lex_order_chars(#[trigger] self@[i].device_id, #[trigger] self@[j].device_id) < 0 by {
                if j < k {
                    assert(self@[i] == before[i] && self@[j] == before[j]);
                } else if j == k {
                    assert(self@[i] == before[i]);
                } else if i == k {
                    assert(self@[j] == before[j - 1]);
                } else if i < k {
                    assert(self@[i] == before[i] && self@[j] == before[j - 1]);
                    lemma_lex_transitive(before[i].device_id, pv.device_id, before[j - 1].device_id);
                } else {
                    assert(self@[i] == before[i - 1] && self@[j] == before[j - 1]);
                }
            }
            assert forall|d: Seq<char>| #[trigger] self.map().contains_key(d) == old(self).map().insert(pv.device_id, pv.member_id).contains_key(d) by {
                if self.map().contains_key(d) {
                    let i = choose|i: int| 0 <= i < self@.len() && #[trigger] self@[i].device_id == d;
                    if i < k {
                        assert(before[i].device_id == d);
                    } else if i > k {
                        assert(before[i - 1].device_id == d);
                    }
                }
                if old(self).map().contains_key(d) {
                    let i = choose|i: int| 0 <= i < before.len() && #[trigger] before[i].device_id == d;
                    if i < k {
                        assert(self@[i].device_id == d);
                    } else {
                        assert(self@[i + 1].device_id == d);
                    }
                }
                if d == pv.device_id {
                    assert(self@[k as int].device_id == d);
                }
            }
            assert forall|d: Seq<char>| #[trigger] self.map().contains_key(d) implies self.map()[d] == old(self).map().insert(pv.device_id, pv.member_id)[d] by {
                let i = choose|i: int| 0 <= i < self@.len() && #[trigger] self@[i].device_id == d;
                self.lemma_map_index(i);
                if i < k {
                    old(self).lemma_map_index(i);
                } else if i > k {
                    old(self).lemma_map_index(i - 1);
                }
            }
            assert(self.map() =~= old(self).map().insert(pv.device_id, pv.member_id));
        }
        Ok(())
    }
}

/// Version of the sender-key distribution format.
pub const GROUP_SENDER_KEY_VERSION: u8 = 1;

/// Version of the group message format.
pub const GROUP_MESSAGE_VERSION: u8 = 1;

/// How many message keys a receiver derives ahead of the next expected one.
pub const MAX_GROUP_SKIP: u32 = 256;

/// A sender device's chain seed and signing key for one epoch of a group.
#[derive(Debug, PartialEq, Eq)]
pub struct GroupSenderKeyDistribution {
    version: u8,
    group_id: String,
    epoch: u64,
    sender_member_id: MemberId,
    sender_device_id: DeviceId,
    distribution_id: u32,
    chain_key_seed: [u8; 32],
    signing_public_key: [u8; 32],
}

pub struct DistributionView {
    pub version: u8,
    pub group_id: Seq<char>,
    pub epoch: u64,
    pub sender_member_id: Seq<char>,
    pub sender_device_id: Seq<char>,
    pub distribution_id: u32,
    pub chain_key_seed: Seq<u8>,
    pub signing_public_key: Seq<u8>,
}

impl View for GroupSenderKeyDistribution {
    type V = DistributionView;

    closed spec fn view(&self) -> DistributionView {
        DistributionView {
            version: self.version,
            group_id: self.group_id@,
            epoch: self.epoch,
            sender_member_id: self.sender_member_id@,
            sender_device_id: self.sender_device_id@,
            distribution_id: self.distribution_id,
            chain_key_seed: self.chain_key_seed@,
            signing_public_key: self.signing_public_key@,
        }
    }
}

/// A distribution whose ids pass the identifier rule and whose keys are 32 bytes.
pub open spec fn distribution_wf(v: DistributionView) -> bool {
    &&& is_valid_identifier_spec(v.sender_member_id)
    &&& is_valid_identifier_spec(v.sender_device_id)
    &&& v.chain_key_seed.len() == 32
    &&& v.signing_public_key.len() == 32
    &&& encode_utf8(v.group_id).len() <= u64::MAX
    &&& encode_utf8(v.sender_member_id).len() <= u64::MAX
    &&& encode_utf8(v.sender_device_id).len() <= u64::MAX
}

/// The bytes of a distribution: its fields in order.
pub open spec fn distribution_bytes(v: DistributionView) -> Seq<u8> {
    seq![v.version] + (text_frame(v.group_id) + (u64_le_spec(v.epoch) + (text_frame(v.sender_member_id) + (text_frame(
        v.sender_device_id,
    ) + (u32_le_spec(v.distribution_id) + (v.chain_key_seed + v.signing_public_key))))))
}

/// A string that passes the identifier rule, and the bytes after it.
#[verifier::opaque]
pub open spec fn parse_identifier(b: Seq<u8>) -> Option<(Seq<char>, Seq<u8>)> {
    match parse_text(b) {
        Some((s, rest)) => if is_valid_identifier_spec(s) {
            Some((s, rest))
        } else {
            None
        },
        None => None,
    }
}

/// The distribution that a byte string starts with, if any.
pub open spec fn parse_distribution(b: Seq<u8>) -> Option<DistributionView> {
    match parse_u8(b) {
        None => None,
        Some((version, b1)) => match parse_text(b1) {
            None => None,
            Some((group_id, b2)) => match parse_u64(b2) {
                None => None,
                Some((epoch, b3)) => match parse_identifier(b3) {
                    None => None,
                    Some((member, b4)) => match parse_identifier(b4) {
                        None => None,
                        Some((device, b5)) => match parse_u32(b5) {
                            None => None,
                            Some((distribution_id, b6)) => match parse_array32(b6) {
                                None => None,
                                Some((seed, b7)) => match parse_array32(b7) {
                                    None => None,
                                    Some((public, _)) => Some(
                                        DistributionView {
                                            version,
                                            group_id,
                                            epoch,
                                            sender_member_id: member,
                                            sender_device_id: device,
                                            distribution_id,
                                            chain_key_seed: seed,
                                            signing_public_key: public,
                                        },
                                    ),
                                },
                            },
                        },
                    },
                },
            },
        },
    }
}

/// Decoding the bytes of a well-formed distribution gives the distribution back.
pub proof fn lemma_distribution_round_trip(v: DistributionView)
    requires
        distribution_wf(v),
    ensures
        parse_distribution(distribution_bytes(v)) == Some(v),
{
    let f7 = v.chain_key_seed + v.signing_public_key;
    let f6 = u32_le_spec(v.distribution_id) + f7;
    let f5 = text_frame(v.sender_device_id) + f6;
    let f4 = text_frame(v.sender_member_id) + f5;
    let f3 = u64_le_spec(v.epoch) + f4;
    let f2 = text_frame(v.group_id) + f3;
    assert(distribution_bytes(v) == seq![v.version] + f2);
    lemma_parse_u8(v.version, f2);
    lemma_parse_text(v.group_id, f3);
    lemma_parse_u64(v.epoch, f4);
    assert(parse_identifier(f4) == Some((v.sender_member_id, f5))) by {
        reveal(parse_identifier);
        lemma_parse_text(v.sender_member_id, f5);
    }
    assert(parse_identifier(f5) == Some((v.sender_device_id, f6))) by {
        reveal(parse_identifier);
        lemma_parse_text(v.sender_device_id, f6);
    }
    lemma_parse_u32(v.distribution_id, f7);
    lemma_parse_array32(v.chain_key_seed, v.signing_public_key);
    assert(v.signing_public_key + Seq::<u8>::empty() =~= v.signing_public_key);
    lemma_parse_array32(v.signing_public_key, Seq::<u8>::empty());
}

/// Reads a string that passes the identifier rule.
fn read_identifier(b: &[u8], p: usize) -> (r: Option<(String, usize)>)
    requires
        p <= b@.len(),
    ensures
        match r {
            Some((v, q)) => q <= b@.len() && parse_identifier(b@.skip(p as int)) == Some((v@, b@.skip(q as int)))
                && is_valid_identifier_spec(v@),
            None => parse_identifier(b@.skip(p as int)) is None,
        },
{
    reveal(parse_identifier);
    match read_text(b, p) {
        Some((s, q)) => if crate::ids::validate_identifier("identifier", s.as_str()).is_ok() {
            Some((s, q))
        } else {
            None
        },
        None => None,
    }
}

impl GroupSenderKeyDistribution {
    /// The bytes of the distribution.
    pub fn encode(&self) -> (r: Vec<u8>)
        ensures
            r@ == distribution_bytes(self@),
            distribution_wf(self@),
    {
        let mut out: Vec<u8> = Vec::new();
        out.push(self.version);
        write_text(&mut out, self.group_id.as_str());
        write_u64(&mut out, self.epoch);
        write_text(&mut out, self.sender_member_id.as_str());
        write_text(&mut out, self.sender_device_id.as_str());
        write_u32(&mut out, self.distribution_id);
        crate::bytes::extend_bytes(&mut out, &self.chain_key_seed);
        crate::bytes::extend_bytes(&mut out, &self.signing_public_key);
        assert(out@ =~= distribution_bytes(self@));
        out
    }

    /// The distribution a byte string starts with; bytes after it are
    /// ignored.  Malformed bytes are a serialization error and another
    /// format version is refused.
    pub fn decode(bytes: &[u8]) -> (r: Result<GroupSenderKeyDistribution, MessagingError>)
        ensures
            match parse_distribution(bytes@) {
                None => r matches Err(MessagingError::Serialization(_)),
                Some(v) => if v.version != GROUP_SENDER_KEY_VERSION {
                    r == Err::<GroupSenderKeyDistribution, MessagingError>(
                        MessagingError::InvalidSenderKeyDistributionVersion(v.version),
                    )
                } else {
                    r matches Ok(d) && d@ == v
                },
            },
    {
        match Self::parse(bytes) {
            None => Err(MessagingError::Serialization(crate::text::owned("malformed sender-key distribution"))),
            Some(d) => if d.version != GROUP_SENDER_KEY_VERSION {
                Err(MessagingError::InvalidSenderKeyDistributionVersion(d.version))
            } else {
                Ok(d)
            },
        }
    }

    fn parse(b: &[u8]) -> (r: Option<GroupSenderKeyDistribution>)
        ensures
            match parse_distribution(b@) {
                None => r is None,
                Some(v) => r matches Some(d) && d@ == v,
            },
    {
        assert(b@.skip(0) =~= b@);
        let (version, p) = match read_u8(b, 0) {
            Some(x) => x,
            None => return None,
        };
        let (group_id, p) = match read_text(b, p) {
            Some(x) => x,
            None => return None,
        };
        let (epoch, p) = match read_u64(b, p) {
            Some(x) => x,
            None => return None,
        };
        let (member, p) = match read_identifier(b, p) {
            Some(x) => x,
            None => return None,
        };
        let (device, p) = match read_identifier(b, p) {
            Some(x) => x,
            None => return None,
        };
        let (distribution_id, p) = match read_u32(b, p) {
            Some(x) => x,
            None => return None,
        };
        let (seed, p) = match read_array32(b, p) {
            Some(x) => x,
            None => return None,
        };
        let (public, _p) = match read_array32(b, p) {
            Some(x) => x,
            None => return None,
        };
        let sender_member_id = match MemberId::new(member.as_str()) {
            Ok(id) => id,
            Err(_) => return None,
        };
        let sender_device_id = match DeviceId::new(device.as_str()) {
            Ok(id) => id,
            Err(_) => return None,
        };
        Some(GroupSenderKeyDistribution {
            version,
            group_id,
            epoch,
            sender_member_id,
            sender_device_id,
            distribution_id,
            chain_key_seed: seed,
            signing_public_key: public,
        })
    }

    pub(crate) fn from_parts(
        group_id: String,
        epoch: u64,
        sender_member_id: MemberId,
        sender_device_id: DeviceId,
        distribution_id: u32,
        chain_key_seed: [u8; 32],
        signing_public_key: [u8; 32],
    ) -> (r: GroupSenderKeyDistribution)
        ensures
            r@ == (DistributionView {
                version: GROUP_SENDER_KEY_VERSION,
                group_id: group_id@,
                epoch,
                sender_member_id: sender_member_id@,
                sender_device_id: sender_device_id@,
                distribution_id,
                chain_key_seed: chain_key_seed@,
                signing_public_key: signing_public_key@,
            }),
    {
        GroupSenderKeyDistribution {
            version: GROUP_SENDER_KEY_VERSION,
            group_id,
            epoch,
            sender_member_id,
            sender_device_id,
            distribution_id,
            chain_key_seed,
            signing_public_key,
        }
    }

    pub(crate) fn version(&self) -> (r: u8)
        ensures
            r == self@.version,
    {
        self.version
    }

    pub(crate) fn chain_key_seed(&self) -> (r: [u8; 32])
        ensures
            r@ == self@.chain_key_seed,
    {
        self.chain_key_seed
    }

    pub(crate) fn signing_public_key(&self) -> (r: [u8; 32])
        ensures
            r@ == self@.signing_public_key,
    {
        self.signing_public_key
    }

    pub fn group_id(&self) -> (r: &str)
        ensures
            r@ == self@.group_id,
    {
        self.group_id.as_str()
    }

    pub fn epoch(&self) -> (r: u64)
        ensures
            r == self@.epoch,
    {
        self.epoch
    }

    pub fn sender_member_id(&self) -> (r: &MemberId)
        ensures
            r@ == self@.sender_member_id,
    {
        &self.sender_member_id
    }

    pub fn sender_device_id(&self) -> (r: &DeviceId)
        ensures
            r@ == self@.sender_device_id,
    {
        &self.sender_device_id
    }

    pub fn distribution_id(&self) -> (r: u32)
        ensures
            r == self@.distribution_id,
    {
        self.distribution_id
    }

    pub fn duplicate(&self) -> (r: GroupSenderKeyDistribution)
        ensures
            r@ == self@,
    {
        GroupSenderKeyDistribution {
            version: self.version,
            group_id: self.group_id.clone(),
            epoch: self.epoch,
            sender_member_id: self.sender_member_id.duplicate(),
            sender_device_id: self.sender_device_id.duplicate(),
            distribution_id: self.distribution_id,
            chain_key_seed: self.chain_key_seed,
            signing_public_key: self.signing_public_key,
        }
    }
}

} // verus!
