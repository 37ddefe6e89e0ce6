//! The state store: speaker and group metadata and their property bags.

use vstd::prelude::*;
use crate::bag::{bag_write, BagEntryView, PropertyBag};
use crate::ids::{GroupId, SpeakerId};
use crate::net::IpAddr;
use crate::property::{GroupInfo, GroupInfoView, PropertyKind};
use crate::speaker::{Speaker, SpeakerView};
use crate::stamp::{WriteOutcome, WriteStamp};
use crate::table::Table;
use crate::value::{opt_view, PropertyValue, PropertyValueView, SonosProperty};
use crate::viewed::{seq_view, ViewEq};

verus! {

/// The property map of one bag.
pub type BagMap = Map<PropertyKind, BagEntryView>;

/// The abstract state of a [`StateStore`].
pub struct StoreView {
    pub speakers: Map<Seq<char>, SpeakerView>,
    pub ip_to_speaker: Map<IpAddr, Seq<char>>,
    pub speaker_props: Map<Seq<char>, BagMap>,
    pub groups: Map<Seq<char>, GroupInfoView>,
    pub group_props: Map<Seq<char>, BagMap>,
    pub system_props: BagMap,
    pub speaker_to_group: Map<Seq<char>, Seq<char>>,
    pub satellite_ids: Set<Seq<char>>,
}

/// The bag of `k` in `m`, or an empty bag.
pub open spec fn bag_or_empty(m: Map<Seq<char>, BagMap>, k: Seq<char>) -> BagMap {
    if m.contains_key(k) {
        m[k]
    } else {
        Map::empty()
    }
}

/// The value of property kind `kind` in the bag of `k` in `m`, if any.
pub open spec fn stored_value(m: Map<Seq<char>, BagMap>, k: Seq<char>, kind: PropertyKind) -> Option<PropertyValueView> {
    if m.contains_key(k) && m[k].contains_key(kind) {
        Some(m[k][kind].0)
    } else {
        None
    }
}

/// `m` with every speaker of `members` mapped to `gid`.
pub open spec fn assign_members(
    m: Map<Seq<char>, Seq<char>>,
    members: Seq<Seq<char>>,
    gid: Seq<char>,
) -> Map<Seq<char>, Seq<char>> {
    Map::new(
        |k: Seq<char>| m.contains_key(k) || members.contains(k),
        |k: Seq<char>| if members.contains(k) { gid } else { m[k] },
    )
}

/// The coordinator a speaker resolves to: its group's coordinator, or itself
/// when no group information exists.
pub open spec fn resolve_coordinator_spec(s: StoreView, speaker_id: Seq<char>) -> Seq<char> {
    if s.speaker_to_group.contains_key(speaker_id) && s.groups.contains_key(
        s.speaker_to_group[speaker_id],
    ) {
        s.groups[s.speaker_to_group[speaker_id]].coordinator_id
    } else {
        speaker_id
    }
}

/// The speaker whose bag reads and writes of `kind` for `speaker_id` use.
pub open spec fn target_spec(s: StoreView, kind: PropertyKind, speaker_id: Seq<char>) -> Seq<char> {
    if kind.resolves_to_coordinator_spec() {
        resolve_coordinator_spec(s, speaker_id)
    } else {
        speaker_id
    }
}

/// The group a speaker belongs to, if the store knows it.
pub open spec fn group_for_speaker_spec(s: StoreView, speaker_id: Seq<char>) -> Option<GroupInfoView> {
    if s.speaker_to_group.contains_key(speaker_id) && s.groups.contains_key(
        s.speaker_to_group[speaker_id],
    ) {
        Some(s.groups[s.speaker_to_group[speaker_id]])
    } else {
        None
    }
}

/// The store after adding (or replacing) speaker `info`.
pub open spec fn add_speaker_spec(s: StoreView, info: SpeakerView) -> StoreView {
    StoreView {
        speakers: s.speakers.insert(info.id, info),
        ip_to_speaker: s.ip_to_speaker.insert(info.ip_address, info.id),
        speaker_props: if s.speaker_props.contains_key(info.id) {
            s.speaker_props
        } else {
            s.speaker_props.insert(info.id, Map::empty())
        },
        ..s
    }
}

/// The store after adding (or replacing) group `g`.
pub open spec fn add_group_spec(s: StoreView, g: GroupInfoView) -> StoreView {
    StoreView {
        groups: s.groups.insert(g.id, g),
        group_props: if s.group_props.contains_key(g.id) {
            s.group_props
        } else {
            s.group_props.insert(g.id, Map::empty())
        },
        speaker_to_group: assign_members(s.speaker_to_group, g.member_ids, g.id),
        ..s
    }
}

/// The store with all group data removed.
pub open spec fn clear_groups_spec(s: StoreView) -> StoreView {
    StoreView { groups: Map::empty(), group_props: Map::empty(), speaker_to_group: Map::empty(), ..s }
}

/// Internal state storage.
#[derive(Debug)]
pub struct StateStore {
    speakers: Table<SpeakerId, Speaker>,
    ip_to_speaker: Table<IpAddr, SpeakerId>,
    speaker_props: Table<SpeakerId, PropertyBag>,
    groups: Table<GroupId, GroupInfo>,
    group_props: Table<GroupId, PropertyBag>,
    system_props: PropertyBag,
    speaker_to_group: Table<SpeakerId, GroupId>,
    satellite_ids: Vec<SpeakerId>,
}

impl View for StateStore {
    type V = StoreView;

    closed spec fn view(&self) -> StoreView {
        StoreView {
            speakers: self.speakers@,
            ip_to_speaker: self.ip_to_speaker@,
            speaker_props: self.speaker_props@,
            groups: self.groups@,
            group_props: self.group_props@,
            system_props: self.system_props@,
            speaker_to_group: self.speaker_to_group@,
            satellite_ids: seq_view(self.satellite_ids@).to_set(),
        }
    }
}

impl StateStore {
    /// The tables are well formed and satellite ids are listed once each.
    pub closed spec fn wf(&self) -> bool {
        &&& self.speakers.wf()
        &&& self.ip_to_speaker.wf()
        &&& self.speaker_props.wf()
        &&& self.groups.wf()
        &&& self.group_props.wf()
        &&& self.speaker_to_group.wf()
        &&& seq_view(self.satellite_ids@).no_duplicates()
        &&& forall|k: Seq<char>| #[trigger] self.speakers@.contains_key(k) ==> self.speakers@[k].id == k
        &&& forall|k: Seq<char>| #[trigger] self.groups@.contains_key(k) ==> self.groups@[k].id == k
    }

    /// An empty store.
    pub fn new() -> (r: StateStore)
        ensures
            r.wf(),
            r@.speakers == Map::<Seq<char>, SpeakerView>::empty(),
            r@.ip_to_speaker == Map::<IpAddr, Seq<char>>::empty(),
            r@.speaker_props == Map::<Seq<char>, BagMap>::empty(),
            r@.groups == Map::<Seq<char>, GroupInfoView>::empty(),
            r@.group_props == Map::<Seq<char>, BagMap>::empty(),
            r@.system_props == BagMap::empty(),
            r@.speaker_to_group == Map::<Seq<char>, Seq<char>>::empty(),
            r@.satellite_ids == Set::<Seq<char>>::empty(),
    {
        let r = StateStore {
            speakers: Table::new(),
            ip_to_speaker: Table::new(),
            speaker_props: Table::new(),
            groups: Table::new(),
            group_props: Table::new(),
            system_props: PropertyBag::new(),
            speaker_to_group: Table::new(),
            satellite_ids: Vec::new(),
        };
        assert(seq_view(r.satellite_ids@).to_set() =~= Set::<Seq<char>>::empty());
        r
    }

    /// Adds (or replaces) a speaker, maps its IP to it, and gives it an empty
    /// property bag unless it already has one.
    pub fn add_speaker(&mut self, speaker: Speaker)
        requires
            old(self).wf(),
        ensures
            final(self).wf(),
            final(self)@ == add_speaker_spec(old(self)@, speaker@),
    {
        let id = speaker.id.view_clone();
        let ip = speaker.ip_address;
        self.ip_to_speaker.insert(ip, id.view_clone());
        let id2 = id.view_clone();
        self.speakers.insert(id, speaker);
        if !self.speaker_props.contains_key(&id2) {
            self.speaker_props.insert(id2, PropertyBag::new());
        }
    }

    /// A copy of the speaker's information.
    pub fn speaker(&self, id: &SpeakerId) -> (r: Option<Speaker>)
        requires
            self.wf(),
        ensures
            opt_view(r) == (if self@.speakers.contains_key(id@) {
                Some(self@.speakers[id@])
            } else {
                None
            }),
    {
        self.speakers.get(id)
    }

    /// Copies of all speakers' information.
    pub fn speakers(&self) -> (r: Vec<Speaker>)
        requires
            self.wf(),
        ensures
            seq_view(r@).len() == self@.speakers.dom().len(),
            forall|i: int| 0 <= i < r@.len() ==> self@.speakers.contains_key(#[trigger] r@[i].id@)
                && self@.speakers[r@[i].id@] == r@[i]@,
            forall|k: Seq<char>| self@.speakers.contains_key(k) ==> exists|i: int| 0 <= i < r@.len() && #[trigger] r@[i].id@ == k,
    {
        let r = self.speakers.values();
        proof {
            self.speakers.lemma_key_seq();
            assert forall|i: int| 0 <= i < r@.len() implies self@.speakers.contains_key(#[trigger] r@[i].id@)
                && self@.speakers[r@[i].id@] == r@[i]@ by {
                assert(seq_view(r@)[i] == r@[i]@);
                assert(self@.speakers[self.speakers.key_seq()[i]] == self.speakers.value_seq()[i]);
                assert(self.speakers.key_seq().to_set().contains(self.speakers.key_seq()[i]));
            }
            assert forall|k: Seq<char>| self@.speakers.contains_key(k) implies exists|i: int| 0 <= i < r@.len() && #[trigger] r@[i].id@ == k by {
                assert(self.speakers.key_seq().to_set().contains(k));
                let i = choose|i: int| 0 <= i < self.speakers.key_seq().len() && self.speakers.key_seq()[i] == k;
                assert(seq_view(r@)[i] == r@[i]@);
                assert(self@.speakers[self.speakers.key_seq()[i]] == self.speakers.value_seq()[i]);
            }
        }
        r
    }

    /// Adds (or replaces) a group, maps each member to it, and gives it an
    /// empty property bag unless it already has one.
    pub fn add_group(&mut self, group: GroupInfo)
        requires
            old(self).wf(),
        ensures
            final(self).wf(),
            final(self)@ == add_group_spec(old(self)@, group@),
    {
        let id = group.id.view_clone();
        let ghost m0 = self@.speaker_to_group;
        let mut i: usize = 0;
        proof {
            assert(assign_members(m0, group@.member_ids.take(0), id@) =~= m0);
        }
        while i < group.member_ids.len()
            invariant
                self.wf(),
                i <= group.member_ids.len(),
                id@ == group.id@,
                self@ == (StoreView { speaker_to_group: self@.speaker_to_group, ..old(self)@ }),
                self.speakers == old(self).speakers,
                self.ip_to_speaker == old(self).ip_to_speaker,
                self.speaker_props == old(self).speaker_props,
                self.groups == old(self).groups,
                self.group_props == old(self).group_props,
                self.system_props == old(self).system_props,
                self.satellite_ids == old(self).satellite_ids,
                self.speaker_to_group.wf(),
                self@.speaker_to_group == assign_members(m0, group@.member_ids.take(i as int), id@),
                m0 == old(self)@.speaker_to_group,
            decreases group.member_ids.len() - i,
        {
            let member = group.member_ids[i].view_clone();
            let ghost before = self@.speaker_to_group;
            self.speaker_to_group.insert(member, id.view_clone());
            proof {
                assert(self@.speaker_to_group == before.insert(group.member_ids@[i as int]@, id@));
                let ms = group@.member_ids;
                assert(ms.take(i + 1) =~= ms.take(i as int).push(ms[i as int]));
                assert(ms[i as int] == group.member_ids@[i as int]@);
                assert forall|k: Seq<char>| ms.take(i + 1).contains(k) <==> (ms.take(i as int).contains(k) || k == ms[i as int]) by {
                    if ms.take(i + 1).contains(k) {
                        let j = choose|j: int| 0 <= j < ms.take(i + 1).len() && #[trigger] ms.take(i + 1)[j] == k;
                        if j < i {
                            assert(ms.take(i as int)[j] == k);
                        }
                    }
                    if ms.take(i as int).contains(k) {
                        let j = choose|j: int| 0 <= j < ms.take(i as int).len() && #[trigger] ms.take(i as int)[j] == k;
                        assert(ms.take(i + 1)[j] == k);
                    }
                    if k == ms[i as int] {
                        assert(ms.take(i + 1)[i as int] == k);
                    }
                }
                let a = self@.speaker_to_group;
                let b = assign_members(m0, ms.take(i + 1), id@);
                assert(before == assign_members(m0, ms.take(i as int), id@));
                assert forall|k: Seq<char>| a.contains_key(k) <==> b.contains_key(k) by {
                    assert(ms.take(i + 1).contains(k) <==> (ms.take(i as int).contains(k) || k == ms[i as int]));
                    assert(b.contains_key(k) == (m0.contains_key(k) || ms.take(i + 1).contains(k)));
                    assert(before.contains_key(k) == (m0.contains_key(k) || ms.take(i as int).contains(k)));
                }
                assert forall|k: Seq<char>| a.contains_key(k) implies a[k] == b[k] by {
                    assert(ms.take(i + 1).contains(k) <==> (ms.take(i as int).contains(k) || k == ms[i as int]));
                    if k == ms[i as int] {
                    } else {
                        assert(ms.take(i + 1).contains(k) == ms.take(i as int).contains(k));
                    }
                }
                assert(a =~= b);
            }
            i = i + 1;
        }
        proof {
            assert(group@.member_ids.take(group.member_ids@.len() as int) =~= group@.member_ids);
        }
        let id2 = id.view_clone();
        self.groups.insert(id, group);
        if !self.group_props.contains_key(&id2) {
            self.group_props.insert(id2, PropertyBag::new());
        }
    }

    /// The group a speaker belongs to, if known.
    pub fn get_group_for_speaker(&self, speaker_id: &SpeakerId) -> (r: Option<GroupInfo>)
        requires
            self.wf(),
        ensures
            opt_view(r) == group_for_speaker_spec(self@, speaker_id@),
    {
        match self.speaker_to_group.get_ref(speaker_id) {
            Some(gid) => self.groups.get(gid),
            None => None,
        }
    }

    /// Removes all groups, their properties and the speaker-to-group map.
    pub fn clear_groups(&mut self)
        requires
            old(self).wf(),
        ensures
            final(self).wf(),
            final(self)@ == clear_groups_spec(old(self)@),
    {
        self.groups.clear();
        self.group_props.clear();
        self.speaker_to_group.clear();
    }

    /// The coordinator of the speaker's group, or the speaker itself when no
    /// group information exists.
    pub fn resolve_coordinator(&self, speaker_id: &SpeakerId) -> (r: SpeakerId)
        requires
            self.wf(),
        ensures
            r@ == resolve_coordinator_spec(self@, speaker_id@),
    {
        match self.speaker_to_group.get_ref(speaker_id) {
            Some(gid) => match self.groups.get_ref(gid) {
                Some(g) => g.coordinator_id.view_clone(),
                None => speaker_id.view_clone(),
            },
            None => speaker_id.view_clone(),
        }
    }

    /// The speaker whose bag reads and writes of `kind` for `speaker_id` use.
    pub fn resolve_target(&self, kind: PropertyKind, speaker_id: &SpeakerId) -> (r: SpeakerId)
        requires
            self.wf(),
        ensures
            r@ == target_spec(self@, kind, speaker_id@),
    {
        if kind.resolves_to_coordinator() {
            self.resolve_coordinator(speaker_id)
        } else {
            speaker_id.view_clone()
        }
    }

    /// Which speaker's bag a write of `P` for `speaker_id` targets.
    pub fn resolve_write_target<P: SonosProperty>(&self, speaker_id: &SpeakerId) -> (r: SpeakerId)
        requires
            self.wf(),
        ensures
            r@ == target_spec(self@, P::kind_spec(), speaker_id@),
    {
        self.resolve_target(P::kind(), speaker_id)
    }

    /// The stored value of kind `kind` for `speaker_id`, read from its own bag.
    pub fn get_value(&self, speaker_id: &SpeakerId, kind: PropertyKind) -> (r: Option<PropertyValue>)
        requires
            self.wf(),
        ensures
            opt_view(r) == stored_value(self@.speaker_props, speaker_id@, kind),
    {
        match self.speaker_props.get_ref(speaker_id) {
            Some(bag) => bag.get_value(kind),
            None => None,
        }
    }

    /// The value of `P` stored in the speaker's own bag.
    pub fn get<P: SonosProperty>(&self, speaker_id: &SpeakerId) -> (r: Option<P>)
        requires
            self.wf(),
        ensures
            opt_view(r) == (match stored_value(self@.speaker_props, speaker_id@, P::kind_spec()) {
                Some(v) => P::unwrap_spec(v),
                None => None,
            }),
    {
        match self.speaker_props.get_ref(speaker_id) {
            Some(bag) => bag.get::<P>(),
            None => None,
        }
    }

    /// The value of `P` for `speaker_id`, read through the coordinator for
    /// speaker-scoped properties of per-coordinator services.
    pub fn get_resolved<P: SonosProperty>(&self, speaker_id: &SpeakerId) -> (r: Option<P>)
        requires
            self.wf(),
        ensures
            opt_view(r) == (match stored_value(
                self@.speaker_props,
                target_spec(self@, P::kind_spec(), speaker_id@),
                P::kind_spec(),
            ) {
                Some(v) => P::unwrap_spec(v),
                None => None,
            }),
    {
        let target = self.resolve_write_target::<P>(speaker_id);
        self.get::<P>(&target)
    }

    /// Writes a value into the speaker's own bag (creating it if absent).
    pub fn set_value(&mut self, speaker_id: &SpeakerId, value: PropertyValue, stamp: WriteStamp) -> (r: WriteOutcome)
        requires
            old(self).wf(),
        ensures
            final(self).wf(),
            ({
                let w = bag_write(bag_or_empty(old(self)@.speaker_props, speaker_id@), value@, stamp);
                &&& r == w.1
                &&& final(self)@ == (StoreView {
                    speaker_props: old(self)@.speaker_props.insert(speaker_id@, w.0),
                    ..old(self)@
                })
            }),
    {
        let mut bag = match self.speaker_props.remove(speaker_id) {
            Some(b) => b,
            None => PropertyBag::new(),
        };
        let outcome = bag.set_value(value, stamp);
        self.speaker_props.insert(speaker_id.view_clone(), bag);
        proof {
            assert(self@.speaker_props =~= old(self)@.speaker_props.insert(
                speaker_id@,
                bag_write(bag_or_empty(old(self)@.speaker_props, speaker_id@), value@, stamp).0,
            ));
        }
        outcome
    }

    /// Writes a value of `P` into the speaker's own bag.
    pub fn set<P: SonosProperty>(&mut self, speaker_id: &SpeakerId, value: P, stamp: WriteStamp) -> (r: WriteOutcome)
        requires
            old(self).wf(),
        ensures
            final(self).wf(),
            ({
                let w = bag_write(bag_or_empty(old(self)@.speaker_props, speaker_id@), P::wrap_spec(value@), stamp);
                &&& r == w.1
                &&& final(self)@ == (StoreView {
                    speaker_props: old(self)@.speaker_props.insert(speaker_id@, w.0),
                    ..old(self)@
                })
            }),
    {
        let v = value.to_value();
        self.set_value(speaker_id, v, stamp)
    }

    /// The value of `P` stored for a group.
    pub fn get_group<P: SonosProperty>(&self, group_id: &GroupId) -> (r: Option<P>)
        requires
            self.wf(),
        ensures
            opt_view(r) == (match stored_value(self@.group_props, group_id@, P::kind_spec()) {
                Some(v) => P::unwrap_spec(v),
                None => None,
            }),
    {
        match self.group_props.get_ref(group_id) {
            Some(bag) => bag.get::<P>(),
            None => None,
        }
    }

    /// Writes a value into a group's bag (creating it if absent).
    pub fn set_group_value(&mut self, group_id: &GroupId, value: PropertyValue, stamp: WriteStamp) -> (r: WriteOutcome)
        requires
            old(self).wf(),
        ensures
            final(self).wf(),
            ({
                let w = bag_write(bag_or_empty(old(self)@.group_props, group_id@), value@, stamp);
                &&& r == w.1
                &&& final(self)@ == (StoreView {
                    group_props: old(self)@.group_props.insert(group_id@, w.0),
                    ..old(self)@
                })
            }),
    {
        let mut bag = match self.group_props.remove(group_id) {
            Some(b) => b,
            None => PropertyBag::new(),
        };
        let outcome = bag.set_value(value, stamp);
        self.group_props.insert(group_id.view_clone(), bag);
        proof {
            assert(self@.group_props =~= old(self)@.group_props.insert(
                group_id@,
                bag_write(bag_or_empty(old(self)@.group_props, group_id@), value@, stamp).0,
            ));
        }
        outcome
    }

    /// Writes a value of `P` into a group's bag.
    pub fn set_group<P: SonosProperty>(&mut self, group_id: &GroupId, value: P, stamp: WriteStamp) -> (r: WriteOutcome)
        requires
            old(self).wf(),
        ensures
            final(self).wf(),
            ({
                let w = bag_write(bag_or_empty(old(self)@.group_props, group_id@), P::wrap_spec(value@), stamp);
                &&& r == w.1
                &&& final(self)@ == (StoreView {
                    group_props: old(self)@.group_props.insert(group_id@, w.0),
                    ..old(self)@
                })
            }),
    {
        let v = value.to_value();
        self.set_group_value(group_id, v, stamp)
    }

    /// The value of `P` stored system-wide.
    pub fn get_system<P: SonosProperty>(&self) -> (r: Option<P>)
        requires
            self.wf(),
        ensures
            opt_view(r) == (if self@.system_props.contains_key(P::kind_spec()) {
                P::unwrap_spec(self@.system_props[P::kind_spec()].0)
            } else {
                None
            }),
    {
        self.system_props.get::<P>()
    }

    /// Writes a value of `P` system-wide.
    pub fn set_system<P: SonosProperty>(&mut self, value: P, stamp: WriteStamp) -> (r: WriteOutcome)
        requires
            old(self).wf(),
        ensures
            final(self).wf(),
            ({
                let w = bag_write(old(self)@.system_props, P::wrap_spec(value@), stamp);
                &&& r == w.1
                &&& final(self)@ == (StoreView { system_props: w.0, ..old(self)@ })
            }),
    {
        self.system_props.set(value, stamp)
    }

    /// Updates a speaker's IP address, returning the old one if it changed.
    pub fn update_speaker_ip_address(&mut self, speaker_id: &SpeakerId, new_ip: IpAddr) -> (r: Option<IpAddr>)
        requires
            old(self).wf(),
        ensures
            final(self).wf(),
            old(self)@.speakers.contains_key(speaker_id@) && old(self)@.speakers[speaker_id@].ip_address != new_ip ==> {
                &&& r == Some(old(self)@.speakers[speaker_id@].ip_address)
                &&& final(self)@ == (StoreView {
                    speakers: old(self)@.speakers.insert(
                        speaker_id@,
                        SpeakerView { ip_address: new_ip, ..old(self)@.speakers[speaker_id@] },
                    ),
                    ..old(self)@
                })
            },
            !(old(self)@.speakers.contains_key(speaker_id@) && old(self)@.speakers[speaker_id@].ip_address != new_ip) ==> {
                &&& r is None
                &&& final(self)@ == old(self)@
            },
    {
        match self.speakers.get(speaker_id) {
            Some(info) => {
                let old_ip = info.ip_address;
                if old_ip != new_ip {
                    let mut info2 = info;
                    info2.ip_address = new_ip;
                    self.speakers.insert(speaker_id.view_clone(), info2);
                    proof {
                        assert(self@.speakers =~= old(self)@.speakers.insert(
                            speaker_id@,
                            SpeakerView { ip_address: new_ip, ..old(self)@.speakers[speaker_id@] },
                        ));
                    }
                    return Some(old_ip);
                }
                None
            },
            None => None,
        }
    }

    /// Sets a speaker's boot sequence number, if the speaker is known.
    pub fn set_boot_seq(&mut self, speaker_id: &SpeakerId, boot_seq: u32)
        requires
            old(self).wf(),
        ensures
            final(self).wf(),
            old(self)@.speakers.contains_key(speaker_id@) ==> final(self)@ == (StoreView {
                speakers: old(self)@.speakers.insert(
                    speaker_id@,
                    SpeakerView { boot_seq, ..old(self)@.speakers[speaker_id@] },
                ),
                ..old(self)@
            }),
            !old(self)@.speakers.contains_key(speaker_id@) ==> final(self)@ == old(self)@,
    {
        match self.speakers.get(speaker_id) {
            Some(info) => {
                let mut info2 = info;
                info2.boot_seq = boot_seq;
                self.speakers.insert(speaker_id.view_clone(), info2);
                proof {
                    assert(self@.speakers =~= old(self)@.speakers.insert(
                        speaker_id@,
                        SpeakerView { boot_seq, ..old(self)@.speakers[speaker_id@] },
                    ));
                }
            },
            None => {},
        }
    }

    /// Replaces the satellite ids with the distinct ids of `ids`.
    pub fn set_satellite_ids(&mut self, ids: Vec<SpeakerId>)
        requires
            old(self).wf(),
        ensures
            final(self).wf(),
            final(self)@ == (StoreView { satellite_ids: seq_view(ids@).to_set(), ..old(self)@ }),
    {
        let mut out: Vec<SpeakerId> = Vec::new();
        let mut i: usize = 0;
        proof {
            assert(seq_view(out@).to_set() =~= seq_view(ids@).take(0).to_set());
        }
        while i < ids.len()
            invariant
                i <= ids.len(),
                seq_view(out@).no_duplicates(),
                seq_view(out@).to_set() == seq_view(ids@).take(i as int).to_set(),
            decreases ids.len() - i,
        {
            let mut found = false;
            let mut k: usize = 0;
            while k < out.len()
                invariant
                    i < ids.len(),
                    k <= out.len(),
                    found == exists|j: int| 0 <= j < k && out@[j]@ == ids@[i as int]@,
                decreases out.len() - k,
            {
                if out[k].view_eq(&ids[i]) {
                    found = true;
                }
                k = k + 1;
            }
            let ghost before = seq_view(out@);
            proof {
                assert(seq_view(ids@).take(i + 1) =~= seq_view(ids@).take(i as int).push(ids@[i as int]@));
                seq_view(ids@).take(i as int).lemma_push_to_set_commute(ids@[i as int]@);
            }
            if !found {
                out.push(ids[i].view_clone());
                proof {
                    assert(seq_view(out@) =~= before.push(ids@[i as int]@));
                    before.lemma_push_to_set_commute(ids@[i as int]@);
                    assert forall|a: int, b: int| 0 <= a < seq_view(out@).len() && 0 <= b < seq_view(out@).len() && a != b implies seq_view(out@)[a] != seq_view(out@)[b] by {
                        if a == before.len() {
                            assert(out@[b]@ == before[b]);
                        } else if b == before.len() {
                            assert(out@[a]@ == before[a]);
                        }
                    }
                }
            } else {
                proof {
                    let j = choose|j: int| 0 <= j < out@.len() && out@[j]@ == ids@[i as int]@;
                    assert(before[j] == ids@[i as int]@);
                    assert(seq_view(ids@).take(i + 1).to_set() =~= before.to_set());
                }
            }
            i = i + 1;
        }
        proof {
            assert(seq_view(ids@).take(ids@.len() as int) =~= seq_view(ids@));
        }
        self.satellite_ids = out;
    }

    /// The satellite ids, each once.
    pub fn satellite_ids(&self) -> (r: Vec<SpeakerId>)
        requires
            self.wf(),
        ensures
            seq_view(r@).to_set() == self@.satellite_ids,
            seq_view(r@).no_duplicates(),
    {
        crate::viewed::vec_view_clone(&self.satellite_ids)
    }

    /// Copies of all groups.
    pub fn groups(&self) -> (r: Vec<GroupInfo>)
        requires
            self.wf(),
        ensures
            seq_view(r@).len() == self@.groups.dom().len(),
            seq_view(r@).to_set() == self@.groups.values(),
    {
        let r = self.groups.values();
        proof {
            self.groups.lemma_key_seq();
            let ks = self.groups.key_seq();
            let vs = self.groups.value_seq();
            assert forall|v: GroupInfoView| vs.to_set().contains(v) <==> self@.groups.values().contains(v) by {
                if vs.to_set().contains(v) {
                    let i = choose|i: int| 0 <= i < vs.len() && vs[i] == v;
                    assert(self@.groups[ks[i]] == vs[i]);
                    assert(ks.to_set().contains(ks[i]));
                }
                if self@.groups.values().contains(v) {
                    let k = choose|k: Seq<char>| self@.groups.contains_key(k) && self@.groups[k] == v;
                    assert(ks.to_set().contains(k));
                    let i = choose|i: int| 0 <= i < ks.len() && ks[i] == k;
                    assert(self@.groups[ks[i]] == vs[i]);
                }
            }
            assert(vs.to_set() =~= self@.groups.values());
        }
        r
    }

    /// A copy of the group with id `group_id`.
    pub fn group(&self, group_id: &GroupId) -> (r: Option<GroupInfo>)
        requires
            self.wf(),
        ensures
            opt_view(r) == (if self@.groups.contains_key(group_id@) {
                Some(self@.groups[group_id@])
            } else {
                None
            }),
    {
        self.groups.get(group_id)
    }

    /// The speaker id registered for an IP address in the store.
    pub fn speaker_id_for_ip(&self, ip: IpAddr) -> (r: Option<SpeakerId>)
        requires
            self.wf(),
        ensures
            opt_view(r) == (if self@.ip_to_speaker.contains_key(ip) {
                Some(self@.ip_to_speaker[ip])
            } else {
                None
            }),
    {
        self.ip_to_speaker.get(&ip)
    }

    /// Whether the store has no speakers.
    pub fn is_empty(&self) -> (r: bool)
        requires
            self.wf(),
        ensures
            r == (self@.speakers.dom().len() == 0),
    {
        self.speakers.len() == 0
    }

    pub fn speaker_count(&self) -> (r: usize)
        requires
            self.wf(),
        ensures
            r == self@.speakers.dom().len(),
    {
        self.speakers.len()
    }

    pub fn group_count(&self) -> (r: usize)
        requires
            self.wf(),
        ensures
            r == self@.groups.dom().len(),
    {
        self.groups.len()
    }

    /// Whether the group-property map is empty.
    pub fn group_props_is_empty(&self) -> (r: bool)
        requires
            self.wf(),
        ensures
            r == (self@.group_props.dom().len() == 0),
    {
        self.group_props.len() == 0
    }
}

} // verus!
