//! The observable property store: one value per property kind for every
//! speaker, group and the system, with a log of the changes it reports.
//!
//! Every write that changes what a reader would see appends one
//! [`StateChange`] to the log; a write of the value already held appends
//! nothing. The log is what subscribers are handed, in order.

use vstd::prelude::*;
use crate::bag::{kind_index, slot_of};
use crate::change_stream::{StateChange, StateChangeView};
use crate::ids::{GroupId, SpeakerId};
use crate::net::IpAddr;
use crate::property::{GroupInfo, GroupInfoView, PropertyKind, Service};
use crate::speaker::{Speaker, SpeakerView};
use crate::table::Table;
use crate::value::{opt_view, PropertyValue, PropertyValueView, SonosProperty};
use crate::viewed::{seq_view, ViewEq};

verus! {

/// The values of one bag, by kind.
pub type PropMap = Map<PropertyKind, PropertyValueView>;

/// The bag after setting `v`, and whether what a reader sees changed: the
/// value is stored unless the same value is already there.
pub open spec fn bag_set(m: PropMap, v: PropertyValueView) -> (PropMap, bool) {
    if m.contains_key(v.kind()) && m[v.kind()] == v {
        (m, false)
    } else {
        (m.insert(v.kind(), v), true)
    }
}

/// One value per property kind, each slot holding a value of its own kind.
#[derive(Debug)]
pub struct PropertyBag {
    slots: Vec<Option<PropertyValue>>,
}

impl View for PropertyBag {
    type V = PropMap;

    closed spec fn view(&self) -> PropMap {
        Map::new(
            |k: PropertyKind| self.slots@[kind_index(k)] is Some,
            |k: PropertyKind| self.slots@[kind_index(k)]->0@,
        )
    }
}

impl PropertyBag {
    #[verifier::type_invariant]
    closed spec fn wf(&self) -> bool {
        &&& self.slots@.len() == 10
        &&& forall|i: int|
            0 <= i < 10 && #[trigger] self.slots@[i] is Some ==> kind_index(
                self.slots@[i]->0@.kind(),
            ) == i
    }

    /// An empty bag.
    pub fn new() -> (r: PropertyBag)
        ensures
            r@ == PropMap::empty(),
    {
        let mut slots: Vec<Option<PropertyValue>> = Vec::new();
        let mut i: usize = 0;
        while i < 10
            invariant
                i <= 10,
                slots@.len() == i,
                forall|j: int| 0 <= j < i ==> slots@[j] is None,
            decreases 10 - i,
        {
            slots.push(None);
            i = i + 1;
        }
        let r = PropertyBag { slots };
        assert(r@ =~= PropMap::empty());
        r
    }

    /// The stored value of kind `k`, if any.
    pub fn get_value(&self, k: PropertyKind) -> (r: Option<PropertyValue>)
        ensures
            opt_view(r) == (if self@.contains_key(k) {
                Some(self@[k])
            } else {
                None
            }),
    {
        proof {
            use_type_invariant(&*self);
        }
        let i = slot_of(k);
        match &self.slots[i] {
            Some(v) => Some(v.view_clone()),
            None => None,
        }
    }

    /// The stored value of property `P`, if any.
    pub fn get<P: SonosProperty>(&self) -> (r: Option<P>)
        ensures
            opt_view(r) == (if self@.contains_key(P::kind_spec()) {
                P::unwrap_spec(self@[P::kind_spec()])
            } else {
                None
            }),
    {
        proof {
            use_type_invariant(&*self);
        }
        let k = P::kind();
        match self.get_value(k) {
            Some(v) => {
                proof {
                    P::lemma_unwrap(v@);
                }
                P::from_value(&v)
            },
            None => None,
        }
    }

    /// Stores `value`, reporting whether it differs from what was held.
    pub fn set_value(&mut self, value: PropertyValue) -> (r: bool)
        ensures
            (final(self)@, r) == bag_set(old(self)@, value@),
    {
        proof {
            use_type_invariant(&*self);
        }
        let k = value.kind();
        let i = slot_of(k);
        let ghost m = self@;
        let ghost vv = value@;
        let same = match &self.slots[i] {
            Some(cur) => cur.view_eq(&value),
            None => false,
        };
        if same {
            return false;
        }
        let mut taken = PropertyBag::new();
        std::mem::swap(&mut taken, self);
        proof {
            use_type_invariant(&taken);
        }
        let mut slots = taken.slots;
        slots.set(i, Some(value));
        *self = PropertyBag { slots };
        proof {
            assert(self@ =~= m.insert(vv.kind(), vv));
        }
        true
    }

    /// Stores a value of property `P`, reporting whether it differs from what
    /// was held.
    pub fn set<P: SonosProperty>(&mut self, value: P) -> (r: bool)
        ensures
            (final(self)@, r) == bag_set(old(self)@, P::wrap_spec(value@)),
    {
        let v = value.to_value();
        self.set_value(v)
    }

    /// Removes the value of property `P`, reporting whether there was one.
    pub fn clear<P: SonosProperty>(&mut self) -> (r: bool)
        ensures
            r == old(self)@.contains_key(P::kind_spec()),
            final(self)@ == old(self)@.remove(P::kind_spec()),
    {
        proof {
            use_type_invariant(&*self);
        }
        let k = P::kind();
        let i = slot_of(k);
        let ghost m = self@;
        if self.slots[i].is_none() {
            assert(self@ =~= m.remove(k));
            return false;
        }
        let mut taken = PropertyBag::new();
        std::mem::swap(&mut taken, self);
        proof {
            use_type_invariant(&taken);
        }
        let mut slots = taken.slots;
        slots.set(i, None);
        *self = PropertyBag { slots };
        proof {
            assert(self@ =~= m.remove(k));
        }
        true
    }
}

/// The abstract state of a [`StateStore`].
pub struct StateStoreView {
    pub speaker_props: Map<Seq<char>, PropMap>,
    pub group_props: Map<Seq<char>, PropMap>,
    pub system_props: PropMap,
    pub speakers: Map<Seq<char>, SpeakerView>,
    pub groups: Map<Seq<char>, GroupInfoView>,
    pub ip_to_speaker: Map<IpAddr, Seq<char>>,
    /// Every change reported and not yet taken, oldest first.
    pub changes: Seq<StateChangeView>,
}

/// The bag of `k` in `m`, or an empty bag.
pub open spec fn props_or_empty(m: Map<Seq<char>, PropMap>, k: Seq<char>) -> PropMap {
    if m.contains_key(k) {
        m[k]
    } else {
        PropMap::empty()
    }
}

/// The value of kind `kind` held for `k` in `m`, if any.
pub open spec fn held(m: Map<Seq<char>, PropMap>, k: Seq<char>, kind: PropertyKind) -> Option<PropertyValueView> {
    if m.contains_key(k) && m[k].contains_key(kind) {
        Some(m[k][kind])
    } else {
        None
    }
}

/// `changes` with `c` appended when `changed` holds.
pub open spec fn report_if(changes: Seq<StateChangeView>, changed: bool, c: StateChangeView) -> Seq<StateChangeView> {
    if changed {
        changes.push(c)
    } else {
        changes
    }
}

/// The store after setting `v` on speaker `id`.
pub open spec fn set_speaker_spec(s: StateStoreView, id: Seq<char>, v: PropertyValueView) -> StateStoreView {
    let w = bag_set(props_or_empty(s.speaker_props, id), v);
    StateStoreView {
        speaker_props: s.speaker_props.insert(id, w.0),
        changes: report_if(
            s.changes,
            w.1,
            StateChangeView::SpeakerPropertyChanged {
                speaker_id: id,
                property_key: v.kind().key_spec(),
                service: v.kind().service_spec(),
            },
        ),
        ..s
    }
}

/// The store after setting `v` on group `id`.
pub open spec fn set_group_spec(s: StateStoreView, id: Seq<char>, v: PropertyValueView) -> StateStoreView {
    let w = bag_set(props_or_empty(s.group_props, id), v);
    StateStoreView {
        group_props: s.group_props.insert(id, w.0),
        changes: report_if(
            s.changes,
            w.1,
            StateChangeView::GroupPropertyChanged {
                group_id: id,
                property_key: v.kind().key_spec(),
                service: v.kind().service_spec(),
            },
        ),
        ..s
    }
}

/// The store after setting the system value `v`.
pub open spec fn set_system_spec(s: StateStoreView, v: PropertyValueView) -> StateStoreView {
    let w = bag_set(s.system_props, v);
    StateStoreView {
        system_props: w.0,
        changes: report_if(
            s.changes,
            w.1,
            StateChangeView::SystemPropertyChanged {
                property_key: v.kind().key_spec(),
                service: v.kind().service_spec(),
            },
        ),
        ..s
    }
}

/// The store after adding (or replacing) speaker `sp`: a speaker not known
/// before is reported as added.
pub open spec fn add_speaker_spec(s: StateStoreView, sp: SpeakerView) -> StateStoreView {
    StateStoreView {
        speakers: s.speakers.insert(sp.id, sp),
        ip_to_speaker: s.ip_to_speaker.insert(sp.ip_address, sp.id),
        changes: report_if(
            s.changes,
            !s.speakers.contains_key(sp.id),
            StateChangeView::SpeakerAdded { speaker_id: sp.id },
        ),
        ..s
    }
}

/// The store after removing speaker `id`: its address mapping and its
/// properties go with it. Removing an unknown speaker changes nothing.
pub open spec fn remove_speaker_spec(s: StateStoreView, id: Seq<char>) -> StateStoreView {
    if s.speakers.contains_key(id) {
        StateStoreView {
            speakers: s.speakers.remove(id),
            ip_to_speaker: s.ip_to_speaker.remove(s.speakers[id].ip_address),
            speaker_props: s.speaker_props.remove(id),
            changes: s.changes.push(StateChangeView::SpeakerRemoved { speaker_id: id }),
            ..s
        }
    } else {
        s
    }
}

/// The store after adding (or replacing) group `g`.
pub open spec fn add_group_spec(s: StateStoreView, g: GroupInfoView) -> StateStoreView {
    StateStoreView {
        groups: s.groups.insert(g.id, g),
        changes: report_if(
            s.changes,
            !s.groups.contains_key(g.id),
            StateChangeView::GroupAdded { group_id: g.id },
        ),
        ..s
    }
}

/// The store after removing group `id` and its properties.
pub open spec fn remove_group_spec(s: StateStoreView, id: Seq<char>) -> StateStoreView {
    if s.groups.contains_key(id) {
        StateStoreView {
            groups: s.groups.remove(id),
            group_props: s.group_props.remove(id),
            changes: s.changes.push(StateChangeView::GroupRemoved { group_id: id }),
            ..s
        }
    } else {
        s
    }
}

/// The empty store.
pub open spec fn empty_store() -> StateStoreView {
    StateStoreView {
        speaker_props: Map::empty(),
        group_props: Map::empty(),
        system_props: PropMap::empty(),
        speakers: Map::empty(),
        groups: Map::empty(),
        ip_to_speaker: Map::empty(),
        changes: Seq::empty(),
    }
}

/// Speaker, group and system properties with the metadata they hang off,
/// reporting every visible change.
#[derive(Debug)]
pub struct StateStore {
    speaker_props: Table<SpeakerId, PropertyBag>,
    group_props: Table<GroupId, PropertyBag>,
    system_props: PropertyBag,
    speakers: Table<SpeakerId, Speaker>,
    groups: Table<GroupId, GroupInfo>,
    ip_to_speaker: Table<IpAddr, SpeakerId>,
    changes: Vec<StateChange>,
}

impl View for StateStore {
    type V = StateStoreView;

    closed spec fn view(&self) -> StateStoreView {
        StateStoreView {
            speaker_props: self.speaker_props@,
            group_props: self.group_props@,
            system_props: self.system_props@,
            speakers: self.speakers@,
            groups: self.groups@,
            ip_to_speaker: self.ip_to_speaker@,
            changes: seq_view(self.changes@),
        }
    }
}

impl StateStore {
    /// The tables are well formed and every entry is filed under its own id.
    pub closed spec fn wf(&self) -> bool {
        &&& self.speaker_props.wf()
        &&& self.group_props.wf()
        &&& self.speakers.wf()
        &&& self.groups.wf()
        &&& self.ip_to_speaker.wf()
        &&& forall|k: Seq<char>| #[trigger] self.speakers@.contains_key(k) ==> self.speakers@[k].id == k
        &&& forall|k: Seq<char>| #[trigger] self.groups@.contains_key(k) ==> self.groups@[k].id == k
    }

    /// An empty store.
    pub fn new() -> (r: StateStore)
        ensures
            r.wf(),
            r@ == empty_store(),
    {
        let r = StateStore {
            speaker_props: Table::new(),
            group_props: Table::new(),
            system_props: PropertyBag::new(),
            speakers: Table::new(),
            groups: Table::new(),
            ip_to_speaker: Table::new(),
            changes: Vec::new(),
        };
        assert(seq_view(r.changes@) =~= Seq::<StateChangeView>::empty());
        r
    }

    /// The value of `P` held for a speaker.
    pub fn get<P: SonosProperty>(&self, id: &SpeakerId) -> (r: Option<P>)
        requires
            self.wf(),
        ensures
            opt_view(r) == (match held(self@.speaker_props, id@, P::kind_spec()) {
                Some(v) => P::unwrap_spec(v),
                None => None,
            }),
    {
        match self.speaker_props.get_ref(id) {
            Some(bag) => bag.get::<P>(),
            None => None,
        }
    }

    /// The value of `P` held for a group.
    pub fn get_group<P: SonosProperty>(&self, id: &GroupId) -> (r: Option<P>)
        requires
            self.wf(),
        ensures
            opt_view(r) == (match held(self@.group_props, id@, P::kind_spec()) {
                Some(v) => P::unwrap_spec(v),
                None => None,
            }),
    {
        match self.group_props.get_ref(id) {
            Some(bag) => bag.get::<P>(),
            None => None,
        }
    }

    /// The system value of `P`.
    pub fn get_system<P: SonosProperty>(&self) -> (r: Option<P>)
        ensures
            opt_view(r) == (if self@.system_props.contains_key(P::kind_spec()) {
                P::unwrap_spec(self@.system_props[P::kind_spec()])
            } else {
                None
            }),
    {
        self.system_props.get::<P>()
    }

    /// Appends `c` to the change log.
    fn report(&mut self, c: StateChange)
        ensures
            final(self)@ == (StateStoreView { changes: old(self)@.changes.push(c@), ..old(self)@ }),
            final(self).speaker_props == old(self).speaker_props,
            final(self).group_props == old(self).group_props,
            final(self).speakers == old(self).speakers,
            final(self).groups == old(self).groups,
            final(self).ip_to_speaker == old(self).ip_to_speaker,
    {
        let ghost before = self.changes@;
        self.changes.push(c);
        proof {
            assert(seq_view(self.changes@) =~= seq_view(before).push(self.changes@.last()@));
        }
    }

    /// Sets a speaker value, reporting the change when the value differs.
    pub fn set_value(&mut self, id: &SpeakerId, value: PropertyValue)
        requires
            old(self).wf(),
        ensures
            final(self).wf(),
            final(self)@ == set_speaker_spec(old(self)@, id@, value@),
    {
        let kind = value.kind();
        let mut bag = match self.speaker_props.remove(id) {
            Some(b) => b,
            None => PropertyBag::new(),
        };
        let changed = bag.set_value(value);
        self.speaker_props.insert(id.view_clone(), bag);
        if changed {
            self.report(
                StateChange::SpeakerPropertyChanged {
                    speaker_id: id.view_clone(),
                    property_key: kind.key(),
                    service: kind.service(),
                },
            );
        }
        proof {
            assert(self@.speaker_props =~= set_speaker_spec(old(self)@, id@, value@).speaker_props);
        }
    }

    /// Sets a speaker property, reporting the change when the value differs.
    pub fn set<P: SonosProperty>(&mut self, id: &SpeakerId, value: P)
        requires
            old(self).wf(),
        ensures
            final(self).wf(),
            final(self)@ == set_speaker_spec(old(self)@, id@, P::wrap_spec(value@)),
    {
        let v = value.to_value();
        self.set_value(id, v)
    }

    /// Sets a group value, reporting the change when the value differs.
    pub fn set_group_value(&mut self, id: &GroupId, value: PropertyValue)
        requires
            old(self).wf(),
        ensures
            final(self).wf(),
            final(self)@ == set_group_spec(old(self)@, id@, value@),
    {
        let kind = value.kind();
        let mut bag = match self.group_props.remove(id) {
            Some(b) => b,
            None => PropertyBag::new(),
        };
        let changed = bag.set_value(value);
        self.group_props.insert(id.view_clone(), bag);
        if changed {
            self.report(
                StateChange::GroupPropertyChanged {
                    group_id: id.view_clone(),
                    property_key: kind.key(),
                    service: kind.service(),
                },
            );
        }
        proof {
            assert(self@.group_props =~= set_group_spec(old(self)@, id@, value@).group_props);
        }
    }

    /// Sets a group property, reporting the change when the value differs.
    pub fn set_group<P: SonosProperty>(&mut self, id: &GroupId, value: P)
        requires
            old(self).wf(),
        ensures
            final(self).wf(),
            final(self)@ == set_group_spec(old(self)@, id@, P::wrap_spec(value@)),
    {
        let v = value.to_value();
        self.set_group_value(id, v)
    }

    /// Sets a system value, reporting the change when the value differs.
    pub fn set_system_value(&mut self, value: PropertyValue)
        requires
            old(self).wf(),
        ensures
            final(self).wf(),
            final(self)@ == set_system_spec(old(self)@, value@),
    {
        let kind = value.kind();
        let changed = self.system_props.set_value(value);
        if changed {
            self.report(
                StateChange::SystemPropertyChanged { property_key: kind.key(), service: kind.service() },
            );
        }
    }

    /// Sets a system property, reporting the change when the value differs.
    pub fn set_system<P: SonosProperty>(&mut self, value: P)
        requires
            old(self).wf(),
        ensures
            final(self).wf(),
            final(self)@ == set_system_spec(old(self)@, P::wrap_spec(value@)),
    {
        let v = value.to_value();
        self.set_system_value(v)
    }

    /// Adds (or replaces) a speaker and maps its address to it; a new speaker
    /// is reported as added.
    pub fn add_speaker(&mut self, speaker: Speaker)
        requires
            old(self).wf(),
        ensures
            final(self).wf(),
            final(self)@ == add_speaker_spec(old(self)@, speaker@),
    {
        let id = speaker.id.view_clone();
        let ip = speaker.ip_address;
        let is_new = !self.speakers.contains_key(&id);
        self.speakers.insert(id.view_clone(), speaker);
        if is_new {
            self.report(StateChange::SpeakerAdded { speaker_id: id.view_clone() });
        }
        self.ip_to_speaker.insert(ip, id);
    }

    /// Removes a speaker with its address mapping and properties, reporting
    /// the removal; an unknown speaker changes nothing.
    pub fn remove_speaker(&mut self, id: &SpeakerId)
        requires
            old(self).wf(),
        ensures
            final(self).wf(),
            final(self)@ == remove_speaker_spec(old(self)@, id@),
    {
        match self.speakers.remove(id) {
            Some(speaker) => {
                self.ip_to_speaker.remove(&speaker.ip_address);
                self.speaker_props.remove(id);
                self.report(StateChange::SpeakerRemoved { speaker_id: id.view_clone() });
                proof {
                    assert(self@ == remove_speaker_spec(old(self)@, id@));
                }
            },
            None => {
                assert(self@.speakers =~= old(self)@.speakers);
            },
        }
    }

    /// Adds (or replaces) a group; a new group is reported as added.
    pub fn add_group(&mut self, group: GroupInfo)
        requires
            old(self).wf(),
        ensures
            final(self).wf(),
            final(self)@ == add_group_spec(old(self)@, group@),
    {
        let id = group.id.view_clone();
        let is_new = !self.groups.contains_key(&id);
        self.groups.insert(id.view_clone(), group);
        if is_new {
            self.report(StateChange::GroupAdded { group_id: id });
        }
    }

    /// Removes a group and its properties, reporting the removal; an unknown
    /// group changes nothing.
    pub fn remove_group(&mut self, id: &GroupId)
        requires
            old(self).wf(),
        ensures
            final(self).wf(),
            final(self)@ == remove_group_spec(old(self)@, id@),
    {
        match self.groups.remove(id) {
            Some(_) => {
                self.group_props.remove(id);
                self.report(StateChange::GroupRemoved { group_id: id.view_clone() });
            },
            None => {
                assert(self@.groups =~= old(self)@.groups);
            },
        }
    }

    /// A copy of a speaker's metadata.
    pub fn speaker(&self, id: &SpeakerId) -> (r: Option<Speaker>)
        requires
            self.wf(),
        ensures
            opt_view(r) == (if self@.speakers.contains_key(id@) {
                Some(self@.speakers[id@])
            } else {
                None
            }),
    {
        self.speakers.get(id)
    }

    /// A copy of a group's metadata.
    pub fn group(&self, id: &GroupId) -> (r: Option<GroupInfo>)
        requires
            self.wf(),
        ensures
            opt_view(r) == (if self@.groups.contains_key(id@) {
                Some(self@.groups[id@])
            } else {
                None
            }),
    {
        self.groups.get(id)
    }

    /// Copies of all speakers' metadata, one per speaker, in no set order.
    pub fn speakers(&self) -> (r: Vec<Speaker>)
        requires
            self.wf(),
        ensures
            seq_view(r@).len() == self@.speakers.dom().len(),
            seq_view(r@).to_set() == self@.speakers.values(),
    {
        let r = self.speakers.values();
        proof {
            self.speakers.lemma_key_seq();
            lemma_values_set(self.speakers.key_seq(), self.speakers.value_seq(), self@.speakers);
        }
        r
    }

    /// Copies of all groups' metadata, one per group, in no set order.
    pub fn groups(&self) -> (r: Vec<GroupInfo>)
        requires
            self.wf(),
        ensures
            seq_view(r@).len() == self@.groups.dom().len(),
            seq_view(r@).to_set() == self@.groups.values(),
    {
        let r = self.groups.values();
        proof {
            self.groups.lemma_key_seq();
            lemma_values_set(self.groups.key_seq(), self.groups.value_seq(), self@.groups);
        }
        r
    }

    /// The speaker at an address, if known.
    pub fn speaker_id_for_ip(&self, ip: IpAddr) -> (r: Option<SpeakerId>)
        requires
            self.wf(),
        ensures
            opt_view(r) == (if self@.ip_to_speaker.contains_key(ip) {
                Some(self@.ip_to_speaker[ip])
            } else {
                None
            }),
    {
        self.ip_to_speaker.get(&ip)
    }

    /// The number of speakers.
    pub fn speaker_count(&self) -> (r: usize)
        requires
            self.wf(),
        ensures
            r == self@.speakers.dom().len(),
    {
        self.speakers.len()
    }

    /// The number of groups.
    pub fn group_count(&self) -> (r: usize)
        requires
            self.wf(),
        ensures
            r == self@.groups.dom().len(),
    {
        self.groups.len()
    }

    /// Whether no speaker is known.
    pub fn is_empty(&self) -> (r: bool)
        requires
            self.wf(),
        ensures
            r == (self@.speakers.dom().len() == 0),
    {
        self.speaker_count() == 0
    }

    /// The services worth subscribing to: all three event services once any
    /// speaker is known, none before.
    pub fn active_services(&self) -> (r: Vec<Service>)
        requires
            self.wf(),
        ensures
            r@ == (if self@.speakers.dom().len() == 0 {
                Seq::<Service>::empty()
            } else {
                seq![Service::RenderingControl, Service::AVTransport, Service::ZoneGroupTopology]
            }),
    {
        let mut services: Vec<Service> = Vec::new();
        if !self.is_empty() {
            services.push(Service::RenderingControl);
            services.push(Service::AVTransport);
            services.push(Service::ZoneGroupTopology);
        }
        proof {
            if self@.speakers.dom().len() == 0 {
                assert(services@ =~= Seq::<Service>::empty());
            } else {
                assert(services@ =~= seq![
                    Service::RenderingControl,
                    Service::AVTransport,
                    Service::ZoneGroupTopology,
                ]);
            }
        }
        services
    }

    /// Hands out every reported change, oldest first, and empties the log.
    pub fn take_changes(&mut self) -> (r: Vec<StateChange>)
        requires
            old(self).wf(),
        ensures
            final(self).wf(),
            seq_view(r@) == old(self)@.changes,
            final(self)@ == (StateStoreView { changes: Seq::empty(), ..old(self)@ }),
    {
        let mut out: Vec<StateChange> = Vec::new();
        std::mem::swap(&mut out, &mut self.changes);
        assert(seq_view(self.changes@) =~= Seq::<StateChangeView>::empty());
        out
    }
}

/// The values listed beside distinct keys are the values of the map.
proof fn lemma_values_set<V>(ks: Seq<Seq<char>>, vs: Seq<V>, m: Map<Seq<char>, V>)
    requires
        ks.len() == vs.len(),
        ks.to_set() == m.dom(),
        forall|i: int| 0 <= i < ks.len() ==> m[#[trigger] ks[i]] == vs[i],
    ensures
        vs.to_set() == m.values(),
{
    assert forall|v: V| vs.to_set().contains(v) <==> m.values().contains(v) by {
        if vs.to_set().contains(v) {
            let i = choose|i: int| 0 <= i < vs.len() && vs[i] == v;
            assert(m[ks[i]] == vs[i]);
            assert(ks.to_set().contains(ks[i]));
        }
        if m.values().contains(v) {
            let k = choose|k: Seq<char>| m.contains_key(k) && m[k] == v;
            assert(ks.to_set().contains(k));
            let i = choose|i: int| 0 <= i < ks.len() && ks[i] == k;
            assert(m[ks[i]] == vs[i]);
        }
    }
    assert(vs.to_set() =~= m.values());
}

} // verus!
