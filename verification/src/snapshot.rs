//! Read-only copies of the cache's speakers and groups.

use vstd::prelude::*;
use crate::cache::{state_ids, states_current};
use crate::ids::{GroupId, SpeakerId};
use crate::model::{Group, GroupView, SpeakerState, SpeakerStateView};
use crate::table::Table;
use crate::text::str_eq;
use crate::viewed::{seq_view, ViewEq};

verus! {

/// The abstract content of a [`StateSnapshot`].
pub struct SnapshotView {
    pub speakers: Map<Seq<char>, SpeakerStateView>,
    pub groups: Map<Seq<char>, GroupView>,
}

/// The groups of a list, by id (later entries win).
pub open spec fn groups_by_id(gs: Seq<GroupView>) -> Map<Seq<char>, GroupView>
    decreases gs.len(),
{
    if gs.len() == 0 {
        Map::empty()
    } else {
        groups_by_id(gs.drop_last()).insert(gs.last().id, gs.last())
    }
}

/// The ids of the speakers satisfying `p`.
pub open spec fn ids_where(sp: Map<Seq<char>, SpeakerStateView>, p: spec_fn(SpeakerStateView) -> bool) -> Set<Seq<char>> {
    Set::new(|k: Seq<char>| sp.contains_key(k) && p(sp[k]))
}

/// Whether a speaker is in group `gid`.
pub open spec fn in_group(gid: Seq<char>) -> spec_fn(SpeakerStateView) -> bool {
    |s: SpeakerStateView| s.group_id == Some(gid)
}

/// Whether a speaker is the coordinator of group `gid`.
pub open spec fn coordinates(gid: Seq<char>) -> spec_fn(SpeakerStateView) -> bool {
    |s: SpeakerStateView| s.group_id == Some(gid) && s.is_coordinator
}

/// Whether a speaker is in room `room`.
pub open spec fn in_room(room: Seq<char>) -> spec_fn(SpeakerStateView) -> bool {
    |s: SpeakerStateView| s.speaker.room_name == room
}

/// Whether a speaker is named `name`.
pub open spec fn named(name: Seq<char>) -> spec_fn(SpeakerStateView) -> bool {
    |s: SpeakerStateView| s.speaker.name == name
}

/// Copies of speaker states and groups, each under its own id.
#[derive(Debug)]
pub struct StateSnapshot {
    speakers: Table<SpeakerId, SpeakerState>,
    groups: Table<GroupId, Group>,
}

impl View for StateSnapshot {
    type V = SnapshotView;

    closed spec fn view(&self) -> SnapshotView {
        SnapshotView { speakers: self.speakers@, groups: self.groups@ }
    }
}

impl StateSnapshot {
    /// The tables are well formed and every entry is filed under its own id.
    pub closed spec fn wf(&self) -> bool {
        &&& self.speakers.wf()
        &&& self.groups.wf()
        &&& forall|k: Seq<char>| #[trigger] self.speakers@.contains_key(k) ==> self.speakers@[k].speaker.id == k
        &&& forall|k: Seq<char>| #[trigger] self.groups@.contains_key(k) ==> self.groups@[k].id == k
    }

    /// An empty snapshot.
    pub fn new() -> (r: StateSnapshot)
        ensures
            r.wf(),
            r@.speakers == Map::<Seq<char>, SpeakerStateView>::empty(),
            r@.groups == Map::<Seq<char>, GroupView>::empty(),
    {
        StateSnapshot { speakers: Table::new(), groups: Table::new() }
    }

    /// A snapshot of the given speakers (each filed under its own id) and
    /// groups.
    pub fn from_parts(speakers: Table<SpeakerId, SpeakerState>, groups: &Vec<Group>) -> (r: StateSnapshot)
        requires
            speakers.wf(),
            forall|k: Seq<char>| #[trigger] speakers@.contains_key(k) ==> speakers@[k].speaker.id == k,
        ensures
            r.wf(),
            r@.speakers == speakers@,
            r@.groups == groups_by_id(seq_view(groups@)),
    {
        let mut table: Table<GroupId, Group> = Table::new();
        let mut i: usize = 0;
        let ghost gs = seq_view(groups@);
        assert(gs.take(0) =~= Seq::<GroupView>::empty());
        while i < groups.len()
            invariant
                i <= groups.len(),
                gs == seq_view(groups@),
                table.wf(),
                table@ == groups_by_id(gs.take(i as int)),
                forall|k: Seq<char>| #[trigger] table@.contains_key(k) ==> table@[k].id == k,
            decreases groups.len() - i,
        {
            let g = groups[i].view_clone();
            let id = g.get_id().view_clone();
            table.insert(id, g);
            proof {
                assert(gs.take(i + 1).drop_last() =~= gs.take(i as int));
                assert(gs.take(i + 1).last() == gs[i as int]);
            }
            i = i + 1;
        }
        assert(gs.take(gs.len() as int) =~= gs);
        StateSnapshot { speakers, groups: table }
    }

    /// Copies of all speaker states, one per speaker, in no set order.
    pub fn speakers(&self) -> (r: Vec<SpeakerState>)
        requires
            self.wf(),
        ensures
            state_ids(r@).no_duplicates(),
            state_ids(r@).to_set() == self@.speakers.dom(),
            states_current(self@.speakers, r@),
    {
        let r = self.speakers.values();
        proof {
            self.speakers.lemma_key_seq();
            let ks = self.speakers.key_seq();
            let vs = self.speakers.value_seq();
            assert forall|i: int| 0 <= i < r@.len() implies ks[i] == r@[i]@.speaker.id
                && self@.speakers.contains_key(ks[i]) && self@.speakers[ks[i]] == r@[i]@ by {
                assert(seq_view(r@)[i] == r@[i]@);
                assert(ks.to_set().contains(ks[i]));
                assert(self@.speakers[ks[i]] == vs[i]);
            }
            assert(state_ids(r@) =~= ks);
            assert forall|i: int| 0 <= i < r@.len() implies self@.speakers.contains_key(#[trigger] r@[i]@.speaker.id)
                && self@.speakers[r@[i]@.speaker.id] == r@[i]@ by {
                assert(ks[i] == r@[i]@.speaker.id);
            }
        }
        r
    }

    /// Copies of all groups, one per group, in no set order.
    pub fn groups(&self) -> (r: Vec<Group>)
        requires
            self.wf(),
        ensures
            seq_view(r@).len() == self@.groups.dom().len(),
            seq_view(r@).to_set() == self@.groups.values(),
    {
        let r = self.groups.values();
        proof {
            self.groups.lemma_key_seq();
            let ks = self.groups.key_seq();
            let vs = self.groups.value_seq();
            assert forall|v: GroupView| vs.to_set().contains(v) <==> self@.groups.values().contains(v) by {
                if vs.to_set().contains(v) {
                    let i = choose|i: int| 0 <= i < vs.len() && vs[i] == v;
                    assert(self@.groups[ks[i]] == vs[i]);
                    assert(ks.to_set().contains(ks[i]));
                }
                if self@.groups.values().contains(v) {
                    let k = choose|k: Seq<char>| self@.groups.contains_key(k) && self@.groups[k] == v;
                    assert(ks.to_set().contains(k));
                    let i = choose|i: int| 0 <= i < ks.len() && ks[i] == k;
                    assert(self@.groups[ks[i]] == vs[i]);
                }
            }
            assert(vs.to_set() =~= self@.groups.values());
        }
        r
    }

    /// A speaker's state.
    pub fn get_speaker(&self, id: &SpeakerId) -> (r: Option<&SpeakerState>)
        requires
            self.wf(),
        ensures
            r is Some == self@.speakers.contains_key(id@),
            r matches Some(s) ==> s@ == self@.speakers[id@],
    {
        self.speakers.get_ref(id)
    }

    /// A group.
    pub fn get_group(&self, id: &GroupId) -> (r: Option<&Group>)
        requires
            self.wf(),
        ensures
            r is Some == self@.groups.contains_key(id@),
            r matches Some(g) ==> g@ == self@.groups[id@],
    {
        self.groups.get_ref(id)
    }

    /// Copies of the states of the speakers in a group.
    pub fn speakers_in_group(&self, group_id: &GroupId) -> (r: Vec<SpeakerState>)
        requires
            self.wf(),
        ensures
            state_ids(r@).no_duplicates(),
            state_ids(r@).to_set() == ids_where(self@.speakers, in_group(group_id@)),
            states_current(self@.speakers, r@),
    {
        let all = self.speakers();
        let ghost ids = state_ids(all@);
        let ghost sp = self@.speakers;
        let ghost p = in_group(group_id@);
        let mut out: Vec<SpeakerState> = Vec::new();
        let mut i: usize = 0;
        proof {
            assert(state_ids(out@).to_set() =~= ids.take(0).to_set().filter(|k: Seq<char>| p(sp[k])));
        }
        while i < all.len()
            invariant
                i <= all.len(),
                ids == state_ids(all@),
                sp == self@.speakers,
                p == in_group(group_id@),
                ids.no_duplicates(),
                ids.to_set() == sp.dom(),
                states_current(sp, all@),
                states_current(sp, out@),
                state_ids(out@).no_duplicates(),
                state_ids(out@).to_set() == ids.take(i as int).to_set().filter(|k: Seq<char>| p(sp[k])),
            decreases all.len() - i,
        {
            let ghost ob = state_ids(out@);
            let ghost k = ids[i as int];
            proof {
                lemma_step(ids, i as int);
                assert(sp[k] == all@[i as int]@);
            }
            let hit = match &all[i].group_id {
                Some(g) => g.view_eq(group_id),
                None => false,
            };
            if hit {
                out.push(all[i].view_clone());
                proof {
                    assert(state_ids(out@) =~= ob.push(k));
                    ob.lemma_push_to_set_commute(k);
                    assert(!ob.contains(k)) by {
                        assert(!ob.to_set().contains(k));
                    }
                    assert(state_ids(out@).to_set() =~= ids.take(i + 1).to_set().filter(|x: Seq<char>| p(sp[x])));
                }
            } else {
                proof {
                    assert(state_ids(out@).to_set() =~= ids.take(i + 1).to_set().filter(|x: Seq<char>| p(sp[x])));
                }
            }
            i = i + 1;
        }
        proof {
            assert(ids.take(ids.len() as int) =~= ids);
            assert(state_ids(out@).to_set() =~= ids_where(sp, p));
        }
        out
    }

    /// Copies of the states of the speakers in a room.
    pub fn speakers_by_room(&self, room_name: &str) -> (r: Vec<SpeakerState>)
        requires
            self.wf(),
        ensures
            state_ids(r@).no_duplicates(),
            state_ids(r@).to_set() == ids_where(self@.speakers, in_room(room_name@)),
            states_current(self@.speakers, r@),
    {
        let all = self.speakers();
        let ghost ids = state_ids(all@);
        let ghost sp = self@.speakers;
        let ghost p = in_room(room_name@);
        let mut out: Vec<SpeakerState> = Vec::new();
        let mut i: usize = 0;
        proof {
            assert(state_ids(out@).to_set() =~= ids.take(0).to_set().filter(|k: Seq<char>| p(sp[k])));
        }
        while i < all.len()
            invariant
                i <= all.len(),
                ids == state_ids(all@),
                sp == self@.speakers,
                p == in_room(room_name@),
                ids.no_duplicates(),
                ids.to_set() == sp.dom(),
                states_current(sp, all@),
                states_current(sp, out@),
                state_ids(out@).no_duplicates(),
                state_ids(out@).to_set() == ids.take(i as int).to_set().filter(|k: Seq<char>| p(sp[k])),
            decreases all.len() - i,
        {
            let ghost ob = state_ids(out@);
            let ghost k = ids[i as int];
            proof {
                lemma_step(ids, i as int);
                assert(sp[k] == all@[i as int]@);
            }
            if str_eq(all[i].speaker.room_name.as_str(), room_name) {
                out.push(all[i].view_clone());
                proof {
                    assert(state_ids(out@) =~= ob.push(k));
                    ob.lemma_push_to_set_commute(k);
                    assert(!ob.contains(k)) by {
                        assert(!ob.to_set().contains(k));
                    }
                    assert(state_ids(out@).to_set() =~= ids.take(i + 1).to_set().filter(|x: Seq<char>| p(sp[x])));
                }
            } else {
                proof {
                    assert(state_ids(out@).to_set() =~= ids.take(i + 1).to_set().filter(|x: Seq<char>| p(sp[x])));
                }
            }
            i = i + 1;
        }
        proof {
            assert(ids.take(ids.len() as int) =~= ids);
            assert(state_ids(out@).to_set() =~= ids_where(sp, p));
        }
        out
    }

    /// A copy of the state of some speaker satisfying `p`, found by the
    /// predicate's executable form `matches`.
    fn find_where(&self, all: &Vec<SpeakerState>, group_id: &GroupId, name: &str, by_name: bool) -> (r: Option<SpeakerState>)
        requires
            self.wf(),
            state_ids(all@).to_set() == self@.speakers.dom(),
            states_current(self@.speakers, all@),
        ensures
            ({
                let p = if by_name { named(name@) } else { coordinates(group_id@) };
                &&& r is None <==> !exists|k: Seq<char>| #[trigger] self@.speakers.contains_key(k) && p(self@.speakers[k])
                &&& r matches Some(s) ==> self@.speakers.contains_key(s@.speaker.id) && self@.speakers[s@.speaker.id] == s@
                    && p(s@)
            }),
    {
        let ghost ids = state_ids(all@);
        let ghost p = if by_name { named(name@) } else { coordinates(group_id@) };
        let mut i: usize = 0;
        while i < all.len()
            invariant
                i <= all.len(),
                ids == state_ids(all@),
                p == (if by_name { named(name@) } else { coordinates(group_id@) }),
                ids.to_set() == self@.speakers.dom(),
                states_current(self@.speakers, all@),
                forall|b: int| 0 <= b < i ==> !p(#[trigger] all@[b]@),
            decreases all.len() - i,
        {
            let s = &all[i];
            let hit = if by_name {
                str_eq(s.speaker.name.as_str(), name)
            } else {
                s.is_coordinator && match &s.group_id {
                    Some(g) => g.view_eq(group_id),
                    None => false,
                }
            };
            if hit {
                proof {
                    assert(self@.speakers.contains_key(ids[i as int]));
                    assert(self@.speakers[ids[i as int]] == all@[i as int]@);
                }
                return Some(all[i].view_clone());
            }
            i = i + 1;
        }
        proof {
            assert forall|k: Seq<char>| #[trigger] self@.speakers.contains_key(k) implies !p(self@.speakers[k]) by {
                assert(ids.to_set().contains(k));
                let a = choose|a: int| 0 <= a < ids.len() && ids[a] == k;
                assert(self@.speakers[ids[a]] == all@[a]@);
            }
        }
        None
    }

    /// A copy of the state of a coordinator of the group, if the snapshot
    /// has one.
    pub fn group_coordinator(&self, group_id: &GroupId) -> (r: Option<SpeakerState>)
        requires
            self.wf(),
        ensures
            r is None <==> !exists|k: Seq<char>| #[trigger] self@.speakers.contains_key(k) && coordinates(group_id@)(
                self@.speakers[k],
            ),
            r matches Some(s) ==> self@.speakers.contains_key(s@.speaker.id) && self@.speakers[s@.speaker.id] == s@
                && coordinates(group_id@)(s@),
    {
        let all = self.speakers();
        self.find_where(&all, group_id, "", false)
    }

    /// A copy of the state of some speaker with the given name.
    pub fn speaker_by_name(&self, name: &str) -> (r: Option<SpeakerState>)
        requires
            self.wf(),
        ensures
            r is None <==> !exists|k: Seq<char>| #[trigger] self@.speakers.contains_key(k) && named(name@)(self@.speakers[k]),
            r matches Some(s) ==> self@.speakers.contains_key(s@.speaker.id) && self@.speakers[s@.speaker.id] == s@
                && named(name@)(s@),
    {
        let all = self.speakers();
        let none = GroupId::new("");
        self.find_where(&all, &none, name, true)
    }

    /// The number of speakers.
    pub fn speaker_count(&self) -> (r: usize)
        requires
            self.wf(),
        ensures
            r == self@.speakers.dom().len(),
    {
        self.speakers.len()
    }

    /// The number of groups.
    pub fn group_count(&self) -> (r: usize)
        requires
            self.wf(),
        ensures
            r == self@.groups.dom().len(),
    {
        self.groups.len()
    }

    /// Whether the snapshot has no speakers.
    pub fn is_empty(&self) -> (r: bool)
        requires
            self.wf(),
        ensures
            r == (self@.speakers.dom().len() == 0),
    {
        self.speakers.len() == 0
    }
}

/// One more element of a duplicate-free list extends its prefix's set by an
/// element not yet in it.
proof fn lemma_step(ids: Seq<Seq<char>>, i: int)
    requires
        ids.no_duplicates(),
        0 <= i < ids.len(),
    ensures
        ids.take(i + 1) == ids.take(i).push(ids[i]),
        ids.take(i + 1).to_set() == ids.take(i).to_set().insert(ids[i]),
        !ids.take(i).to_set().contains(ids[i]),
{
    assert(ids.take(i + 1) =~= ids.take(i).push(ids[i]));
    ids.take(i).lemma_push_to_set_commute(ids[i]);
    if ids.take(i).to_set().contains(ids[i]) {
        let j = choose|j: int| 0 <= j < i && ids.take(i)[j] == ids[i];
        assert(ids[j] == ids[i]);
    }
}

} // verus!
