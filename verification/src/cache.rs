//! A cache of speaker and group state whose updates report what changed.

use vstd::prelude::*;
use crate::ids::{GroupId, SpeakerId};
use crate::model::{
    initial_speaker_state, opt_change_view, opt_track_view, refs_view, same_track, Group, GroupView,
    PlaybackState, SpeakerRefView, SpeakerState, SpeakerStateView, StateChange, StateChangeView,
    TrackInfo, TrackInfoView,
};
use crate::speaker::Speaker;
use crate::table::Table;
use crate::text::str_eq;
use crate::viewed::{seq_view, ViewEq};

verus! {

// ---------------------------------------------------------------------------
// Abstract state
// ---------------------------------------------------------------------------

/// The abstract state of a [`StateCache`]: speaker states by id, and the
/// groups in the order the cache keeps them (ids distinct).
pub struct CacheView {
    pub speakers: Map<Seq<char>, SpeakerStateView>,
    pub groups: Seq<GroupView>,
}

/// No two groups share an id.
pub open spec fn group_ids_distinct(gs: Seq<GroupView>) -> bool {
    forall|i: int, j: int| 0 <= i < gs.len() && 0 <= j < gs.len() && i != j ==> gs[i].id != gs[j].id
}

/// Whether some group of `gs` has id `id`.
pub open spec fn has_group(gs: Seq<GroupView>, id: Seq<char>) -> bool {
    exists|i: int| 0 <= i < gs.len() && #[trigger] gs[i].id == id
}

/// The position of the group with id `id` in `gs`.
pub open spec fn group_index(gs: Seq<GroupView>, id: Seq<char>) -> int {
    choose|i: int| 0 <= i < gs.len() && #[trigger] gs[i].id == id
}

/// `gs` with `g` stored: replacing the group with the same id in place, or
/// appended if there is none.
pub open spec fn put_group(gs: Seq<GroupView>, g: GroupView) -> Seq<GroupView> {
    if has_group(gs, g.id) {
        gs.update(group_index(gs, g.id), g)
    } else {
        gs.push(g)
    }
}

/// `gs` with each group of `news` stored in order.
pub open spec fn put_groups(gs: Seq<GroupView>, news: Seq<GroupView>) -> Seq<GroupView>
    decreases news.len(),
{
    if news.len() == 0 {
        gs
    } else {
        put_group(put_groups(gs, news.drop_last()), news.last())
    }
}

// ---------------------------------------------------------------------------
// Group assignment
// ---------------------------------------------------------------------------

/// One assignment: speaker, group, and whether it coordinates that group.
pub type Assignment = (Seq<char>, Seq<char>, bool);

/// `sp` with one assignment applied to a known speaker.
pub open spec fn assign_one(sp: Map<Seq<char>, SpeakerStateView>, a: Assignment) -> Map<Seq<char>, SpeakerStateView> {
    if sp.contains_key(a.0) {
        sp.insert(a.0, SpeakerStateView { group_id: Some(a.1), is_coordinator: a.2, ..sp[a.0] })
    } else {
        sp
    }
}

/// `sp` with the assignments of `steps` applied in order.
pub open spec fn assign_all(sp: Map<Seq<char>, SpeakerStateView>, steps: Seq<Assignment>) -> Map<Seq<char>, SpeakerStateView>
    decreases steps.len(),
{
    if steps.len() == 0 {
        sp
    } else {
        assign_one(assign_all(sp, steps.drop_last()), steps.last())
    }
}

/// The assignments one member makes: itself (coordinator if it is the
/// group's coordinator), then each of its satellites (never coordinators).
pub open spec fn member_steps(gid: Seq<char>, coordinator: Seq<char>, m: SpeakerRefView) -> Seq<Assignment> {
    seq![(m.id, gid, m.id == coordinator)] + m.satellite_ids.map_values(|s: Seq<char>| (s, gid, false))
}

/// The assignments of the members `ms` of one group, in order.
pub open spec fn members_steps(gid: Seq<char>, coordinator: Seq<char>, ms: Seq<SpeakerRefView>) -> Seq<Assignment>
    decreases ms.len(),
{
    if ms.len() == 0 {
        Seq::empty()
    } else {
        members_steps(gid, coordinator, ms.drop_last()) + member_steps(gid, coordinator, ms.last())
    }
}

/// The assignments of the groups `gs`, group by group.
pub open spec fn groups_steps(gs: Seq<GroupView>) -> Seq<Assignment>
    decreases gs.len(),
{
    if gs.len() == 0 {
        Seq::empty()
    } else {
        groups_steps(gs.drop_last()) + members_steps(gs.last().id, gs.last().coordinator_id, gs.last().members)
    }
}

/// Every speaker's group and coordinator flag cleared.
pub open spec fn cleared(sp: Map<Seq<char>, SpeakerStateView>) -> Map<Seq<char>, SpeakerStateView> {
    Map::new(
        |k: Seq<char>| sp.contains_key(k),
        |k: Seq<char>| SpeakerStateView { group_id: None, is_coordinator: false, ..sp[k] },
    )
}

/// The speakers after their group assignments are recomputed from `gs`:
/// every speaker is cleared, then each group assigns its members and their
/// satellites, in group order (a later group wins).
pub open spec fn assignments_spec(sp: Map<Seq<char>, SpeakerStateView>, gs: Seq<GroupView>) -> Map<Seq<char>, SpeakerStateView> {
    assign_all(cleared(sp), groups_steps(gs))
}

/// An element is in the first `i + 1` entries exactly when it is in the
/// first `i` or is entry `i`.
pub proof fn lemma_take_next_contains<A>(s: Seq<A>, i: int, x: A)
    requires
        0 <= i < s.len(),
    ensures
        s.take(i + 1).contains(x) <==> (s.take(i).contains(x) || x == s[i]),
{
    if s.take(i + 1).contains(x) {
        let j = choose|j: int| 0 <= j < i + 1 && #[trigger] s.take(i + 1)[j] == x;
        if j < i {
            assert(s.take(i)[j] == x);
        }
    }
    if s.take(i).contains(x) {
        let j = choose|j: int| 0 <= j < i && #[trigger] s.take(i)[j] == x;
        assert(s.take(i + 1)[j] == x);
    }
    if x == s[i] {
        assert(s.take(i + 1)[i] == x);
    }
}

/// `sp` with a fresh state for each speaker of `sps`, in order.
pub open spec fn add_states_spec(sp: Map<Seq<char>, SpeakerStateView>, sps: Seq<crate::speaker::SpeakerView>) -> Map<Seq<char>, SpeakerStateView>
    decreases sps.len(),
{
    if sps.len() == 0 {
        sp
    } else {
        let prev = add_states_spec(sp, sps.drop_last());
        prev.insert(sps.last().id, initial_speaker_state(sps.last()))
    }
}

/// The states of the members of `ms` the cache knows, in member order.
pub open spec fn member_states(sp: Map<Seq<char>, SpeakerStateView>, ms: Seq<SpeakerRefView>) -> Seq<SpeakerStateView>
    decreases ms.len(),
{
    if ms.len() == 0 {
        Seq::empty()
    } else {
        member_states(sp, ms.drop_last()) + if sp.contains_key(ms.last().id) {
            seq![sp[ms.last().id]]
        } else {
            Seq::<SpeakerStateView>::empty()
        }
    }
}

/// A move of more than one second between two positions.
pub open spec fn position_significant(old_ms: u64, new_ms: u64) -> bool {
    if old_ms >= new_ms {
        old_ms - new_ms > 1000
    } else {
        new_ms - old_ms > 1000
    }
}

/// Whether a speaker's track changed: it appeared or disappeared, or both
/// are known and are not the same track.
pub open spec fn track_changed(old_track: Option<TrackInfoView>, new_track: Option<TrackInfoView>) -> bool {
    match (old_track, new_track) {
        (None, None) => false,
        (Some(a), Some(b)) => !same_track(a, b),
        _ => true,
    }
}

/// The speaker ids of a list of states.
pub open spec fn state_ids(v: Seq<SpeakerState>) -> Seq<Seq<char>> {
    v.map_values(|st: SpeakerState| st@.speaker.id)
}

/// Each state of `v` is the cache's current state of its speaker.
pub open spec fn states_current(sp: Map<Seq<char>, SpeakerStateView>, v: Seq<SpeakerState>) -> bool {
    forall|i: int| 0 <= i < v.len() ==> sp.contains_key(#[trigger] v[i]@.speaker.id) && sp[v[i]@.speaker.id] == v[i]@
}

/// The ids of the speakers in room `room`.
pub open spec fn room_ids(sp: Map<Seq<char>, SpeakerStateView>, room: Seq<char>) -> Set<Seq<char>> {
    Set::new(|k: Seq<char>| sp.contains_key(k) && sp[k].speaker.room_name == room)
}

/// The views of a list of groups.
pub open spec fn groups_view(gs: Seq<Group>) -> Seq<GroupView> {
    gs.map_values(|g: Group| g@)
}

/// A speaker's volume set: reported when it changed.
pub open spec fn update_volume_spec(c: CacheView, id: Seq<char>, volume: u8) -> (CacheView, Option<StateChangeView>) {
    if c.speakers.contains_key(id) && c.speakers[id].volume != volume {
        (
            CacheView { speakers: c.speakers.insert(id, SpeakerStateView { volume, ..c.speakers[id] }), ..c },
            Some(StateChangeView::VolumeChanged { speaker_id: id, old_volume: c.speakers[id].volume, new_volume: volume }),
        )
    } else {
        (c, None)
    }
}

/// A speaker's mute state set: reported when it changed.
pub open spec fn update_mute_spec(c: CacheView, id: Seq<char>, muted: bool) -> (CacheView, Option<StateChangeView>) {
    if c.speakers.contains_key(id) && c.speakers[id].muted != muted {
        (
            CacheView { speakers: c.speakers.insert(id, SpeakerStateView { muted, ..c.speakers[id] }), ..c },
            Some(StateChangeView::MuteChanged { speaker_id: id, muted }),
        )
    } else {
        (c, None)
    }
}

/// A speaker's playback state set: reported when it changed.
pub open spec fn update_playback_spec(c: CacheView, id: Seq<char>, ps: PlaybackState) -> (CacheView, Option<StateChangeView>) {
    if c.speakers.contains_key(id) && c.speakers[id].playback_state != ps {
        (
            CacheView { speakers: c.speakers.insert(id, SpeakerStateView { playback_state: ps, ..c.speakers[id] }), ..c },
            Some(StateChangeView::PlaybackStateChanged { speaker_id: id, old_state: c.speakers[id].playback_state, new_state: ps }),
        )
    } else {
        (c, None)
    }
}

/// A speaker's position set: a move of more than a second or a new duration
/// stores both and is reported; a smaller move stores the position silently.
pub open spec fn update_position_spec(c: CacheView, id: Seq<char>, pos: u64, dur: u64) -> (CacheView, Option<StateChangeView>) {
    if !c.speakers.contains_key(id) {
        (c, None)
    } else if position_significant(c.speakers[id].position_ms, pos) || c.speakers[id].duration_ms != dur {
        (
            CacheView {
                speakers: c.speakers.insert(id, SpeakerStateView { position_ms: pos, duration_ms: dur, ..c.speakers[id] }),
                ..c
            },
            Some(StateChangeView::PositionChanged { speaker_id: id, position_ms: pos, duration_ms: dur }),
        )
    } else {
        (CacheView { speakers: c.speakers.insert(id, SpeakerStateView { position_ms: pos, ..c.speakers[id] }), ..c }, None)
    }
}

/// A speaker's track set: reported with the old and new track when it changed.
pub open spec fn update_track_spec(c: CacheView, id: Seq<char>, t: Option<TrackInfoView>) -> (CacheView, Option<StateChangeView>) {
    if c.speakers.contains_key(id) && track_changed(c.speakers[id].current_track, t) {
        (
            CacheView { speakers: c.speakers.insert(id, SpeakerStateView { current_track: t, ..c.speakers[id] }), ..c },
            Some(StateChangeView::TrackChanged { speaker_id: id, old_track: c.speakers[id].current_track, new_track: t }),
        )
    } else {
        (c, None)
    }
}

/// All groups replaced by `gs` and speakers reassigned; always reported, with
/// the old groups in cache order and the new ones as given.
pub open spec fn set_groups_spec(c: CacheView, gs: Seq<GroupView>) -> (CacheView, Option<StateChangeView>) {
    let ng = put_groups(Seq::empty(), gs);
    (
        CacheView { speakers: assignments_spec(c.speakers, ng), groups: ng },
        Some(StateChangeView::GroupsChanged { old_groups: c.groups, new_groups: gs }),
    )
}

// ---------------------------------------------------------------------------
// StateCache
// ---------------------------------------------------------------------------

/// Cache of speaker and group state; each update reports the change it made.
#[derive(Debug)]
pub struct StateCache {
    speakers: Table<SpeakerId, SpeakerState>,
    groups: Vec<Group>,
}

impl View for StateCache {
    type V = CacheView;

    closed spec fn view(&self) -> CacheView {
        CacheView { speakers: self.speakers@, groups: self.groups@.map_values(|g: Group| g@) }
    }
}

impl StateCache {
    /// Speaker states are keyed by their own ids, and group ids are distinct.
    pub closed spec fn wf(&self) -> bool {
        &&& self.speakers.wf()
        &&& forall|k: Seq<char>| #[trigger] self.speakers@.contains_key(k) ==> self.speakers@[k].speaker.id == k
        &&& group_ids_distinct(self@.groups)
    }

    /// An empty cache.
    pub fn new() -> (r: StateCache)
        ensures
            r.wf(),
            r@.speakers == Map::<Seq<char>, SpeakerStateView>::empty(),
            r@.groups == Seq::<GroupView>::empty(),
    {
        let r = StateCache { speakers: Table::new(), groups: Vec::new() };
        assert(r@.groups =~= Seq::<GroupView>::empty());
        r
    }

    /// Applies one assignment to a known speaker.
    fn assign(&mut self, speaker_id: &SpeakerId, group_id: &GroupId, is_coordinator: bool)
        requires
            old(self).wf(),
        ensures
            final(self).wf(),
            final(self)@ == (CacheView {
                speakers: assign_one(old(self)@.speakers, (speaker_id@, group_id@, is_coordinator)),
                ..old(self)@
            }),
    {
        match self.speakers.remove(speaker_id) {
            Some(state) => {
                let mut st = state;
                st.group_id = Some(group_id.view_clone());
                st.is_coordinator = is_coordinator;
                let key = st.speaker.id.view_clone();
                self.speakers.insert(key, st);
                proof {
                    assert(self@.speakers =~= assign_one(old(self)@.speakers, (speaker_id@, group_id@, is_coordinator)));
                }
            },
            None => {
                proof {
                    assert(self@.speakers =~= old(self)@.speakers);
                }
            },
        }
    }

    /// Clears every speaker's group and coordinator flag.
    fn clear_assignments(&mut self)
        requires
            old(self).wf(),
        ensures
            final(self).wf(),
            final(self)@ == (CacheView { speakers: cleared(old(self)@.speakers), ..old(self)@ }),
    {
        let states = self.speakers.values();
        proof {
            self.speakers.lemma_key_seq();
        }
        let ghost ks = self.speakers.key_seq();
        let ghost sp = self@.speakers;
        let mut fresh: Table<SpeakerId, SpeakerState> = Table::new();
        let mut i: usize = 0;
        while i < states.len()
            invariant
                i <= states.len(),
                fresh.wf(),
                seq_view(states@) == self.speakers.value_seq(),
                ks == self.speakers.key_seq(),
                sp == self.speakers@,
                ks.len() == states@.len(),
                ks.no_duplicates(),
                forall|j: int| 0 <= j < ks.len() ==> sp[#[trigger] ks[j]] == self.speakers.value_seq()[j],
                forall|k: Seq<char>| #[trigger] sp.contains_key(k) ==> sp[k].speaker.id == k,
                forall|k: Seq<char>| ks.to_set().contains(k) ==> sp.contains_key(k),
                fresh@ == Map::new(
                    |k: Seq<char>| ks.take(i as int).contains(k),
                    |k: Seq<char>| SpeakerStateView { group_id: None, is_coordinator: false, ..sp[k] },
                ),
            decreases states.len() - i,
        {
            let mut st = states[i].view_clone();
            proof {
                assert(seq_view(states@)[i as int] == states@[i as int]@);
                assert(ks.to_set().contains(ks[i as int]));
                assert(sp[ks[i as int]] == states@[i as int]@);
            }
            st.group_id = None;
            st.is_coordinator = false;
            let key = st.speaker.id.view_clone();
            let ghost before = fresh@;
            fresh.insert(key, st);
            proof {
                let k0 = ks[i as int];
                assert(key@ == k0);
                let target = Map::new(
                    |k: Seq<char>| ks.take(i + 1).contains(k),
                    |k: Seq<char>| SpeakerStateView { group_id: None, is_coordinator: false, ..sp[k] },
                );
                assert(fresh@[k0] == SpeakerStateView { group_id: None, is_coordinator: false, ..sp[k0] });
                assert forall|k: Seq<char>| fresh@.contains_key(k) <==> target.contains_key(k) by {
                    lemma_take_next_contains(ks, i as int, k);
                }
                assert forall|k: Seq<char>| fresh@.contains_key(k) implies fresh@[k] == target[k] by {
                    lemma_take_next_contains(ks, i as int, k);
                    if k != k0 {
                        assert(before.contains_key(k));
                    }
                }
                assert(fresh@ =~= target);
            }
            i = i + 1;
        }
        proof {
            assert(ks.take(ks.len() as int) =~= ks);
            assert forall|k: Seq<char>| ks.contains(k) <==> sp.contains_key(k) by {
                assert(ks.to_set().contains(k) == ks.contains(k));
            }
            assert(fresh@ =~= cleared(sp));
        }
        self.speakers = fresh;
    }

    /// Recomputes every speaker's group and coordinator flag from the groups
    /// (see [`assignments_spec`]).
    fn update_speaker_group_assignments(&mut self)
        requires
            old(self).wf(),
        ensures
            final(self).wf(),
            final(self)@ == (CacheView {
                speakers: assignments_spec(old(self)@.speakers, old(self)@.groups),
                ..old(self)@
            }),
    {
        self.clear_assignments();
        let ghost c0 = self@.speakers;
        let ghost gs = self@.groups;
        let ghost mut done: Seq<Assignment> = Seq::empty();
        let n = self.groups.len();
        let mut i: usize = 0;
        proof {
            assert(gs.take(0) =~= Seq::<GroupView>::empty());
        }
        while i < n
            invariant
                self.wf(),
                n == self.groups.len(),
                i <= n,
                gs == self@.groups,
                self@.speakers == assign_all(c0, done),
                done == groups_steps(gs.take(i as int)),
            decreases n - i,
        {
            let g = self.groups[i].view_clone();
            let ghost gv = gs[i as int];
            assert(g@ == gv);
            let members = g.get_members();
            let ghost ms = gv.members;
            let ghost pre = done;
            let mut j: usize = 0;
            proof {
                assert(ms.take(0) =~= Seq::<SpeakerRefView>::empty());
                assert(done =~= pre + members_steps(gv.id, gv.coordinator_id, ms.take(0)));
            }
            while j < members.len()
                invariant
                    self.wf(),
                    n == self.groups.len(),
                    i < n,
                    gs == self@.groups,
                    g@ == gv,
                    refs_view(members@) == ms,
                    ms == gv.members,
                    j <= members.len(),
                    self@.speakers == assign_all(c0, done),
                    done == pre + members_steps(gv.id, gv.coordinator_id, ms.take(j as int)),
                decreases members.len() - j,
            {
                let m = &members[j];
                let ghost mv = ms[j as int];
                assert(m@ == mv);
                let ghost mid = done;
                let is_coordinator = m.get_id().view_eq(g.get_coordinator_id());
                self.assign(m.get_id(), g.get_id(), is_coordinator);
                proof {
                    let x = (mv.id, gv.id, mv.id == gv.coordinator_id);
                    assert(done.push(x).drop_last() =~= done);
                    done = done.push(x);
                }
                let sats = m.get_satellites();
                let ghost ss = mv.satellite_ids;
                let mut k: usize = 0;
                proof {
                    assert(done =~= mid + seq![(mv.id, gv.id, mv.id == gv.coordinator_id)]
                        + ss.take(0).map_values(|s: Seq<char>| (s, gv.id, false)));
                }
                while k < sats.len()
                    invariant
                        self.wf(),
                        n == self.groups.len(),
                        gs == self@.groups,
                        g@ == gv,
                        seq_view(sats@) == ss,
                        k <= sats.len(),
                        self@.speakers == assign_all(c0, done),
                        done == mid + seq![(mv.id, gv.id, mv.id == gv.coordinator_id)]
                            + ss.take(k as int).map_values(|s: Seq<char>| (s, gv.id, false)),
                    decreases sats.len() - k,
                {
                    self.assign(&sats[k], g.get_id(), false);
                    proof {
                        let x = (ss[k as int], gv.id, false);
                        assert(seq_view(sats@)[k as int] == sats@[k as int]@);
                        assert(done.push(x).drop_last() =~= done);
                        done = done.push(x);
                        assert(ss.take(k + 1).map_values(|s: Seq<char>| (s, gv.id, false)) =~= ss.take(
                            k as int,
                        ).map_values(|s: Seq<char>| (s, gv.id, false)).push(x));
                    }
                    k = k + 1;
                }
                proof {
                    assert(ss.take(ss.len() as int) =~= ss);
                    assert(ms.take(j + 1).drop_last() =~= ms.take(j as int));
                    assert(ms.take(j + 1).last() == mv);
                    assert(done =~= pre + members_steps(gv.id, gv.coordinator_id, ms.take(j + 1)));
                }
                j = j + 1;
            }
            proof {
                assert(ms.take(ms.len() as int) =~= ms);
                assert(gs.take(i + 1).drop_last() =~= gs.take(i as int));
                assert(gs.take(i + 1).last() == gv);
            }
            i = i + 1;
        }
        proof {
            assert(gs.take(n as int) =~= gs);
        }
    }


    /// Stores a group, replacing the group with the same id in place.
    fn put_group(&mut self, group: Group)
        requires
            old(self).wf(),
        ensures
            final(self).wf(),
            final(self)@ == (CacheView { groups: put_group(old(self)@.groups, group@), ..old(self)@ }),
    {
        let ghost gs = self@.groups;
        let mut i: usize = 0;
        while i < self.groups.len()
            invariant
                self.wf(),
                self@ == old(self)@,
                gs == self@.groups,
                i <= self.groups.len(),
                forall|j: int| 0 <= j < i ==> #[trigger] gs[j].id != group@.id,
            decreases self.groups.len() - i,
        {
            assert(gs[i as int] == self.groups@[i as int]@);
            if self.groups[i].get_id().view_eq(group.get_id()) {
                proof {
                    assert(has_group(gs, group@.id));
                    let w = group_index(gs, group@.id);
                    assert(w == i);
                }
                let ghost gv = group@;
                self.groups.set(i, group);
                proof {
                    assert(self@.groups =~= gs.update(i as int, gv));
                }
                return;
            }
            i = i + 1;
        }
        let ghost gv = group@;
        self.groups.push(group);
        proof {
            assert(!has_group(gs, gv.id));
            assert(self@.groups =~= gs.push(gv));
        }
    }

    /// Loads speakers (each with a fresh state) and groups, then assigns the
    /// speakers to their groups.
    pub fn initialize(&mut self, speakers: Vec<Speaker>, groups: Vec<Group>)
        requires
            old(self).wf(),
        ensures
            final(self).wf(),
            final(self)@.groups == put_groups(old(self)@.groups, groups_view(groups@)),
            final(self)@.speakers == assignments_spec(
                add_states_spec(old(self)@.speakers, seq_view(speakers@)),
                put_groups(old(self)@.groups, groups_view(groups@)),
            ),
    {
        let ghost sps = seq_view(speakers@);
        let mut i: usize = 0;
        proof {
            assert(sps.take(0) =~= Seq::<crate::speaker::SpeakerView>::empty());
        }
        while i < speakers.len()
            invariant
                self.wf(),
                i <= speakers.len(),
                sps == seq_view(speakers@),
                self@.groups == old(self)@.groups,
                self@.speakers == add_states_spec(old(self)@.speakers, sps.take(i as int)),
            decreases speakers.len() - i,
        {
            let sp = speakers[i].view_clone();
            let id = sp.id.view_clone();
            let st = SpeakerState::new(sp);
            self.speakers.insert(id, st);
            proof {
                assert(sps.take(i + 1).drop_last() =~= sps.take(i as int));
                assert(sps.take(i + 1).last() == speakers@[i as int]@);
            }
            i = i + 1;
        }
        proof {
            assert(sps.take(sps.len() as int) =~= sps);
        }
        let ghost gvs = groups_view(groups@);
        let mut j: usize = 0;
        proof {
            assert(gvs.take(0) =~= Seq::<GroupView>::empty());
        }
        while j < groups.len()
            invariant
                self.wf(),
                j <= groups.len(),
                gvs == groups_view(groups@),
                self@.speakers == add_states_spec(old(self)@.speakers, sps),
                self@.groups == put_groups(old(self)@.groups, gvs.take(j as int)),
            decreases groups.len() - j,
        {
            let g = groups[j].view_clone();
            self.put_group(g);
            proof {
                assert(gvs.take(j + 1).drop_last() =~= gvs.take(j as int));
                assert(gvs.take(j + 1).last() == groups@[j as int]@);
            }
            j = j + 1;
        }
        proof {
            assert(gvs.take(gvs.len() as int) =~= gvs);
        }
        self.update_speaker_group_assignments();
    }

    /// Sets a speaker's volume, reporting the old and new volume if it changed.
    pub fn update_volume(&mut self, id: &SpeakerId, volume: u8) -> (r: Option<StateChange>)
        requires
            old(self).wf(),
        ensures
            final(self).wf(),
            (final(self)@, opt_change_view(r)) == update_volume_spec(old(self)@, id@, volume),
    {
        match self.speakers.get(id) {
            Some(state) => {
                let old_volume = state.volume;
                if old_volume != volume {
                    let mut st = state;
                    st.volume = volume;
                    self.speakers.insert(id.view_clone(), st);
                    proof {
                        assert(self@.speakers =~= old(self)@.speakers.insert(
                            id@,
                            SpeakerStateView { volume, ..old(self)@.speakers[id@] },
                        ));
                    }
                    Some(StateChange::VolumeChanged { speaker_id: id.view_clone(), old_volume, new_volume: volume })
                } else {
                    None
                }
            },
            None => None,
        }
    }

    /// Sets a speaker's mute state, reporting it if it changed.
    pub fn update_mute(&mut self, id: &SpeakerId, muted: bool) -> (r: Option<StateChange>)
        requires
            old(self).wf(),
        ensures
            final(self).wf(),
            (final(self)@, opt_change_view(r)) == update_mute_spec(old(self)@, id@, muted),
    {
        match self.speakers.get(id) {
            Some(state) => {
                if state.muted != muted {
                    let mut st = state;
                    st.muted = muted;
                    self.speakers.insert(id.view_clone(), st);
                    proof {
                        assert(self@.speakers =~= old(self)@.speakers.insert(
                            id@,
                            SpeakerStateView { muted, ..old(self)@.speakers[id@] },
                        ));
                    }
                    Some(StateChange::MuteChanged { speaker_id: id.view_clone(), muted })
                } else {
                    None
                }
            },
            None => None,
        }
    }

    /// Sets a speaker's playback state, reporting the old and new state if
    /// it changed.
    pub fn update_playback_state(&mut self, id: &SpeakerId, playback_state: PlaybackState) -> (r: Option<StateChange>)
        requires
            old(self).wf(),
        ensures
            final(self).wf(),
            (final(self)@, opt_change_view(r)) == update_playback_spec(old(self)@, id@, playback_state),
    {
        match self.speakers.get(id) {
            Some(state) => {
                let old_state = state.playback_state;
                if old_state != playback_state {
                    let mut st = state;
                    st.playback_state = playback_state;
                    self.speakers.insert(id.view_clone(), st);
                    proof {
                        assert(self@.speakers =~= old(self)@.speakers.insert(
                            id@,
                            SpeakerStateView { playback_state, ..old(self)@.speakers[id@] },
                        ));
                    }
                    Some(StateChange::PlaybackStateChanged { speaker_id: id.view_clone(), old_state, new_state: playback_state })
                } else {
                    None
                }
            },
            None => None,
        }
    }

    /// Sets a speaker's position. A move of more than one second, or a new
    /// duration, stores both and is reported; a smaller move only updates
    /// the position, silently.
    pub fn update_position(&mut self, id: &SpeakerId, position_ms: u64, duration_ms: u64) -> (r: Option<StateChange>)
        requires
            old(self).wf(),
        ensures
            final(self).wf(),
            (final(self)@, opt_change_view(r)) == update_position_spec(old(self)@, id@, position_ms, duration_ms),
    {
        match self.speakers.get(id) {
            Some(state) => {
                let old_pos = state.position_ms;
                let moved = if old_pos >= position_ms {
                    old_pos - position_ms > 1000
                } else {
                    position_ms - old_pos > 1000
                };
                let mut st = state;
                if moved || st.duration_ms != duration_ms {
                    st.position_ms = position_ms;
                    st.duration_ms = duration_ms;
                    self.speakers.insert(id.view_clone(), st);
                    proof {
                        assert(self@.speakers =~= old(self)@.speakers.insert(
                            id@,
                            SpeakerStateView { position_ms, duration_ms, ..old(self)@.speakers[id@] },
                        ));
                    }
                    Some(StateChange::PositionChanged { speaker_id: id.view_clone(), position_ms, duration_ms })
                } else {
                    st.position_ms = position_ms;
                    self.speakers.insert(id.view_clone(), st);
                    proof {
                        assert(self@.speakers =~= old(self)@.speakers.insert(
                            id@,
                            SpeakerStateView { position_ms, ..old(self)@.speakers[id@] },
                        ));
                    }
                    None
                }
            },
            None => None,
        }
    }

    /// Sets a speaker's current track, reporting the old and new track if
    /// the track changed (see [`track_changed`]).
    pub fn update_track(&mut self, id: &SpeakerId, track: Option<TrackInfo>) -> (r: Option<StateChange>)
        requires
            old(self).wf(),
        ensures
            final(self).wf(),
            (final(self)@, opt_change_view(r)) == update_track_spec(old(self)@, id@, opt_track_view(track)),
    {
        match self.speakers.get(id) {
            Some(state) => {
                let changed = match (&state.current_track, &track) {
                    (None, None) => false,
                    (Some(a), Some(b)) => !(*a == *b),
                    _ => true,
                };
                if changed {
                    let old_track = match &state.current_track {
                        Some(t) => Some(t.view_clone()),
                        None => None,
                    };
                    let new_track = match &track {
                        Some(t) => Some(t.view_clone()),
                        None => None,
                    };
                    let mut st = state;
                    st.current_track = track;
                    self.speakers.insert(id.view_clone(), st);
                    proof {
                        assert(self@.speakers =~= old(self)@.speakers.insert(
                            id@,
                            SpeakerStateView { current_track: opt_track_view(track), ..old(self)@.speakers[id@] },
                        ));
                    }
                    Some(StateChange::TrackChanged { speaker_id: id.view_clone(), old_track, new_track })
                } else {
                    None
                }
            },
            None => None,
        }
    }

    /// Replaces all groups and reassigns speakers, reporting the old groups
    /// (in cache order) and the new ones.
    pub fn set_groups(&mut self, groups: Vec<Group>) -> (r: Option<StateChange>)
        requires
            old(self).wf(),
        ensures
            final(self).wf(),
            (final(self)@, opt_change_view(r)) == set_groups_spec(old(self)@, groups_view(groups@)),
    {
        let old_groups = crate::viewed::vec_view_clone(&self.groups);
        self.groups = Vec::new();
        proof {
            assert(self@.groups =~= Seq::<GroupView>::empty());
        }
        let ghost gvs = groups_view(groups@);
        let ghost sp0 = self@.speakers;
        let mut j: usize = 0;
        proof {
            assert(gvs.take(0) =~= Seq::<GroupView>::empty());
        }
        while j < groups.len()
            invariant
                self.wf(),
                j <= groups.len(),
                gvs == groups_view(groups@),
                self@.speakers == sp0,
                self@.groups == put_groups(Seq::empty(), gvs.take(j as int)),
            decreases groups.len() - j,
        {
            let g = groups[j].view_clone();
            self.put_group(g);
            proof {
                assert(gvs.take(j + 1).drop_last() =~= gvs.take(j as int));
                assert(gvs.take(j + 1).last() == groups@[j as int]@);
            }
            j = j + 1;
        }
        proof {
            assert(gvs.take(gvs.len() as int) =~= gvs);
        }
        self.update_speaker_group_assignments();
        proof {
            assert(groups_view(old_groups@) =~= old(self)@.groups) by {
                assert forall|i: int| 0 <= i < old_groups@.len() implies groups_view(old_groups@)[i] == old(self)@.groups[i] by {
                    assert(seq_view(old_groups@)[i] == seq_view(old(self).groups@)[i]);
                }
            }
        }
        Some(StateChange::GroupsChanged { old_groups, new_groups: groups })
    }

    /// Adds a speaker with a fresh state, unless it is already known.
    pub fn add_speaker(&mut self, speaker: Speaker) -> (r: Option<StateChange>)
        requires
            old(self).wf(),
        ensures
            final(self).wf(),
            old(self)@.speakers.contains_key(speaker@.id) ==> r is None && final(self)@ == old(self)@,
            !old(self)@.speakers.contains_key(speaker@.id) ==> {
                &&& final(self)@ == (CacheView {
                    speakers: old(self)@.speakers.insert(speaker@.id, initial_speaker_state(speaker@)),
                    ..old(self)@
                })
                &&& r matches Some(StateChange::SpeakerAdded { speaker_id }) && speaker_id@ == speaker@.id
            },
    {
        let id = speaker.id.view_clone();
        if self.speakers.contains_key(&id) {
            return None;
        }
        let id2 = id.view_clone();
        self.speakers.insert(id, SpeakerState::new(speaker));
        Some(StateChange::SpeakerAdded { speaker_id: id2 })
    }

    /// Removes a speaker, reporting it if it was known.
    pub fn remove_speaker(&mut self, id: &SpeakerId) -> (r: Option<StateChange>)
        requires
            old(self).wf(),
        ensures
            final(self).wf(),
            final(self)@ == (CacheView { speakers: old(self)@.speakers.remove(id@), ..old(self)@ }),
            old(self)@.speakers.contains_key(id@) ==> (r matches Some(StateChange::SpeakerRemoved { speaker_id })
                && speaker_id@ == id@),
            !old(self)@.speakers.contains_key(id@) ==> r is None,
    {
        match self.speakers.remove(id) {
            Some(_) => Some(StateChange::SpeakerRemoved { speaker_id: id.view_clone() }),
            None => None,
        }
    }

    /// A copy of a speaker's state.
    pub fn get_speaker(&self, id: &SpeakerId) -> (r: Option<SpeakerState>)
        requires
            self.wf(),
        ensures
            match r {
                Some(s) => self@.speakers.contains_key(id@) && s@ == self@.speakers[id@],
                None => !self@.speakers.contains_key(id@),
            },
    {
        self.speakers.get(id)
    }

    /// Copies of all speaker states, each once.
    pub fn get_all_speakers(&self) -> (r: Vec<SpeakerState>)
        requires
            self.wf(),
        ensures
            state_ids(r@).no_duplicates(),
            state_ids(r@).to_set() == self@.speakers.dom(),
            states_current(self@.speakers, r@),
    {
        let r = self.speakers.values();
        proof {
            self.speakers.lemma_key_seq();
            let ks = self.speakers.key_seq();
            let vs = self.speakers.value_seq();
            assert forall|i: int| 0 <= i < r@.len() implies ks[i] == r@[i]@.speaker.id
                && self@.speakers.contains_key(ks[i]) && self@.speakers[ks[i]] == r@[i]@ by {
                assert(seq_view(r@)[i] == r@[i]@);
                assert(ks.to_set().contains(ks[i]));
                assert(self@.speakers[ks[i]] == vs[i]);
            }
            assert(state_ids(r@) =~= ks);
            assert forall|i: int| 0 <= i < r@.len() implies self@.speakers.contains_key(#[trigger] r@[i]@.speaker.id)
                && self@.speakers[r@[i]@.speaker.id] == r@[i]@ by {
                assert(ks[i] == r@[i]@.speaker.id);
            }
        }
        r
    }

    /// A read-only copy of the cache: every speaker state, and every group
    /// under its id.
    pub fn snapshot(&self) -> (r: crate::snapshot::StateSnapshot)
        requires
            self.wf(),
        ensures
            r.wf(),
            r@.speakers == self@.speakers,
            r@.groups == crate::snapshot::groups_by_id(self@.groups),
    {
        assert(seq_view(self.groups@) =~= self@.groups);
        crate::snapshot::StateSnapshot::from_parts(self.speakers.copy(), &self.groups)
    }

    /// Copies of the states of all speakers in a room, each once.
    pub fn get_by_room(&self, room_name: &str) -> (r: Vec<SpeakerState>)
        requires
            self.wf(),
        ensures
            state_ids(r@).no_duplicates(),
            state_ids(r@).to_set() == room_ids(self@.speakers, room_name@),
            states_current(self@.speakers, r@),
    {
        let all = self.get_all_speakers();
        let ghost ids = state_ids(all@);
        let ghost sp = self@.speakers;
        let mut out: Vec<SpeakerState> = Vec::new();
        let mut i: usize = 0;
        proof {
            assert(state_ids(out@).to_set() =~= ids.take(0).to_set().filter(|k: Seq<char>| sp[k].speaker.room_name == room_name@));
        }
        while i < all.len()
            invariant
                i <= all.len(),
                ids == state_ids(all@),
                sp == self@.speakers,
                ids.no_duplicates(),
                ids.to_set() == sp.dom(),
                states_current(sp, all@),
                states_current(sp, out@),
                state_ids(out@).no_duplicates(),
                state_ids(out@).to_set() == ids.take(i as int).to_set().filter(|k: Seq<char>| sp[k].speaker.room_name == room_name@),
            decreases all.len() - i,
        {
            let ghost ob = state_ids(out@);
            let ghost k = ids[i as int];
            proof {
                assert(ids.take(i + 1) =~= ids.take(i as int).push(k));
                ids.take(i as int).lemma_push_to_set_commute(k);
                assert(!ids.take(i as int).to_set().contains(k)) by {
                    if ids.take(i as int).to_set().contains(k) {
                        let j = choose|j: int| 0 <= j < i && ids.take(i as int)[j] == k;
                        assert(ids[j] == ids[i as int]);
                    }
                }
                assert(sp[k] == all@[i as int]@);
            }
            if str_eq(all[i].speaker.room_name.as_str(), room_name) {
                out.push(all[i].view_clone());
                proof {
                    assert(state_ids(out@) =~= ob.push(k));
                    ob.lemma_push_to_set_commute(k);
                    assert(!ob.contains(k)) by {
                        assert(!ob.to_set().contains(k));
                    }
                    assert(state_ids(out@).to_set() =~= ids.take(i + 1).to_set().filter(|x: Seq<char>| sp[x].speaker.room_name == room_name@));
                }
            } else {
                proof {
                    assert(state_ids(out@).to_set() =~= ids.take(i + 1).to_set().filter(|x: Seq<char>| sp[x].speaker.room_name == room_name@));
                }
            }
            i = i + 1;
        }
        proof {
            assert(ids.take(ids.len() as int) =~= ids);
            assert(state_ids(out@).to_set() =~= room_ids(sp, room_name@));
        }
        out
    }

    /// A copy of the state of some speaker with the given name, if any.
    pub fn get_by_name(&self, name: &str) -> (r: Option<SpeakerState>)
        requires
            self.wf(),
        ensures
            r is None <==> !exists|k: Seq<char>| #[trigger] self@.speakers.contains_key(k) && self@.speakers[k].speaker.name == name@,
            r matches Some(s) ==> self@.speakers.contains_key(s@.speaker.id) && self@.speakers[s@.speaker.id] == s@
                && s@.speaker.name == name@,
    {
        let all = self.get_all_speakers();
        let ghost ids = state_ids(all@);
        let mut i: usize = 0;
        while i < all.len()
            invariant
                i <= all.len(),
                ids == state_ids(all@),
                ids.to_set() == self@.speakers.dom(),
                states_current(self@.speakers, all@),
                forall|b: int| 0 <= b < i ==> #[trigger] all@[b]@.speaker.name != name@,
            decreases all.len() - i,
        {
            if str_eq(all[i].speaker.name.as_str(), name) {
                proof {
                    assert(self@.speakers.contains_key(ids[i as int]));
                    assert(self@.speakers[ids[i as int]] == all@[i as int]@);
                }
                return Some(all[i].view_clone());
            }
            i = i + 1;
        }
        proof {
            assert forall|k: Seq<char>| #[trigger] self@.speakers.contains_key(k) implies self@.speakers[k].speaker.name != name@ by {
                assert(ids.to_set().contains(k));
                let a = choose|a: int| 0 <= a < ids.len() && ids[a] == k;
                assert(self@.speakers[ids[a]] == all@[a]@);
            }
        }
        None
    }

    /// A copy of the group with the given id.
    pub fn get_group(&self, id: &GroupId) -> (r: Option<Group>)
        requires
            self.wf(),
        ensures
            r is Some == has_group(self@.groups, id@),
            r matches Some(g) ==> g@ == self@.groups[group_index(self@.groups, id@)],
    {
        let mut i: usize = 0;
        while i < self.groups.len()
            invariant
                self.wf(),
                i <= self.groups.len(),
                forall|j: int| 0 <= j < i ==> #[trigger] self@.groups[j].id != id@,
            decreases self.groups.len() - i,
        {
            assert(self@.groups[i as int] == self.groups@[i as int]@);
            if self.groups[i].get_id().view_eq(id) {
                proof {
                    assert(has_group(self@.groups, id@));
                    let w = group_index(self@.groups, id@);
                    assert(w == i);
                }
                return Some(self.groups[i].view_clone());
            }
            i = i + 1;
        }
        None
    }

    /// Copies of all groups, in cache order.
    pub fn get_groups(&self) -> (r: Vec<Group>)
        requires
            self.wf(),
        ensures
            groups_view(r@) == self@.groups,
    {
        let r = crate::viewed::vec_view_clone(&self.groups);
        proof {
            assert forall|i: int| 0 <= i < r@.len() implies groups_view(r@)[i] == self@.groups[i] by {
                assert(seq_view(r@)[i] == seq_view(self.groups@)[i]);
            }
            assert(groups_view(r@) =~= self@.groups);
        }
        r
    }

    /// Copies of the states of a group's members the cache knows, in member
    /// order; empty for an unknown group.
    pub fn get_speakers_by_group(&self, group_id: &GroupId) -> (r: Vec<SpeakerState>)
        requires
            self.wf(),
        ensures
            has_group(self@.groups, group_id@) ==> r@.map_values(|s: SpeakerState| s@) == member_states(
                self@.speakers,
                self@.groups[group_index(self@.groups, group_id@)].members,
            ),
            !has_group(self@.groups, group_id@) ==> r@.len() == 0,
    {
        let mut out: Vec<SpeakerState> = Vec::new();
        match self.get_group(group_id) {
            Some(g) => {
                let members = g.get_members();
                let ghost ms = g@.members;
                let mut j: usize = 0;
                proof {
                    assert(ms.take(0) =~= Seq::<SpeakerRefView>::empty());
                    assert(out@.map_values(|s: SpeakerState| s@) =~= Seq::<SpeakerStateView>::empty());
                }
                while j < members.len()
                    invariant
                        self.wf(),
                        j <= members.len(),
                        refs_view(members@) == ms,
                        out@.map_values(|s: SpeakerState| s@) == member_states(self@.speakers, ms.take(j as int)),
                    decreases members.len() - j,
                {
                    let ghost ob = out@.map_values(|s: SpeakerState| s@);
                    proof {
                        assert(ms.take(j + 1).drop_last() =~= ms.take(j as int));
                        assert(ms.take(j + 1).last() == members@[j as int]@);
                    }
                    match self.speakers.get(members[j].get_id()) {
                        Some(st) => {
                            out.push(st);
                            proof {
                                assert(out@.map_values(|s: SpeakerState| s@) =~= ob + seq![self@.speakers[members@[j as int]@.id]]);
                            }
                        },
                        None => {
                            proof {
                                assert(ob + Seq::<SpeakerStateView>::empty() =~= ob);
                            }
                        },
                    }
                    j = j + 1;
                }
                proof {
                    assert(ms.take(ms.len() as int) =~= ms);
                }
            },
            None => {},
        }
        out
    }

    /// Whether no speaker is known.
    pub fn is_empty(&self) -> (r: bool)
        requires
            self.wf(),
        ensures
            r == (self@.speakers.dom().len() == 0),
    {
        self.speakers.len() == 0
    }

    /// The number of known speakers.
    pub fn speaker_count(&self) -> (r: usize)
        requires
            self.wf(),
        ensures
            r == self@.speakers.dom().len(),
    {
        self.speakers.len()
    }

    /// The number of known groups.
    pub fn group_count(&self) -> (r: usize)
        requires
            self.wf(),
        ensures
            r == self@.groups.len(),
    {
        self.groups.len()
    }

}

} // verus!
