//! Laws of the state cache: change detection, and the group assignments
//! that replacing the groups makes.

use vstd::prelude::*;
use crate::cache::{
    assign_all, cleared, group_ids_distinct, groups_steps, has_group, member_steps, members_steps,
    put_groups, set_groups_spec, update_mute_spec, update_playback_spec, update_volume_spec, Assignment,
    CacheView,
};
use crate::model::{GroupView, SpeakerRefView, SpeakerStateView};
use crate::model::PlaybackState;

verus! {

/// Setting a speaker's volume reports a change exactly when the speaker is
/// cached with another volume; afterwards it holds the new volume, and
/// setting the same volume again reports nothing and changes nothing.
pub proof fn lemma_volume_change_detection(c: CacheView, id: Seq<char>, volume: u8)
    ensures
        update_volume_spec(c, id, volume).1 is Some <==> (c.speakers.contains_key(id) && c.speakers[id].volume
            != volume),
        c.speakers.contains_key(id) ==> update_volume_spec(c, id, volume).0.speakers[id].volume == volume,
        update_volume_spec(update_volume_spec(c, id, volume).0, id, volume).1 is None,
        update_volume_spec(update_volume_spec(c, id, volume).0, id, volume).0 == update_volume_spec(
            c,
            id,
            volume,
        ).0,
{
}

/// Setting a speaker's mute state reports a change exactly when the speaker
/// is cached with the other state; setting the same state again reports
/// nothing and changes nothing.
pub proof fn lemma_mute_change_detection(c: CacheView, id: Seq<char>, muted: bool)
    ensures
        update_mute_spec(c, id, muted).1 is Some <==> (c.speakers.contains_key(id) && c.speakers[id].muted != muted),
        c.speakers.contains_key(id) ==> update_mute_spec(c, id, muted).0.speakers[id].muted == muted,
        update_mute_spec(update_mute_spec(c, id, muted).0, id, muted).1 is None,
        update_mute_spec(update_mute_spec(c, id, muted).0, id, muted).0 == update_mute_spec(c, id, muted).0,
{
}

/// Setting a speaker's playback state reports a change, with the old and new
/// state, exactly when the speaker is cached in another state; setting the
/// same state again reports nothing and changes nothing.
pub proof fn lemma_playback_change_detection(c: CacheView, id: Seq<char>, ps: PlaybackState)
    ensures
        update_playback_spec(c, id, ps).1 is Some <==> (c.speakers.contains_key(id)
            && c.speakers[id].playback_state != ps),
        c.speakers.contains_key(id) ==> update_playback_spec(c, id, ps).0.speakers[id].playback_state == ps,
        update_playback_spec(update_playback_spec(c, id, ps).0, id, ps).1 is None,
        update_playback_spec(update_playback_spec(c, id, ps).0, id, ps).0 == update_playback_spec(c, id, ps).0,
{
}

// ---------------------------------------------------------------------------
// Group assignment
// ---------------------------------------------------------------------------

/// Some step of `steps` assigns speaker `id`.
pub open spec fn mentions(steps: Seq<Assignment>, id: Seq<char>) -> bool {
    exists|k: int| 0 <= k < steps.len() && (#[trigger] steps[k]).0 == id
}

/// Every step of `steps` that assigns speaker `id` is `a`.
pub open spec fn uniform(steps: Seq<Assignment>, id: Seq<char>, a: Assignment) -> bool {
    forall|k: int| 0 <= k < steps.len() && (#[trigger] steps[k]).0 == id ==> steps[k] == a
}

/// Every listing of speaker `id` in group `g` assigns it as `a`: as a member,
/// to `g` with the coordinator flag when it is `g`'s coordinator; as a
/// satellite, to `g` and never as coordinator.
pub open spec fn group_yields(g: GroupView, id: Seq<char>, a: Assignment) -> bool {
    forall|mj: int|
        0 <= mj < g.members.len() ==> {
            &&& (#[trigger] g.members[mj]).id == id ==> a == (id, g.id, id == g.coordinator_id)
            &&& g.members[mj].satellite_ids.contains(id) ==> a == (id, g.id, false)
        }
}

/// Storing groups with distinct ids, one by one into no groups, keeps them
/// all, in the order given.
proof fn lemma_put_distinct_groups(gs: Seq<GroupView>)
    requires
        group_ids_distinct(gs),
    ensures
        put_groups(Seq::empty(), gs) == gs,
    decreases gs.len(),
{
    if gs.len() > 0 {
        let init = gs.drop_last();
        assert(group_ids_distinct(init)) by {
            assert forall|i: int, j: int| 0 <= i < init.len() && 0 <= j < init.len() && i != j implies init[i].id
                != init[j].id by {
                assert(init[i] == gs[i] && init[j] == gs[j]);
            }
        }
        lemma_put_distinct_groups(init);
        if has_group(init, gs.last().id) {
            let i = choose|i: int| 0 <= i < init.len() && #[trigger] init[i].id == gs.last().id;
            assert(gs[i].id == gs[gs.len() - 1].id);
        }
        assert(init.push(gs.last()) =~= gs);
    }
}

/// Applying steps that assign speaker `id` only as `a` leaves it assigned as
/// `a` when some step assigns it, and untouched otherwise.
proof fn lemma_assign_all_uniform(sp: Map<Seq<char>, SpeakerStateView>, steps: Seq<Assignment>, id: Seq<char>, a: Assignment)
    requires
        uniform(steps, id, a),
        a.0 == id,
        sp.contains_key(id),
    ensures
        assign_all(sp, steps).contains_key(id),
        assign_all(sp, steps)[id] == (if mentions(steps, id) {
            SpeakerStateView { group_id: Some(a.1), is_coordinator: a.2, ..sp[id] }
        } else {
            sp[id]
        }),
    decreases steps.len(),
{
    if steps.len() > 0 {
        let pre = steps.drop_last();
        assert(uniform(pre, id, a)) by {
            assert forall|k: int| 0 <= k < pre.len() && (#[trigger] pre[k]).0 == id implies pre[k] == a by {
                assert(pre[k] == steps[k]);
            }
        }
        lemma_assign_all_uniform(sp, pre, id, a);
        let last = steps.last();
        if last.0 == id {
            assert(steps[steps.len() - 1].0 == id);
        } else {
            if mentions(steps, id) {
                let k = choose|k: int| 0 <= k < steps.len() && (#[trigger] steps[k]).0 == id;
                assert(pre[k].0 == id);
            }
            if mentions(pre, id) {
                let k = choose|k: int| 0 <= k < pre.len() && (#[trigger] pre[k]).0 == id;
                assert(steps[k].0 == id);
            }
        }
    }
}

/// Two step lists that each assign speaker `id` only as `a`, one after the
/// other, still do.
proof fn lemma_uniform_concat(s1: Seq<Assignment>, s2: Seq<Assignment>, id: Seq<char>, a: Assignment)
    requires
        uniform(s1, id, a),
        uniform(s2, id, a),
    ensures
        uniform(s1 + s2, id, a),
{
    assert forall|k: int| 0 <= k < (s1 + s2).len() && (#[trigger] (s1 + s2)[k]).0 == id implies (s1 + s2)[k] == a by {
        if k < s1.len() {
            assert((s1 + s2)[k] == s1[k]);
        } else {
            assert((s1 + s2)[k] == s2[k - s1.len()]);
        }
    }
}

/// The steps of one member assign speaker `id` only as its listings there say.
proof fn lemma_member_steps_uniform(gid: Seq<char>, c: Seq<char>, m: SpeakerRefView, id: Seq<char>, a: Assignment)
    requires
        m.id == id ==> a == (id, gid, id == c),
        m.satellite_ids.contains(id) ==> a == (id, gid, false),
    ensures
        uniform(member_steps(gid, c, m), id, a),
{
    let st = member_steps(gid, c, m);
    assert forall|k: int| 0 <= k < st.len() && (#[trigger] st[k]).0 == id implies st[k] == a by {
        if k > 0 {
            assert(st[k] == (m.satellite_ids[k - 1], gid, false));
            assert(m.satellite_ids.contains(id));
        }
    }
}

/// The steps of a group's members assign speaker `id` only as `a` when every
/// listing of `id` in the group says `a`.
proof fn lemma_members_steps_uniform(g: GroupView, ms: Seq<SpeakerRefView>, id: Seq<char>, a: Assignment)
    requires
        ms.len() <= g.members.len(),
        ms == g.members.take(ms.len() as int),
        group_yields(g, id, a),
    ensures
        uniform(members_steps(g.id, g.coordinator_id, ms), id, a),
    decreases ms.len(),
{
    if ms.len() > 0 {
        let pre = ms.drop_last();
        assert(pre =~= g.members.take(pre.len() as int));
        lemma_members_steps_uniform(g, pre, id, a);
        assert(ms.last() == g.members[ms.len() - 1]);
        lemma_member_steps_uniform(g.id, g.coordinator_id, ms.last(), id, a);
        lemma_uniform_concat(
            members_steps(g.id, g.coordinator_id, pre),
            member_steps(g.id, g.coordinator_id, ms.last()),
            id,
            a,
        );
    }
}

/// The steps of a list of groups assign speaker `id` only as `a` when every
/// listing of `id` in every group says `a`.
proof fn lemma_groups_steps_uniform(gs: Seq<GroupView>, id: Seq<char>, a: Assignment)
    requires
        forall|gj: int| 0 <= gj < gs.len() ==> group_yields(#[trigger] gs[gj], id, a),
    ensures
        uniform(groups_steps(gs), id, a),
    decreases gs.len(),
{
    if gs.len() > 0 {
        let pre = gs.drop_last();
        assert forall|gj: int| 0 <= gj < pre.len() implies group_yields(#[trigger] pre[gj], id, a) by {
            assert(pre[gj] == gs[gj]);
        }
        lemma_groups_steps_uniform(pre, id, a);
        let g = gs.last();
        assert(group_yields(gs[gs.len() - 1], id, a));
        assert(g.members =~= g.members.take(g.members.len() as int));
        lemma_members_steps_uniform(g, g.members, id, a);
        lemma_uniform_concat(groups_steps(pre), members_steps(g.id, g.coordinator_id, g.members), id, a);
    }
}

/// A speaker listed by member `mi` of a group, as that member or as one of
/// its satellites, is assigned by the group's steps.
proof fn lemma_members_steps_mention(gid: Seq<char>, c: Seq<char>, ms: Seq<SpeakerRefView>, mi: int, id: Seq<char>)
    requires
        0 <= mi < ms.len(),
        ms[mi].id == id || ms[mi].satellite_ids.contains(id),
    ensures
        mentions(members_steps(gid, c, ms), id),
    decreases ms.len(),
{
    let pre = ms.drop_last();
    let ps = members_steps(gid, c, pre);
    let st = member_steps(gid, c, ms.last());
    assert(members_steps(gid, c, ms) == ps + st);
    if mi < ms.len() - 1 {
        assert(pre[mi] == ms[mi]);
        lemma_members_steps_mention(gid, c, pre, mi, id);
        let k = choose|k: int| 0 <= k < ps.len() && (#[trigger] ps[k]).0 == id;
        assert((ps + st)[k] == ps[k]);
    } else {
        let k: int = if ms[mi].id == id {
            0
        } else {
            let si = choose|si: int| 0 <= si < ms[mi].satellite_ids.len() && ms[mi].satellite_ids[si] == id;
            si + 1
        };
        assert(st[k].0 == id);
        assert((ps + st)[ps.len() + k] == st[k]);
    }
}

/// A speaker listed in group `gi` is assigned by the steps of the groups.
proof fn lemma_groups_steps_mention(gs: Seq<GroupView>, gi: int, mi: int, id: Seq<char>)
    requires
        0 <= gi < gs.len(),
        0 <= mi < gs[gi].members.len(),
        gs[gi].members[mi].id == id || gs[gi].members[mi].satellite_ids.contains(id),
    ensures
        mentions(groups_steps(gs), id),
    decreases gs.len(),
{
    let pre = gs.drop_last();
    let g = gs.last();
    let ps = groups_steps(pre);
    let st = members_steps(g.id, g.coordinator_id, g.members);
    assert(groups_steps(gs) == ps + st);
    if gi < gs.len() - 1 {
        assert(pre[gi] == gs[gi]);
        lemma_groups_steps_mention(pre, gi, mi, id);
        let k = choose|k: int| 0 <= k < ps.len() && (#[trigger] ps[k]).0 == id;
        assert((ps + st)[k] == ps[k]);
    } else {
        lemma_members_steps_mention(g.id, g.coordinator_id, g.members, mi, id);
        let k = choose|k: int| 0 <= k < st.len() && (#[trigger] st[k]).0 == id;
        assert((ps + st)[ps.len() + k] == st[k]);
    }
}

/// After the groups are replaced by `gs` (with distinct ids), a cached
/// speaker listed as member `mi` of group `gi`, and listed nowhere else (in
/// no other group, and as no satellite), belongs to that group and
/// coordinates it exactly when it is the group's coordinator; the rest of
/// its state is unchanged.
pub proof fn lemma_set_groups_assigns_member(c: CacheView, gs: Seq<GroupView>, gi: int, mi: int)
    requires
        group_ids_distinct(gs),
        0 <= gi < gs.len(),
        0 <= mi < gs[gi].members.len(),
        c.speakers.contains_key(gs[gi].members[mi].id),
        forall|gj: int, mj: int|
            0 <= gj < gs.len() && 0 <= mj < gs[gj].members.len() ==> {
                &&& (#[trigger] gs[gj].members[mj]).id == gs[gi].members[mi].id ==> gj == gi
                &&& !gs[gj].members[mj].satellite_ids.contains(gs[gi].members[mi].id)
            },
    ensures
        set_groups_spec(c, gs).0.speakers.contains_key(gs[gi].members[mi].id),
        set_groups_spec(c, gs).0.speakers[gs[gi].members[mi].id] == (SpeakerStateView {
            group_id: Some(gs[gi].id),
            is_coordinator: gs[gi].members[mi].id == gs[gi].coordinator_id,
            ..c.speakers[gs[gi].members[mi].id]
        }),
{
    let id = gs[gi].members[mi].id;
    let a: Assignment = (id, gs[gi].id, id == gs[gi].coordinator_id);
    lemma_put_distinct_groups(gs);
    assert forall|gj: int| 0 <= gj < gs.len() implies group_yields(#[trigger] gs[gj], id, a) by {
        assert forall|mj: int| 0 <= mj < gs[gj].members.len() implies {
            &&& (#[trigger] gs[gj].members[mj]).id == id ==> a == (id, gs[gj].id, id == gs[gj].coordinator_id)
            &&& gs[gj].members[mj].satellite_ids.contains(id) ==> a == (id, gs[gj].id, false)
        } by {}
    }
    lemma_groups_steps_uniform(gs, id, a);
    lemma_groups_steps_mention(gs, gi, mi, id);
    let cl = cleared(c.speakers);
    assert(cl.contains_key(id));
    lemma_assign_all_uniform(cl, groups_steps(gs), id, a);
}

/// After the groups are replaced by `gs` (with distinct ids), a cached
/// speaker listed as a satellite of member `mi` of group `gi`, and listed as
/// no member anywhere and as a satellite in no other group, belongs to that
/// group and never coordinates it; the rest of its state is unchanged.
pub proof fn lemma_set_groups_assigns_satellite(c: CacheView, gs: Seq<GroupView>, gi: int, mi: int, si: int)
    requires
        group_ids_distinct(gs),
        0 <= gi < gs.len(),
        0 <= mi < gs[gi].members.len(),
        0 <= si < gs[gi].members[mi].satellite_ids.len(),
        c.speakers.contains_key(gs[gi].members[mi].satellite_ids[si]),
        forall|gj: int, mj: int|
            0 <= gj < gs.len() && 0 <= mj < gs[gj].members.len() ==> {
                &&& (#[trigger] gs[gj].members[mj]).id != gs[gi].members[mi].satellite_ids[si]
                &&& gs[gj].members[mj].satellite_ids.contains(gs[gi].members[mi].satellite_ids[si]) ==> gj == gi
            },
    ensures
        set_groups_spec(c, gs).0.speakers.contains_key(gs[gi].members[mi].satellite_ids[si]),
        set_groups_spec(c, gs).0.speakers[gs[gi].members[mi].satellite_ids[si]] == (SpeakerStateView {
            group_id: Some(gs[gi].id),
            is_coordinator: false,
            ..c.speakers[gs[gi].members[mi].satellite_ids[si]]
        }),
{
    let id = gs[gi].members[mi].satellite_ids[si];
    let a: Assignment = (id, gs[gi].id, false);
    lemma_put_distinct_groups(gs);
    assert forall|gj: int| 0 <= gj < gs.len() implies group_yields(#[trigger] gs[gj], id, a) by {
        assert forall|mj: int| 0 <= mj < gs[gj].members.len() implies {
            &&& (#[trigger] gs[gj].members[mj]).id == id ==> a == (id, gs[gj].id, id == gs[gj].coordinator_id)
            &&& gs[gj].members[mj].satellite_ids.contains(id) ==> a == (id, gs[gj].id, false)
        } by {}
    }
    assert(gs[gi].members[mi].satellite_ids.contains(id));
    lemma_groups_steps_uniform(gs, id, a);
    lemma_groups_steps_mention(gs, gi, mi, id);
    let cl = cleared(c.speakers);
    assert(cl.contains_key(id));
    lemma_assign_all_uniform(cl, groups_steps(gs), id, a);
}

} // verus!
