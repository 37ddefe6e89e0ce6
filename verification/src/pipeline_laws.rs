//! Laws of the observable store, its decoders and the event pipeline.

use vstd::prelude::*;
use crate::change_stream::StateChangeView;
use crate::decoders::{
    apply_all_spec, rendering_decode_spec, sender_of, transport_decode_spec, Decoder, EventData,
    RawEvent, RenderingControlData, AVTransportDecoder, RenderingControlDecoder, TopologyDecoder,
};
use crate::property::{
    lemma_transport_state_names, str_uppercase, time_ms_spec, GroupMembershipView, PlaybackState, Position,
    PropertyKind, Service, Volume,
};
use crate::viewed::opt_str_view;
use crate::ids::normalize_speaker_id;
use crate::decoders::{av_position_updates, av_state_updates, AVTransportData, member_updates, speaker_updates, PropertyUpdateView, StoreUpdateView, ZoneGroupData};
use crate::reactive_store::{bag_set, held, remove_speaker_spec, set_speaker_spec, PropMap, StateStoreView};
use crate::speaker::SpeakerView;
use crate::state_manager::run;
use crate::value::PropertyValueView;
use crate::reactive::{acquired, ref_count_spec, released, SubscriptionKey};

verus! {

/// A bag holds what was last set in it, and setting the same value again
/// reports no change.
pub proof fn lemma_bag_set_then_get(m: PropMap, v: PropertyValueView)
    ensures
        bag_set(m, v).0.contains_key(v.kind()),
        bag_set(m, v).0[v.kind()] == v,
        bag_set(bag_set(m, v).0, v).1 == false,
        bag_set(bag_set(m, v).0, v).0 == bag_set(m, v).0,
{
}

/// Reading a speaker property right after setting it gives the value set.
pub proof fn lemma_store_set_then_get(s: StateStoreView, id: Seq<char>, v: PropertyValueView)
    ensures
        held(set_speaker_spec(s, id, v).speaker_props, id, v.kind()) == Some(v),
{
}

/// Setting a speaker property reports exactly one change when the value
/// differs from what a reader saw, and none when it is the same.
pub proof fn lemma_store_reports_iff_changed(s: StateStoreView, id: Seq<char>, v: PropertyValueView)
    ensures
        held(s.speaker_props, id, v.kind()) == Some(v) ==> set_speaker_spec(s, id, v).changes == s.changes,
        held(s.speaker_props, id, v.kind()) != Some(v) ==> set_speaker_spec(s, id, v).changes
            == s.changes.push(
            StateChangeView::SpeakerPropertyChanged {
                speaker_id: id,
                property_key: v.kind().key_spec(),
                service: v.kind().service_spec(),
            },
        ),
{
}

/// A removed speaker keeps no properties and no address.
pub proof fn lemma_removed_speaker_is_forgotten(s: StateStoreView, id: Seq<char>, k: PropertyKind)
    requires
        s.speakers.contains_key(id),
    ensures
        held(remove_speaker_spec(s, id).speaker_props, id, k) is None,
        !remove_speaker_spec(s, id).speakers.contains_key(id),
        !remove_speaker_spec(s, id).ip_to_speaker.contains_key(s.speakers[id].ip_address),
{
}

/// Events from an address the store does not know give no property
/// updates.
pub proof fn lemma_unknown_sender_gives_nothing(e: RawEvent, s: StateStoreView)
    requires
        sender_of(s, e.speaker_ip) is None,
    ensures
        rendering_decode_spec(e, s) == Seq::<crate::decoders::PropertyUpdateView>::empty(),
        transport_decode_spec(e, s) == Seq::<crate::decoders::PropertyUpdateView>::empty(),
{
}

/// A volume event from a known speaker, once its updates are applied,
/// leaves that speaker's volume at the reported level capped at 100.
pub proof fn lemma_volume_event_sets_volume(e: RawEvent, s: StateStoreView, level: u8)
    requires
        e.data == EventData::RenderingControl(
            RenderingControlData {
                master_volume: Some(level),
                master_mute: None,
                lf_volume: None,
                rf_volume: None,
                bass: None,
                treble: None,
                loudness: None,
            },
        ),
        sender_of(s, e.speaker_ip) is Some,
    ensures
        held(
            apply_all_spec(s, rendering_decode_spec(e, s)).speaker_props,
            s.ip_to_speaker[e.speaker_ip],
            PropertyKind::Volume,
        ) == Some(PropertyValueView::Volume(Volume(if level > 100 { 100u8 } else { level }))),
{
    let us = rendering_decode_spec(e, s);
    assert(us.len() == 1);
    assert(us.drop_last() =~= Seq::<crate::decoders::PropertyUpdateView>::empty());
}

/// With the default decoders, a RenderingControl event goes to the
/// RenderingControl decoder alone: the pipeline leaves the store as applying
/// that decoder's updates does, and counts them.
pub proof fn lemma_pipeline_routes_rendering_events(
    e: RawEvent,
    s: StateStoreView,
    ls: Seq<Seq<SpeakerView>>,
)
    requires
        e.service == Service::RenderingControl,
    ensures
        ({
            let ds = seq![
                Decoder::RenderingControl(RenderingControlDecoder),
                Decoder::AVTransport(AVTransportDecoder),
                Decoder::Topology(TopologyDecoder),
            ];
            let out = run(ds, e, s, ls);
            &&& out.0 == apply_all_spec(s, rendering_decode_spec(e, s))
            &&& out.1 == rendering_decode_spec(e, s).len()
        }),
{
    let ds = seq![
        Decoder::RenderingControl(RenderingControlDecoder),
        Decoder::AVTransport(AVTransportDecoder),
        Decoder::Topology(TopologyDecoder),
    ];
    assert(ds.drop_last() =~= seq![
        Decoder::RenderingControl(RenderingControlDecoder),
        Decoder::AVTransport(AVTransportDecoder),
    ]);
    assert(ds.drop_last().drop_last() =~= seq![Decoder::RenderingControl(RenderingControlDecoder)]);
    assert(ds.drop_last().drop_last().drop_last() =~= Seq::<Decoder>::empty());
    reveal_with_fuel(run, 4);
    assert(ds.last() == Decoder::Topology(TopologyDecoder));
    assert(ds.drop_last().last() == Decoder::AVTransport(AVTransportDecoder));
    assert(ds.drop_last().drop_last().last() == Decoder::RenderingControl(RenderingControlDecoder));
}

/// A watcher that arrives and then leaves leaves every subscription count as
/// it found it; the departure is the last one exactly when nobody else held
/// the subscription.
pub proof fn lemma_acquire_then_release(refs: Map<SubscriptionKey, usize>, key: SubscriptionKey)
    requires
        forall|k: SubscriptionKey| #[trigger] refs.contains_key(k) ==> refs[k] > 0,
        ref_count_spec(refs, key) < usize::MAX,
    ensures
        released(acquired(refs, key), key) == refs,
        (ref_count_spec(acquired(refs, key), key) == 1) == (ref_count_spec(refs, key) == 0),
{
    if ref_count_spec(refs, key) == 0 {
        assert(acquired(refs, key).remove(key) =~= refs);
    } else {
        assert(acquired(refs, key).insert(key, refs[key]) =~= refs);
    }
}

/// A membership of speaker `sid` that zone group `g` accounts for: the
/// speaker is one of its members, the membership is in `g`, and it is
/// flagged as coordinator exactly when the speaker is `g`'s coordinator.
pub open spec fn membership_in_group(g: ZoneGroupData, sid: Seq<char>, mv: GroupMembershipView) -> bool {
    &&& mv.group_id == g.id@
    &&& mv.is_coordinator == (sid == normalize_speaker_id(g.coordinator@))
    &&& exists|mi: int| 0 <= mi < g.members@.len() && sid == normalize_speaker_id(#[trigger] g.members@[mi].uuid@)
}

/// Whether an update sets a group membership that one of `gs` accounts for
/// (updates of other kinds qualify trivially).
pub open spec fn accounted_update(gs: Seq<ZoneGroupData>, u: PropertyUpdateView) -> bool {
    u.update matches StoreUpdateView::SetSpeaker(sid, PropertyValueView::GroupMembership(mv)) ==> exists|gi: int|
        0 <= gi < gs.len() && membership_in_group(#[trigger] gs[gi], sid, mv)
}

/// Each membership update of the members `ms` (a prefix of group `g`'s
/// members) is accounted for by `g`.
proof fn lemma_member_updates_accounted(gs: Seq<ZoneGroupData>, gi: int, ms: Seq<crate::decoders::ZoneMemberData>)
    requires
        0 <= gi < gs.len(),
        ms.len() <= gs[gi].members@.len(),
        ms == gs[gi].members@.take(ms.len() as int),
    ensures
        forall|k: int| 0 <= k < member_updates(gs[gi], ms).len() ==> accounted_update(gs, #[trigger] member_updates(gs[gi], ms)[k]),
    decreases ms.len(),
{
    if ms.len() > 0 {
        let g = gs[gi];
        let pre = ms.drop_last();
        assert(pre =~= g.members@.take(pre.len() as int));
        lemma_member_updates_accounted(gs, gi, pre);
        let a = member_updates(g, pre);
        let b = crate::decoders::member_pair(g, ms.last());
        assert(member_updates(g, ms) == a + b);
        let mi = ms.len() - 1;
        assert(ms.last() == g.members@[mi]);
        assert forall|k: int| 0 <= k < (a + b).len() implies accounted_update(gs, #[trigger] (a + b)[k]) by {
            if k < a.len() {
                assert((a + b)[k] == a[k]);
            } else {
                assert((a + b)[k] == b[k - a.len()]);
                if k - a.len() == 1 {
                    let sid = normalize_speaker_id(g.members@[mi].uuid@);
                    assert(membership_in_group(gs[gi], sid, GroupMembershipView {
                        group_id: g.id@,
                        is_coordinator: sid == normalize_speaker_id(g.coordinator@),
                    }));
                }
            }
        }
    }
}

/// Each membership update of the first `n` groups is accounted for by one of them.
proof fn lemma_speaker_updates_accounted(gs: Seq<ZoneGroupData>, n: int)
    requires
        0 <= n <= gs.len(),
    ensures
        forall|k: int| 0 <= k < speaker_updates(gs.take(n)).len() ==> accounted_update(gs, #[trigger] speaker_updates(gs.take(n))[k]),
    decreases n,
{
    if n > 0 {
        lemma_speaker_updates_accounted(gs, n - 1);
        let t = gs.take(n);
        assert(t.drop_last() =~= gs.take(n - 1));
        assert(t.last() == gs[n - 1]);
        assert(gs[n - 1].members@ =~= gs[n - 1].members@.take(gs[n - 1].members@.len() as int));
        lemma_member_updates_accounted(gs, n - 1, gs[n - 1].members@);
        let a = speaker_updates(gs.take(n - 1));
        let b = member_updates(gs[n - 1], gs[n - 1].members@);
        assert(speaker_updates(t) == a + b);
        assert forall|k: int| 0 <= k < (a + b).len() implies accounted_update(gs, #[trigger] (a + b)[k]) by {
            if k < a.len() {
                assert((a + b)[k] == a[k]);
            } else {
                assert((a + b)[k] == b[k - a.len()]);
            }
        }
    }
}

/// Every group membership the topology decoder sets comes from a zone group
/// of the event that lists the speaker as a member, and is flagged as
/// coordinator exactly when the speaker is that group's coordinator.
pub proof fn lemma_topology_membership_updates(gs: Seq<ZoneGroupData>)
    ensures
        forall|k: int| 0 <= k < speaker_updates(gs).len() ==> accounted_update(gs, #[trigger] speaker_updates(gs)[k]),
{
    lemma_speaker_updates_accounted(gs, gs.len() as int);
    assert(gs.take(gs.len() as int) =~= gs);
}

/// The AVTransport decoder sets, for a position that is a time, the speaker's
/// position to the relative time and its duration to the track duration.
pub proof fn lemma_transport_position_update(id: Seq<char>, d: AVTransportData, rel: Seq<char>, pos: int, dur: Seq<char>, dms: int)
    requires
        opt_str_view(d.rel_time) == Some(rel),
        time_ms_spec(rel) == Some(pos),
        opt_str_view(d.track_duration) == Some(dur),
        time_ms_spec(dur) == Some(dms),
    ensures
        av_position_updates(id, d).len() == 1,
        av_position_updates(id, d)[0].update == StoreUpdateView::SetSpeaker(
            id,
            PropertyValueView::Position(Position { position_ms: pos as u64, duration_ms: dms as u64 }),
        ),
{
}

/// The AVTransport decoder sets a speaker's playback state from the upper-case
/// form of the transport state: PLAYING is playing, PAUSED_PLAYBACK and
/// PAUSED are paused, STOPPED is stopped, TRANSITIONING is a transition.
pub proof fn lemma_transport_state_update(id: Seq<char>, d: AVTransportData, st: Seq<char>)
    requires
        opt_str_view(d.transport_state) == Some(st),
    ensures
        av_state_updates(id, d).len() == 1,
        str_uppercase(st) == "PLAYING"@ ==> av_state_updates(id, d)[0].update == StoreUpdateView::SetSpeaker(
            id,
            PropertyValueView::PlaybackState(PlaybackState::Playing),
        ),
        (str_uppercase(st) == "PAUSED_PLAYBACK"@ || str_uppercase(st) == "PAUSED"@) ==> av_state_updates(id, d)[0].update
            == StoreUpdateView::SetSpeaker(id, PropertyValueView::PlaybackState(PlaybackState::Paused)),
        str_uppercase(st) == "STOPPED"@ ==> av_state_updates(id, d)[0].update == StoreUpdateView::SetSpeaker(
            id,
            PropertyValueView::PlaybackState(PlaybackState::Stopped),
        ),
        str_uppercase(st) == "TRANSITIONING"@ ==> av_state_updates(id, d)[0].update == StoreUpdateView::SetSpeaker(
            id,
            PropertyValueView::PlaybackState(PlaybackState::Transitioning),
        ),
{
    lemma_transport_state_names(str_uppercase(st));
}

} // verus!
