//! Laws of event decoding: which playback state a transport state decodes
//! to, and how boolean rendering variables read.

use vstd::prelude::*;
use crate::decoder::{
    av_changes_spec, av_times_fit, bass_change, memberships_spec, topology_changes_spec, zone_group_memberships_spec,
    ZoneGroupInfo, ZoneGroupTopologyEvent, lemma_event_playback_names, mute_change, rendering_changes_spec,
    volume_change,
    AVTransportEvent, RenderingControlEvent,
};
use crate::ids::normalize_speaker_id;
use crate::property::{GroupMembershipView, str_uppercase, time_ms_spec, Bass, Loudness, Mute, PlaybackState, Position, Treble, Volume};
use crate::text::{eq_ignore_ascii_case_spec, parse_i8_spec, parse_u8_spec};
use crate::value::PropertyValueView;
use crate::viewed::opt_str_view;

verus! {

/// An AVTransport event with a transport state decodes first to a playback
/// state change, read from the state's upper-case form: PAUSED_PLAYBACK and
/// PAUSED give paused, STOPPED gives stopped, PLAYING gives playing, and any
/// other state a transition.
pub proof fn lemma_transport_state_decodes(e: AVTransportEvent, state: Seq<char>)
    requires
        opt_str_view(e.transport_state) == Some(state),
    ensures
        av_changes_spec(e).len() > 0,
        (str_uppercase(state) == "PAUSED_PLAYBACK"@ || str_uppercase(state) == "PAUSED"@)
            ==> av_changes_spec(e)[0] == PropertyValueView::PlaybackState(PlaybackState::Paused),
        str_uppercase(state) == "STOPPED"@ ==> av_changes_spec(e)[0] == PropertyValueView::PlaybackState(
            PlaybackState::Stopped,
        ),
        str_uppercase(state) == "PLAYING"@ ==> av_changes_spec(e)[0] == PropertyValueView::PlaybackState(
            PlaybackState::Playing,
        ),
        (str_uppercase(state) != "PLAYING"@ && str_uppercase(state) != "PAUSED_PLAYBACK"@
            && str_uppercase(state) != "PAUSED"@ && str_uppercase(state) != "STOPPED"@)
            ==> av_changes_spec(e)[0] == PropertyValueView::PlaybackState(PlaybackState::Transitioning),
{
    lemma_event_playback_names(str_uppercase(state));
}

/// How a UPnP boolean variable reads: true exactly for "1" and for "true" in
/// any ASCII case.
pub open spec fn upnp_reading(t: Seq<char>) -> bool {
    t == "1"@ || eq_ignore_ascii_case_spec(t, "true"@)
}

/// A RenderingControl event's Loudness variable decodes, as the last change,
/// to loudness on exactly when its text is "1" or "true" in any ASCII case;
/// and a Mute variable with the same text reads the same way.
pub proof fn lemma_loudness_decodes(e: RenderingControlEvent, t: Seq<char>)
    requires
        opt_str_view(e.loudness) == Some(t),
    ensures
        rendering_changes_spec(e).len() > 0,
        rendering_changes_spec(e).last() == PropertyValueView::Loudness(Loudness(upnp_reading(t))),
        opt_str_view(e.master_mute) == Some(t) ==> rendering_changes_spec(e)[volume_change(
            e.master_volume,
        ).len() as int] == PropertyValueView::Mute(Mute(upnp_reading(t))),
{
    reveal_strlit("1");
    reveal_strlit("true");
    assert("1"@ =~= seq!['1']);
    assert("true"@ =~= seq!['t', 'r', 'u', 'e']);
}

/// A RenderingControl event's Mute variable decodes, right after the volume
/// change (if any), to muted exactly when its text is "1" or "true" in any
/// ASCII case.
pub proof fn lemma_mute_decodes(e: RenderingControlEvent, t: Seq<char>)
    requires
        opt_str_view(e.master_mute) == Some(t),
    ensures
        volume_change(e.master_volume).len() < rendering_changes_spec(e).len(),
        rendering_changes_spec(e)[volume_change(e.master_volume).len() as int] == PropertyValueView::Mute(
            Mute(upnp_reading(t)),
        ),
{
    reveal_strlit("1");
    reveal_strlit("true");
    assert("1"@ =~= seq!['1']);
    assert("true"@ =~= seq!['t', 'r', 'u', 'e']);
}

/// A RenderingControl event's volume, when it is a number from 0 to 255,
/// decodes first, capped at 100.
pub proof fn lemma_volume_decodes(e: RenderingControlEvent, t: Seq<char>, v: nat)
    requires
        opt_str_view(e.master_volume) == Some(t),
        parse_u8_spec(t) == Some(v),
    ensures
        rendering_changes_spec(e).len() > 0,
        v <= 100 ==> rendering_changes_spec(e)[0] == PropertyValueView::Volume(Volume(v as u8)),
        v > 100 ==> rendering_changes_spec(e)[0] == PropertyValueView::Volume(Volume(100)),
{
}

/// An AVTransport event without a transport state but with a relative time
/// and a track duration that parse decodes first to a position change: the
/// relative time is the position, the track duration is the duration.
pub proof fn lemma_av_position_decodes(e: AVTransportEvent, rel: Seq<char>, dur: Seq<char>, p: int, d: int)
    requires
        av_times_fit(e),
        e.transport_state is None,
        opt_str_view(e.rel_time) == Some(rel),
        opt_str_view(e.track_duration) == Some(dur),
        time_ms_spec(rel) == Some(p),
        time_ms_spec(dur) == Some(d),
    ensures
        av_changes_spec(e).len() > 0,
        av_changes_spec(e)[0] == PropertyValueView::Position(Position { position_ms: p as u64, duration_ms: d as u64 }),
        p == av_changes_spec(e)[0]->Position_0.position_ms,
        d == av_changes_spec(e)[0]->Position_0.duration_ms,
{
}

/// A RenderingControl event's bass and treble, when they are numbers from
/// -128 to 127, decode after the volume and mute changes, bass first, each
/// kept within -10..=10.
pub proof fn lemma_tone_decodes(e: RenderingControlEvent, b: Seq<char>, bv: int, t: Seq<char>, tv: int)
    requires
        opt_str_view(e.bass) == Some(b),
        parse_i8_spec(b) == Some(bv),
        opt_str_view(e.treble) == Some(t),
        parse_i8_spec(t) == Some(tv),
    ensures
        ({
            let at = (volume_change(e.master_volume).len() + mute_change(e.master_mute).len()) as int;
            let r = rendering_changes_spec(e);
            &&& at + 1 < r.len()
            &&& r[at] == PropertyValueView::Bass(Bass(if bv < -10 { -10i8 } else if bv > 10 { 10i8 } else { bv as i8 }))
            &&& r[at + 1] == PropertyValueView::Treble(
                Treble(if tv < -10 { -10i8 } else if tv > 10 { 10i8 } else { tv as i8 }),
            )
        }),
{
    let at = (volume_change(e.master_volume).len() + mute_change(e.master_mute).len()) as int;
    assert(bass_change(e.bass).len() == 1);
    assert(rendering_changes_spec(e)[at] == bass_change(e.bass)[0]);
}

/// A membership that zone group `zg` accounts for: the speaker is one of its
/// members, it belongs to `zg`, and it coordinates `zg` exactly when it is
/// `zg`'s coordinator.
pub open spec fn membership_of_group(zg: ZoneGroupInfo, x: (Seq<char>, GroupMembershipView)) -> bool {
    &&& x.1.group_id == zg.id@
    &&& x.1.is_coordinator == (x.0 == normalize_speaker_id(zg.coordinator@))
    &&& exists|mi: int| 0 <= mi < zg.members@.len() && x.0 == normalize_speaker_id(#[trigger] zg.members@[mi].uuid@)
}

/// Each membership of the first `n` zone groups is accounted for by one of them.
proof fn lemma_memberships_accounted(zgs: Seq<ZoneGroupInfo>, n: int)
    requires
        0 <= n <= zgs.len(),
    ensures
        forall|k: int|
            #![trigger memberships_spec(zgs, n)[k]]
            0 <= k < memberships_spec(zgs, n).len() ==> exists|gi: int|
                0 <= gi < n && membership_of_group(#[trigger] zgs[gi], memberships_spec(zgs, n)[k]),
    decreases n,
{
    if n > 0 {
        lemma_memberships_accounted(zgs, n - 1);
        let pre = memberships_spec(zgs, n - 1);
        let zg = zgs[n - 1];
        let st = zone_group_memberships_spec(zg);
        assert(memberships_spec(zgs, n) == pre + st);
        assert forall|k: int| #![trigger (pre + st)[k]] 0 <= k < (pre + st).len() implies exists|gi: int|
            0 <= gi < n && membership_of_group(#[trigger] zgs[gi], (pre + st)[k]) by {
            if k < pre.len() {
                assert((pre + st)[k] == pre[k]);
                let gi = choose|gi: int| 0 <= gi < n - 1 && membership_of_group(#[trigger] zgs[gi], pre[k]);
                assert(membership_of_group(zgs[gi], (pre + st)[k]));
            } else {
                let mi = k - pre.len();
                assert((pre + st)[k] == st[mi]);
                assert(normalize_speaker_id(zg.members@[mi].uuid@) == st[mi].0);
                assert(membership_of_group(zgs[n - 1], (pre + st)[k]));
            }
        }
    }
}

/// Every membership a ZoneGroupTopology event decodes to belongs to a zone
/// group of the event that lists the speaker as a member, and is flagged as
/// coordinator exactly when the speaker is that group's coordinator.
pub proof fn lemma_topology_memberships(z: ZoneGroupTopologyEvent)
    ensures
        forall|k: int|
            #![trigger topology_changes_spec(z).memberships[k]]
            0 <= k < topology_changes_spec(z).memberships.len() ==> exists|gi: int|
                0 <= gi < z.zone_groups@.len() && membership_of_group(
                    #[trigger] z.zone_groups@[gi],
                    topology_changes_spec(z).memberships[k],
                ),
{
    lemma_memberships_accounted(z.zone_groups@, z.zone_groups@.len() as int);
}

} // verus!
