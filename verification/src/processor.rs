//! A state processor: turns events into cache updates and reports the state
//! changes they made.

use vstd::prelude::*;
use crate::cache::{
    groups_view, set_groups_spec, update_mute_spec, update_playback_spec, update_position_spec,
    update_track_spec, update_volume_spec, CacheView, StateCache,
};
use crate::events::{StateEvent, StateEventPayload, TopologyZoneGroup, TopologyZoneMember};
use crate::ids::{normalize_speaker_id, GroupId, SpeakerId};
use crate::model::{
    changes_list_view, opt_change_view, Group, GroupView, SpeakerRef, SpeakerRefView, StateChange,
    StateChangeView, TrackInfo, TrackInfoView,
};
use crate::net::IpAddr;
use crate::property::{playback_from_upper, str_uppercase, time_fits, time_ms_spec, PlaybackState, Position};
use crate::table::Table;
use crate::viewed::{opt_str_clone, opt_str_view, seq_view, ViewEq};
use crate::xml::{extract_value_spec, extract_xml_value, opt_chars};

verus! {

// ---------------------------------------------------------------------------
// Field parsing
// ---------------------------------------------------------------------------

/// Parses a time string ("H:MM:SS" or "H:MM:SS.mmm") to milliseconds.
pub fn parse_time_to_ms(time_str: &str) -> (r: Option<u64>)
    requires
        time_fits(time_str@),
    ensures
        r matches Some(ms) ==> time_ms_spec(time_str@) == Some(ms as int),
        r is None ==> time_ms_spec(time_str@) is None,
{
    Position::parse_time_to_ms(time_str)
}

/// The artist of DIDL-Lite metadata: the creator, else the UPnP artist.
pub open spec fn didl_artist_spec(m: Seq<char>) -> Option<Seq<char>> {
    match extract_value_spec(m, "dc:creator"@) {
        Some(a) => Some(a),
        None => extract_value_spec(m, "upnp:artist"@),
    }
}

/// The title of DIDL-Lite metadata.
pub fn parse_didl_title(metadata: &str) -> (r: Option<String>)
    ensures
        opt_str_view(r) == extract_value_spec(metadata@, "dc:title"@),
{
    extract_xml_value(metadata, "dc:title")
}

/// The artist of DIDL-Lite metadata.
pub fn parse_didl_artist(metadata: &str) -> (r: Option<String>)
    ensures
        opt_str_view(r) == didl_artist_spec(metadata@),
{
    match extract_xml_value(metadata, "dc:creator") {
        Some(a) => Some(a),
        None => extract_xml_value(metadata, "upnp:artist"),
    }
}

/// The album of DIDL-Lite metadata.
pub fn parse_didl_album(metadata: &str) -> (r: Option<String>)
    ensures
        opt_str_view(r) == extract_value_spec(metadata@, "upnp:album"@),
{
    extract_xml_value(metadata, "upnp:album")
}

/// The album art URI of DIDL-Lite metadata.
pub fn parse_didl_album_art(metadata: &str) -> (r: Option<String>)
    ensures
        opt_str_view(r) == extract_value_spec(metadata@, "upnp:albumArtURI"@),
{
    extract_xml_value(metadata, "upnp:albumArtURI")
}

// ---------------------------------------------------------------------------
// Abstract behaviour
// ---------------------------------------------------------------------------

/// The abstract state of a [`StateProcessor`].
pub struct ProcessorView {
    pub cache: CacheView,
    pub ip_to_speaker: Map<IpAddr, Seq<char>>,
}

/// `ips` maps the addresses of the cached speakers, and only those, each to
/// a speaker at that address.
pub open spec fn address_map_of(sp: Map<Seq<char>, crate::model::SpeakerStateView>, ips: Map<IpAddr, Seq<char>>) -> bool {
    &&& forall|ip: IpAddr| #[trigger] ips.contains_key(ip) ==> sp.contains_key(ips[ip]) && sp[ips[ip]].speaker.ip_address == ip
    &&& forall|k: Seq<char>| #[trigger] sp.contains_key(k) ==> ips.contains_key(sp[k].speaker.ip_address)
}

/// A change as a sequence of zero or one changes.
pub open spec fn opt_seq(c: Option<StateChangeView>) -> Seq<StateChangeView> {
    match c {
        Some(x) => seq![x],
        None => Seq::empty(),
    }
}

/// A field of DIDL-Lite metadata, when there is metadata.
pub open spec fn meta_field(meta: Option<Seq<char>>, tag: Seq<char>) -> Option<Seq<char>> {
    match meta {
        Some(m) => extract_value_spec(m, tag),
        None => None,
    }
}

/// The milliseconds of an optional time string that parses.
pub open spec fn opt_time_ms(t: Option<Seq<char>>) -> Option<u64> {
    match t {
        Some(s) => match time_ms_spec(s) {
            Some(ms) => Some(ms as u64),
            None => None,
        },
        None => None,
    }
}

/// The track a transport event describes, or `None` when it has no title,
/// artist, album or URI.
pub open spec fn event_track_spec(uri: Option<Seq<char>>, duration: Option<Seq<char>>, meta: Option<Seq<char>>) -> Option<TrackInfoView> {
    let t = TrackInfoView {
        title: meta_field(meta, "dc:title"@),
        artist: match meta {
            Some(m) => didl_artist_spec(m),
            None => None,
        },
        album: meta_field(meta, "upnp:album"@),
        duration_ms: opt_time_ms(duration),
        uri,
        album_art_uri: meta_field(meta, "upnp:albumArtURI"@),
    };
    if t.title is None && t.artist is None && t.album is None && t.uri is None {
        None
    } else {
        Some(t)
    }
}

/// The group a topology zone group becomes.
pub open spec fn zone_group_spec(zg: TopologyZoneGroup) -> GroupView {
    GroupView {
        id: zg.id@,
        coordinator_id: normalize_speaker_id(zg.coordinator@),
        members: zg.members@.map_values(
            |m: TopologyZoneMember|
                SpeakerRefView {
                    id: normalize_speaker_id(m.uuid@),
                    satellite_ids: m.satellites@.map_values(|s: String| normalize_speaker_id(s@)),
                },
        ),
    }
}

/// The payload's times fit in a `u64` of milliseconds.
pub open spec fn payload_times_fit(p: StateEventPayload) -> bool {
    match p {
        StateEventPayload::Transport { track_duration, rel_time, .. } => (match track_duration {
            Some(d) => time_fits(d@),
            None => true,
        }) && (match rel_time {
            Some(t) => time_fits(t@),
            None => true,
        }),
        _ => true,
    }
}

/// One event applied to the processor, with the changes it reports in order.
///
/// Transport and rendering events from unknown addresses change nothing. A
/// transport event updates the playback state, then the position (when the
/// relative time parses; duration 0 when it does not), then the track (when
/// it has a URI or metadata). A rendering event updates the volume, then
/// the mute state. A topology event replaces the groups.
pub open spec fn process_event_spec(p: ProcessorView, e: StateEvent) -> (ProcessorView, Seq<StateChangeView>) {
    match e.payload {
        StateEventPayload::Transport { transport_state, current_track_uri, track_duration, rel_time, track_metadata } => {
            if !p.ip_to_speaker.contains_key(e.speaker_ip) {
                (p, Seq::empty())
            } else {
                let sid = p.ip_to_speaker[e.speaker_ip];
                let r1 = match transport_state {
                    Some(s) => update_playback_spec(p.cache, sid, playback_from_upper(str_uppercase(s@))),
                    None => (p.cache, None),
                };
                let r2 = match rel_time {
                    Some(rt) => match time_ms_spec(rt@) {
                        Some(pos) => update_position_spec(
                            r1.0,
                            sid,
                            pos as u64,
                            match opt_time_ms(opt_str_view(track_duration)) {
                                Some(d) => d,
                                None => 0,
                            },
                        ),
                        None => (r1.0, None),
                    },
                    None => (r1.0, None),
                };
                let r3 = if track_metadata is Some || current_track_uri is Some {
                    update_track_spec(
                        r2.0,
                        sid,
                        event_track_spec(opt_str_view(current_track_uri), opt_str_view(track_duration), opt_str_view(track_metadata)),
                    )
                } else {
                    (r2.0, None)
                };
                (ProcessorView { cache: r3.0, ..p }, opt_seq(r1.1) + opt_seq(r2.1) + opt_seq(r3.1))
            }
        },
        StateEventPayload::Rendering { master_volume, master_mute } => {
            if !p.ip_to_speaker.contains_key(e.speaker_ip) {
                (p, Seq::empty())
            } else {
                let sid = p.ip_to_speaker[e.speaker_ip];
                let r1 = match master_volume {
                    Some(v) => update_volume_spec(p.cache, sid, v),
                    None => (p.cache, None),
                };
                let r2 = match master_mute {
                    Some(m) => update_mute_spec(r1.0, sid, m),
                    None => (r1.0, None),
                };
                (ProcessorView { cache: r2.0, ..p }, opt_seq(r1.1) + opt_seq(r2.1))
            }
        },
        StateEventPayload::Topology { zone_groups } => {
            let r = set_groups_spec(p.cache, zone_groups@.map_values(|zg: TopologyZoneGroup| zone_group_spec(zg)));
            (ProcessorView { cache: r.0, ..p }, opt_seq(r.1))
        },
    }
}

// ---------------------------------------------------------------------------
// StateProcessor
// ---------------------------------------------------------------------------

/// Processes events into cache updates, reporting the state changes.
#[derive(Debug)]
pub struct StateProcessor {
    cache: StateCache,
    ip_to_speaker: Table<IpAddr, SpeakerId>,
}

impl View for StateProcessor {
    type V = ProcessorView;

    closed spec fn view(&self) -> ProcessorView {
        ProcessorView { cache: self.cache@, ip_to_speaker: self.ip_to_speaker@ }
    }
}

/// Appends a reported change, if any.
fn push_change(out: &mut Vec<StateChange>, c: Option<StateChange>)
    ensures
        changes_list_view(final(out)@) == changes_list_view(old(out)@) + opt_seq(opt_change_view(c)),
{
    let ghost before = changes_list_view(out@);
    match c {
        Some(x) => {
            out.push(x);
            assert(changes_list_view(out@) =~= before + seq![out@[out@.len() - 1]@]);
        },
        None => {
            assert(changes_list_view(out@) =~= before + Seq::<StateChangeView>::empty());
        },
    }
}

impl StateProcessor {
    /// The cache and the address map are well formed.
    pub closed spec fn wf(&self) -> bool {
        self.cache.wf() && self.ip_to_speaker.wf()
    }

    /// A processor over `cache`, with no addresses known yet.
    pub fn new(cache: StateCache) -> (r: StateProcessor)
        requires
            cache.wf(),
        ensures
            r.wf(),
            r@.cache == cache@,
            r@.ip_to_speaker == Map::<IpAddr, Seq<char>>::empty(),
    {
        StateProcessor { cache, ip_to_speaker: Table::new() }
    }

    /// Gives the cache back.
    pub fn into_cache(self) -> (r: StateCache)
        requires
            self.wf(),
        ensures
            r.wf(),
            r@ == self@.cache,
    {
        self.cache
    }

    /// The underlying cache.
    pub fn cache(&self) -> (r: &StateCache)
        ensures
            r@ == self@.cache,
    {
        &self.cache
    }

    /// Rebuilds the address map from the cached speakers: each speaker's
    /// address maps to a speaker at that address.
    pub fn rebuild_ip_mapping(&mut self)
        requires
            old(self).wf(),
        ensures
            final(self).wf(),
            final(self)@.cache == old(self)@.cache,
            address_map_of(old(self)@.cache.speakers, final(self)@.ip_to_speaker),
    {
        self.ip_to_speaker.clear();
        let all = self.cache.get_all_speakers();
        let ghost sp = self@.cache.speakers;
        let ghost ids = crate::cache::state_ids(all@);
        let mut i: usize = 0;
        while i < all.len()
            invariant
                self.wf(),
                self@.cache == old(self)@.cache,
                sp == old(self)@.cache.speakers,
                i <= all.len(),
                ids == crate::cache::state_ids(all@),
                ids.to_set() == sp.dom(),
                crate::cache::states_current(sp, all@),
                forall|ip: IpAddr| #[trigger] self@.ip_to_speaker.contains_key(ip) <==> exists|j: int|
                    0 <= j < i && #[trigger] all@[j]@.speaker.ip_address == ip,
                forall|ip: IpAddr| #[trigger] self@.ip_to_speaker.contains_key(ip) ==> {
                    let k = self@.ip_to_speaker[ip];
                    sp.contains_key(k) && sp[k].speaker.ip_address == ip
                },
            decreases all.len() - i,
        {
            let ip = all[i].speaker.ip_address;
            let id = all[i].speaker.id.view_clone();
            let ghost before = self@.ip_to_speaker;
            self.ip_to_speaker.insert(ip, id);
            proof {
                assert(sp.contains_key(all@[i as int]@.speaker.id));
                assert(self@.ip_to_speaker == before.insert(ip, id@));
                assert forall|x: IpAddr| #[trigger] self@.ip_to_speaker.contains_key(x) <==> exists|j: int|
                    0 <= j < i + 1 && #[trigger] all@[j]@.speaker.ip_address == x by {
                    if x == ip {
                        assert(all@[i as int]@.speaker.ip_address == x);
                    } else {
                        assert(before.contains_key(x) <==> exists|j: int| 0 <= j < i && #[trigger] all@[j]@.speaker.ip_address == x);
                        if exists|j: int| 0 <= j < i + 1 && #[trigger] all@[j]@.speaker.ip_address == x {
                            let j = choose|j: int| 0 <= j < i + 1 && #[trigger] all@[j]@.speaker.ip_address == x;
                            assert(j != i);
                        }
                    }
                }
                assert forall|x: IpAddr| #[trigger] self@.ip_to_speaker.contains_key(x) implies {
                    let k = self@.ip_to_speaker[x];
                    sp.contains_key(k) && sp[k].speaker.ip_address == x
                } by {
                    if x != ip {
                        assert(before.contains_key(x));
                    }
                }
            }
            i = i + 1;
        }
        proof {
            assert forall|k: Seq<char>| #[trigger] sp.contains_key(k) implies self@.ip_to_speaker.contains_key(sp[k].speaker.ip_address) by {
                assert(ids.to_set().contains(k));
                let j = choose|j: int| 0 <= j < ids.len() && ids[j] == k;
                assert(all@[j]@.speaker.ip_address == sp[k].speaker.ip_address);
            }
        }
    }

    /// The group a topology zone group becomes.
    fn zone_group_to_group(zg: &TopologyZoneGroup) -> (r: Group)
        ensures
            r@ == zone_group_spec(*zg),
    {
        let mut members: Vec<SpeakerRef> = Vec::new();
        let mut j: usize = 0;
        while j < zg.members.len()
            invariant
                j <= zg.members.len(),
                members@.len() == j,
                forall|a: int| 0 <= a < j ==> #[trigger] members@[a]@ == zone_group_spec(*zg).members[a],
            decreases zg.members.len() - j,
        {
            let m = &zg.members[j];
            let mut sats: Vec<SpeakerId> = Vec::new();
            let mut k: usize = 0;
            while k < m.satellites.len()
                invariant
                    k <= m.satellites.len(),
                    sats@.len() == k,
                    forall|a: int| 0 <= a < k ==> #[trigger] sats@[a]@ == normalize_speaker_id(m.satellites@[a]@),
                decreases m.satellites.len() - k,
            {
                sats.push(SpeakerId::new(m.satellites[k].as_str()));
                k = k + 1;
            }
            let sr = SpeakerRef::new(SpeakerId::new(m.uuid.as_str()), sats);
            proof {
                assert(sr@.satellite_ids =~= m.satellites@.map_values(|s: String| normalize_speaker_id(s@)));
            }
            members.push(sr);
            j = j + 1;
        }
        let g = Group::new(GroupId::new(zg.id.as_str()), SpeakerId::new(zg.coordinator.as_str()), members);
        proof {
            assert(g@.members =~= zone_group_spec(*zg).members);
        }
        g
    }

    /// Applies one event to the cache and returns the changes it reported,
    /// in order (see [`process_event_spec`]).
    pub fn process_event(&mut self, event: StateEvent) -> (r: Vec<StateChange>)
        requires
            old(self).wf(),
            payload_times_fit(event.payload),
        ensures
            final(self).wf(),
            (final(self)@, changes_list_view(r@)) == process_event_spec(old(self)@, event),
    {
        let ghost e0 = event;
        let ghost p0 = self@;
        let mut changes: Vec<StateChange> = Vec::new();
        proof {
            assert(changes_list_view(changes@) =~= Seq::<StateChangeView>::empty());
        }
        let speaker_ip = event.speaker_ip;
        match event.payload {
            StateEventPayload::Transport { transport_state, current_track_uri, track_duration, rel_time, track_metadata } => {
                match self.ip_to_speaker.get(&speaker_ip) {
                    None => {},
                    Some(speaker_id) => {
                        let ghost sid = speaker_id@;
                        match &transport_state {
                            Some(st) => {
                                let ps = PlaybackState::from_transport_state(st.as_str());
                                let c = self.cache.update_playback_state(&speaker_id, ps);
                                push_change(&mut changes, c);
                            },
                            None => {},
                        }
                        let ghost c1 = self@.cache;
                        let ghost l1 = changes_list_view(changes@);
                        match &rel_time {
                            Some(rt) => match parse_time_to_ms(rt.as_str()) {
                                Some(pos) => {
                                    let dur = match &track_duration {
                                        Some(d) => match parse_time_to_ms(d.as_str()) {
                                            Some(x) => x,
                                            None => 0,
                                        },
                                        None => 0,
                                    };
                                    let c = self.cache.update_position(&speaker_id, pos, dur);
                                    push_change(&mut changes, c);
                                },
                                None => {
                                    proof {
                                        assert(l1 + Seq::<StateChangeView>::empty() =~= l1);
                                    }
                                },
                            },
                            None => {
                                proof {
                                    assert(l1 + Seq::<StateChangeView>::empty() =~= l1);
                                }
                            },
                        }
                        let ghost l2 = changes_list_view(changes@);
                        if track_metadata.is_some() || current_track_uri.is_some() {
                            let title = match &track_metadata {
                                Some(m) => parse_didl_title(m.as_str()),
                                None => None,
                            };
                            let artist = match &track_metadata {
                                Some(m) => parse_didl_artist(m.as_str()),
                                None => None,
                            };
                            let album = match &track_metadata {
                                Some(m) => parse_didl_album(m.as_str()),
                                None => None,
                            };
                            let album_art_uri = match &track_metadata {
                                Some(m) => parse_didl_album_art(m.as_str()),
                                None => None,
                            };
                            let duration_ms = match &track_duration {
                                Some(d) => parse_time_to_ms(d.as_str()),
                                None => None,
                            };
                            let info = TrackInfo { title, artist, album, duration_ms, uri: current_track_uri, album_art_uri };
                            let track_option = if info.is_empty() {
                                None
                            } else {
                                Some(info)
                            };
                            let c = self.cache.update_track(&speaker_id, track_option);
                            push_change(&mut changes, c);
                        } else {
                            proof {
                                assert(l2 + Seq::<StateChangeView>::empty() =~= l2);
                            }
                        }
                        proof {
                            assert(changes_list_view(changes@) =~= process_event_spec(p0, e0).1);
                        }
                    },
                }
            },
            StateEventPayload::Rendering { master_volume, master_mute } => {
                match self.ip_to_speaker.get(&speaker_ip) {
                    None => {},
                    Some(speaker_id) => {
                        match master_volume {
                            Some(v) => {
                                let c = self.cache.update_volume(&speaker_id, v);
                                push_change(&mut changes, c);
                            },
                            None => {},
                        }
                        let ghost l1 = changes_list_view(changes@);
                        match master_mute {
                            Some(m) => {
                                let c = self.cache.update_mute(&speaker_id, m);
                                push_change(&mut changes, c);
                            },
                            None => {
                                proof {
                                    assert(l1 + Seq::<StateChangeView>::empty() =~= l1);
                                }
                            },
                        }
                        proof {
                            assert(changes_list_view(changes@) =~= process_event_spec(p0, e0).1);
                        }
                    },
                }
            },
            StateEventPayload::Topology { zone_groups } => {
                let mut groups: Vec<Group> = Vec::new();
                let mut g: usize = 0;
                while g < zone_groups.len()
                    invariant
                        g <= zone_groups.len(),
                        groups@.len() == g,
                        forall|a: int| 0 <= a < g ==> #[trigger] groups@[a]@ == zone_group_spec(zone_groups@[a]),
                    decreases zone_groups.len() - g,
                {
                    groups.push(Self::zone_group_to_group(&zone_groups[g]));
                    g = g + 1;
                }
                proof {
                    assert(groups_view(groups@) =~= zone_groups@.map_values(|zg: TopologyZoneGroup| zone_group_spec(zg)));
                }
                let c = self.cache.set_groups(groups);
                push_change(&mut changes, c);
            },
        }
        changes
    }

}

/// The milliseconds a transport event's track duration stands for: its
/// parsed value, or 0 when it is absent or does not parse.
pub open spec fn expected_duration_ms(track_duration: Option<String>) -> int {
    match track_duration {
        Some(d) => match time_ms_spec(d@) {
            Some(q) => q,
            None => 0,
        },
        None => 0,
    }
}

/// After a transport event from a known, cached speaker whose relative time
/// parses to `pos` milliseconds, the speaker's cached position is `pos` and
/// its cached duration is the event's track duration (0 when it is absent or
/// does not parse): the relative time is the position, the track duration is
/// the duration.
pub proof fn lemma_transport_event_sets_position(p: ProcessorView, e: StateEvent, rel: Seq<char>, pos: int)
    requires
        e.payload matches StateEventPayload::Transport { rel_time: Some(rt), .. } && rt@ == rel,
        time_ms_spec(rel) == Some(pos),
        payload_times_fit(e.payload),
        p.ip_to_speaker.contains_key(e.speaker_ip),
        p.cache.speakers.contains_key(p.ip_to_speaker[e.speaker_ip]),
    ensures
        process_event_spec(p, e).0.cache.speakers.contains_key(p.ip_to_speaker[e.speaker_ip]),
        process_event_spec(p, e).0.cache.speakers[p.ip_to_speaker[e.speaker_ip]].position_ms == pos,
        e.payload matches StateEventPayload::Transport { track_duration, .. }
            && process_event_spec(p, e).0.cache.speakers[p.ip_to_speaker[e.speaker_ip]].duration_ms
            == expected_duration_ms(track_duration),
{
}

/// After a rendering event from a known, cached speaker, the speaker's
/// cached volume is the event's volume and its cached mute state the event's
/// mute state, each when the event carries it; a value it does not carry is
/// left as it was.
pub proof fn lemma_rendering_event_sets_volume_and_mute(p: ProcessorView, e: StateEvent)
    requires
        e.payload is Rendering,
        p.ip_to_speaker.contains_key(e.speaker_ip),
        p.cache.speakers.contains_key(p.ip_to_speaker[e.speaker_ip]),
    ensures
        process_event_spec(p, e).0.cache.speakers.contains_key(p.ip_to_speaker[e.speaker_ip]),
        e.payload matches StateEventPayload::Rendering { master_volume, .. } && process_event_spec(
            p,
            e,
        ).0.cache.speakers[p.ip_to_speaker[e.speaker_ip]].volume == (match master_volume {
            Some(v) => v,
            None => p.cache.speakers[p.ip_to_speaker[e.speaker_ip]].volume,
        }),
        e.payload matches StateEventPayload::Rendering { master_mute, .. } && process_event_spec(
            p,
            e,
        ).0.cache.speakers[p.ip_to_speaker[e.speaker_ip]].muted == (match master_mute {
            Some(m) => m,
            None => p.cache.speakers[p.ip_to_speaker[e.speaker_ip]].muted,
        }),
{
}

/// After a transport event from a known, cached speaker with a transport
/// state, the speaker's cached playback state is the one that state names in
/// upper case: PLAYING is playing, PAUSED_PLAYBACK and PAUSED are paused,
/// STOPPED is stopped, TRANSITIONING is a transition.
pub proof fn lemma_transport_event_sets_playback(p: ProcessorView, e: StateEvent, state: Seq<char>)
    requires
        e.payload matches StateEventPayload::Transport { transport_state: Some(ts), .. } && ts@ == state,
        payload_times_fit(e.payload),
        p.ip_to_speaker.contains_key(e.speaker_ip),
        p.cache.speakers.contains_key(p.ip_to_speaker[e.speaker_ip]),
    ensures
        process_event_spec(p, e).0.cache.speakers.contains_key(p.ip_to_speaker[e.speaker_ip]),
        str_uppercase(state) == "PLAYING"@ ==> process_event_spec(p, e).0.cache.speakers[p.ip_to_speaker[e.speaker_ip]].playback_state
            == PlaybackState::Playing,
        (str_uppercase(state) == "PAUSED_PLAYBACK"@ || str_uppercase(state) == "PAUSED"@) ==> process_event_spec(
            p,
            e,
        ).0.cache.speakers[p.ip_to_speaker[e.speaker_ip]].playback_state == PlaybackState::Paused,
        str_uppercase(state) == "STOPPED"@ ==> process_event_spec(p, e).0.cache.speakers[p.ip_to_speaker[e.speaker_ip]].playback_state
            == PlaybackState::Stopped,
        str_uppercase(state) == "TRANSITIONING"@ ==> process_event_spec(p, e).0.cache.speakers[p.ip_to_speaker[e.speaker_ip]].playback_state
            == PlaybackState::Transitioning,
{
    crate::property::lemma_transport_state_names(str_uppercase(state));
}

} // verus!
