//! Event decoding: UPnP event payloads into typed property changes.

use vstd::prelude::*;
use crate::ids::{normalize_speaker_id, GroupId, SpeakerId};
use crate::net::IpAddr;
use crate::property::{
    all_ascii, ascii_upper, eq_clamp, playback_from_upper, str_uppercase, time_fits, time_ms_spec, to_uppercase_string,
    Bass, CurrentTrack, CurrentTrackView, GroupInfo, GroupInfoView, GroupMembership,
    GroupMembershipView, Loudness, Mute, PlaybackState, Position, PropertyKind, Scope, Service,
    Treble, Volume, chars_eq_str, parse_time_chars,
};
use crate::text::{
    chars_of, eq_ignore_ascii_case, eq_ignore_ascii_case_spec, parse_i8, parse_i8_spec, parse_u8,
    parse_u8_spec,
};
use crate::value::{PropertyValue, PropertyValueView};
use crate::viewed::{opt_str_view, seq_view, ViewEq};
use crate::xml::{extract_element_spec, extract_xml_element, opt_chars};

verus! {

// ---------------------------------------------------------------------------
// Event payloads
// ---------------------------------------------------------------------------

/// The state variables of a RenderingControl event.
#[derive(Debug, Clone)]
pub struct RenderingControlEvent {
    pub master_volume: Option<String>,
    pub master_mute: Option<String>,
    pub bass: Option<String>,
    pub treble: Option<String>,
    pub loudness: Option<String>,
    pub lf_volume: Option<String>,
    pub rf_volume: Option<String>,
    pub lf_mute: Option<String>,
    pub rf_mute: Option<String>,
    pub balance: Option<String>,
    /// Other channels' variables, by name.
    pub other_channels: Vec<(String, String)>,
}

/// The state variables of an AVTransport event.
#[derive(Debug, Clone)]
pub struct AVTransportEvent {
    pub transport_state: Option<String>,
    pub transport_status: Option<String>,
    pub speed: Option<String>,
    pub current_track_uri: Option<String>,
    pub track_duration: Option<String>,
    pub rel_time: Option<String>,
    pub abs_time: Option<String>,
    pub rel_count: Option<String>,
    pub abs_count: Option<String>,
    pub play_mode: Option<String>,
    pub track_metadata: Option<String>,
    pub next_track_uri: Option<String>,
    pub next_track_metadata: Option<String>,
    pub queue_length: Option<String>,
}

/// Network details of a zone group member.
#[derive(Debug, Clone)]
pub struct NetworkInfo {
    pub wireless_mode: String,
    pub wifi_enabled: String,
    pub eth_link: String,
    pub channel_freq: String,
    pub behind_wifi_extender: String,
}

/// A satellite speaker bonded to a zone group member.
#[derive(Debug, Clone)]
pub struct SatelliteInfo {
    pub uuid: String,
    pub location: String,
    pub zone_name: String,
    pub software_version: String,
}

/// One member of a zone group.
#[derive(Debug, Clone)]
pub struct ZoneGroupMemberInfo {
    pub uuid: String,
    pub location: String,
    pub zone_name: String,
    pub software_version: String,
    pub network_info: NetworkInfo,
    pub satellites: Vec<SatelliteInfo>,
    /// Further member attributes by name (e.g. "ModelName").
    pub metadata: Vec<(String, String)>,
}

/// One zone group.
#[derive(Debug, Clone)]
pub struct ZoneGroupInfo {
    pub coordinator: String,
    pub id: String,
    pub members: Vec<ZoneGroupMemberInfo>,
}

/// The payload of a ZoneGroupTopology event.
#[derive(Debug, Clone)]
pub struct ZoneGroupTopologyEvent {
    pub zone_groups: Vec<ZoneGroupInfo>,
    pub vanished_devices: Vec<String>,
}

/// A DeviceProperties event's variables, by name.
#[derive(Debug, Clone)]
pub struct DevicePropertiesEvent {
    pub variables: Vec<(String, String)>,
}

/// A GroupManagement event's variables, by name.
#[derive(Debug, Clone)]
pub struct GroupManagementEvent {
    pub variables: Vec<(String, String)>,
}

/// The parsed payload of an event.
#[derive(Debug, Clone)]
pub enum EventData {
    RenderingControlEvent(RenderingControlEvent),
    AVTransportEvent(AVTransportEvent),
    ZoneGroupTopologyEvent(ZoneGroupTopologyEvent),
    DevicePropertiesEvent(DevicePropertiesEvent),
    GroupManagementEvent(GroupManagementEvent),
}

/// An event with the context it arrived in.
#[derive(Debug, Clone)]
pub struct EnrichedEvent {
    /// IP of the speaker that sent the event.
    pub speaker_ip: IpAddr,
    /// The service the event is for.
    pub service: Service,
    /// The parsed payload.
    pub event_data: EventData,
    /// When the event was observed upstream (clock ticks).
    pub observed_at: u64,
}

// ---------------------------------------------------------------------------
// PropertyChange
// ---------------------------------------------------------------------------

/// A single property change.
#[derive(Debug)]
pub enum PropertyChange {
    Volume(Volume),
    Mute(Mute),
    Bass(Bass),
    Treble(Treble),
    Loudness(Loudness),
    PlaybackState(PlaybackState),
    Position(Position),
    CurrentTrack(CurrentTrack),
    GroupMembership(GroupMembership),
}

impl View for PropertyChange {
    type V = PropertyValueView;

    open spec fn view(&self) -> PropertyValueView {
        match self {
            PropertyChange::Volume(v) => PropertyValueView::Volume(*v),
            PropertyChange::Mute(v) => PropertyValueView::Mute(*v),
            PropertyChange::Bass(v) => PropertyValueView::Bass(*v),
            PropertyChange::Treble(v) => PropertyValueView::Treble(*v),
            PropertyChange::Loudness(v) => PropertyValueView::Loudness(*v),
            PropertyChange::PlaybackState(v) => PropertyValueView::PlaybackState(*v),
            PropertyChange::Position(v) => PropertyValueView::Position(*v),
            PropertyChange::CurrentTrack(v) => PropertyValueView::CurrentTrack(v@),
            PropertyChange::GroupMembership(v) => PropertyValueView::GroupMembership(v@),
        }
    }
}

impl ViewEq for PropertyChange {
    fn view_eq(&self, other: &Self) -> (r: bool) {
        match (self, other) {
            (PropertyChange::Volume(a), PropertyChange::Volume(b)) => a.view_eq(b),
            (PropertyChange::Mute(a), PropertyChange::Mute(b)) => a.view_eq(b),
            (PropertyChange::Bass(a), PropertyChange::Bass(b)) => a.view_eq(b),
            (PropertyChange::Treble(a), PropertyChange::Treble(b)) => a.view_eq(b),
            (PropertyChange::Loudness(a), PropertyChange::Loudness(b)) => a.view_eq(b),
            (PropertyChange::PlaybackState(a), PropertyChange::PlaybackState(b)) => a.view_eq(b),
            (PropertyChange::Position(a), PropertyChange::Position(b)) => a.view_eq(b),
            (PropertyChange::CurrentTrack(a), PropertyChange::CurrentTrack(b)) => a.view_eq(b),
            (PropertyChange::GroupMembership(a), PropertyChange::GroupMembership(b)) => a.view_eq(b),
            _ => false,
        }
    }

    fn view_clone(&self) -> (r: Self) {
        match self {
            PropertyChange::Volume(a) => PropertyChange::Volume(*a),
            PropertyChange::Mute(a) => PropertyChange::Mute(*a),
            PropertyChange::Bass(a) => PropertyChange::Bass(*a),
            PropertyChange::Treble(a) => PropertyChange::Treble(*a),
            PropertyChange::Loudness(a) => PropertyChange::Loudness(*a),
            PropertyChange::PlaybackState(a) => PropertyChange::PlaybackState(*a),
            PropertyChange::Position(a) => PropertyChange::Position(*a),
            PropertyChange::CurrentTrack(a) => PropertyChange::CurrentTrack(a.view_clone()),
            PropertyChange::GroupMembership(a) => PropertyChange::GroupMembership(a.view_clone()),
        }
    }
}

impl Clone for PropertyChange {
    fn clone(&self) -> (r: Self)
        ensures
            r@ == self@,
    {
        self.view_clone()
    }
}

impl PartialEq for PropertyChange {
    fn eq(&self, other: &Self) -> (r: bool) {
        self.view_eq(other)
    }
}

impl vstd::std_specs::cmp::PartialEqSpecImpl for PropertyChange {
    open spec fn obeys_eq_spec() -> bool {
        true
    }

    open spec fn eq_spec(&self, other: &PropertyChange) -> bool {
        self@ == other@
    }
}

impl PropertyChange {
    /// The kind of property this change is for.
    pub fn kind(&self) -> (r: PropertyKind)
        ensures
            r == self@.kind(),
    {
        match self {
            PropertyChange::Volume(_) => PropertyKind::Volume,
            PropertyChange::Mute(_) => PropertyKind::Mute,
            PropertyChange::Bass(_) => PropertyKind::Bass,
            PropertyChange::Treble(_) => PropertyKind::Treble,
            PropertyChange::Loudness(_) => PropertyKind::Loudness,
            PropertyChange::PlaybackState(_) => PropertyKind::PlaybackState,
            PropertyChange::Position(_) => PropertyKind::Position,
            PropertyChange::CurrentTrack(_) => PropertyKind::CurrentTrack,
            PropertyChange::GroupMembership(_) => PropertyKind::GroupMembership,
        }
    }

    /// The property key for this change.
    pub fn key(&self) -> (r: &'static str)
        ensures
            r@ == self@.kind().key_spec(),
    {
        self.kind().key()
    }

    /// The service this property belongs to.
    pub fn service(&self) -> (r: Service)
        ensures
            r == self@.kind().service_spec(),
    {
        self.kind().service()
    }

    /// The scope of this property.
    pub fn scope(&self) -> (r: Scope)
        ensures
            r == self@.kind().scope_spec(),
    {
        self.kind().scope()
    }

    /// The value this change stores.
    pub fn to_value(&self) -> (r: PropertyValue)
        ensures
            r@ == self@,
    {
        match self {
            PropertyChange::Volume(a) => PropertyValue::Volume(*a),
            PropertyChange::Mute(a) => PropertyValue::Mute(*a),
            PropertyChange::Bass(a) => PropertyValue::Bass(*a),
            PropertyChange::Treble(a) => PropertyValue::Treble(*a),
            PropertyChange::Loudness(a) => PropertyValue::Loudness(*a),
            PropertyChange::PlaybackState(a) => PropertyValue::PlaybackState(*a),
            PropertyChange::Position(a) => PropertyValue::Position(*a),
            PropertyChange::CurrentTrack(a) => PropertyValue::CurrentTrack(a.view_clone()),
            PropertyChange::GroupMembership(a) => PropertyValue::GroupMembership(a.view_clone()),
        }
    }

    /// The change that carries a stored value, if the value's kind can be
    /// carried by a change (every kind but the system topology).
    pub fn from_value(v: &PropertyValue) -> (r: Option<PropertyChange>)
        ensures
            r is Some == (v@.kind() != PropertyKind::Topology),
            r matches Some(c) ==> c@ == v@,
    {
        match v {
            PropertyValue::Volume(a) => Some(PropertyChange::Volume(*a)),
            PropertyValue::Mute(a) => Some(PropertyChange::Mute(*a)),
            PropertyValue::Bass(a) => Some(PropertyChange::Bass(*a)),
            PropertyValue::Treble(a) => Some(PropertyChange::Treble(*a)),
            PropertyValue::Loudness(a) => Some(PropertyChange::Loudness(*a)),
            PropertyValue::PlaybackState(a) => Some(PropertyChange::PlaybackState(*a)),
            PropertyValue::Position(a) => Some(PropertyChange::Position(*a)),
            PropertyValue::CurrentTrack(a) => Some(PropertyChange::CurrentTrack(a.view_clone())),
            PropertyValue::GroupMembership(a) => Some(
                PropertyChange::GroupMembership(a.view_clone()),
            ),
            PropertyValue::Topology(_) => None,
        }
    }
}

/// Decoded changes from a single event.
#[derive(Debug)]
pub struct DecodedChanges {
    /// Speaker ID the changes apply to
    pub speaker_id: SpeakerId,
    /// List of property changes
    pub changes: Vec<PropertyChange>,
}

/// Changes extracted from a ZoneGroupTopology event.
#[derive(Debug)]
pub struct TopologyChanges {
    /// Updated group information
    pub groups: Vec<GroupInfo>,
    /// Updated speaker memberships
    pub memberships: Vec<(SpeakerId, GroupMembership)>,
    /// Boot sequence numbers per speaker
    pub boot_seqs: Vec<(SpeakerId, u32)>,
    /// Speaker addresses reported by the topology
    pub speaker_ips: Vec<(SpeakerId, IpAddr)>,
    /// Satellite (invisible) speakers
    pub satellite_ids: Vec<SpeakerId>,
}

/// The abstract content of [`TopologyChanges`].
pub struct TopologyChangesView {
    pub groups: Seq<GroupInfoView>,
    pub memberships: Seq<(Seq<char>, GroupMembershipView)>,
    pub boot_seqs: Seq<(Seq<char>, u32)>,
    pub speaker_ips: Seq<(Seq<char>, IpAddr)>,
    pub satellite_ids: Seq<Seq<char>>,
}

impl View for TopologyChanges {
    type V = TopologyChangesView;

    open spec fn view(&self) -> TopologyChangesView {
        TopologyChangesView {
            groups: seq_view(self.groups@),
            memberships: membership_list_view(self.memberships@),
            boot_seqs: self.boot_seqs@.map_values(|p: (SpeakerId, u32)| (p.0@, p.1)),
            speaker_ips: self.speaker_ips@.map_values(|p: (SpeakerId, IpAddr)| (p.0@, p.1)),
            satellite_ids: seq_view(self.satellite_ids@),
        }
    }
}

// ---------------------------------------------------------------------------
// RenderingControl
// ---------------------------------------------------------------------------

/// Whether a UPnP boolean variable reads as true: "1", or "true" in any
/// ASCII case.
pub open spec fn upnp_true(s: Seq<char>) -> bool {
    s == seq!['1'] || eq_ignore_ascii_case_spec(s, seq!['t', 'r', 'u', 'e'])
}

/// Reads a UPnP boolean variable.
pub fn parse_upnp_bool(s: &str) -> (r: bool)
    ensures
        r == upnp_true(s@),
{
    let v = chars_of(s);
    let one: Vec<char> = vec!['1'];
    let t: Vec<char> = vec!['t', 'r', 'u', 'e'];
    assert(one@ =~= seq!['1']);
    assert(t@ =~= seq!['t', 'r', 'u', 'e']);
    crate::text::chars_eq(&v, &one) || eq_ignore_ascii_case(&v, &t)
}

/// The change a volume variable yields, if it is a valid `u8`.
pub open spec fn volume_change(s: Option<String>) -> Seq<PropertyValueView> {
    match opt_str_view(s) {
        Some(t) => match parse_u8_spec(t) {
            Some(v) => seq![PropertyValueView::Volume(Volume(if v > 100 { 100u8 } else { v as u8 }))],
            None => Seq::empty(),
        },
        None => Seq::empty(),
    }
}

/// The change a boolean variable yields, wrapped by `mk`.
pub open spec fn mute_change(s: Option<String>) -> Seq<PropertyValueView> {
    match opt_str_view(s) {
        Some(t) => seq![PropertyValueView::Mute(Mute(upnp_true(t)))],
        None => Seq::empty(),
    }
}

pub open spec fn loudness_change(s: Option<String>) -> Seq<PropertyValueView> {
    match opt_str_view(s) {
        Some(t) => seq![PropertyValueView::Loudness(Loudness(upnp_true(t)))],
        None => Seq::empty(),
    }
}

pub open spec fn bass_change(s: Option<String>) -> Seq<PropertyValueView> {
    match opt_str_view(s) {
        Some(t) => match parse_i8_spec(t) {
            Some(v) => seq![PropertyValueView::Bass(Bass(eq_clamp(v as i8)))],
            None => Seq::empty(),
        },
        None => Seq::empty(),
    }
}

pub open spec fn treble_change(s: Option<String>) -> Seq<PropertyValueView> {
    match opt_str_view(s) {
        Some(t) => match parse_i8_spec(t) {
            Some(v) => seq![PropertyValueView::Treble(Treble(eq_clamp(v as i8)))],
            None => Seq::empty(),
        },
        None => Seq::empty(),
    }
}

/// The changes a RenderingControl event yields, in order: volume, mute,
/// bass, treble, loudness — each only when present (and, for the numeric
/// ones, parseable).
pub open spec fn rendering_changes_spec(e: RenderingControlEvent) -> Seq<PropertyValueView> {
    volume_change(e.master_volume) + mute_change(e.master_mute) + bass_change(e.bass)
        + treble_change(e.treble) + loudness_change(e.loudness)
}

/// The views of a vector of changes.
pub open spec fn changes_view(v: Seq<PropertyChange>) -> Seq<PropertyValueView> {
    v.map_values(|c: PropertyChange| c@)
}

/// Pushes a change, extending the view.
fn push_change(v: &mut Vec<PropertyChange>, c: PropertyChange)
    ensures
        changes_view(final(v)@) == changes_view(old(v)@).push(c@),
{
    v.push(c);
    assert(changes_view(v@) =~= changes_view(old(v)@).push(c@));
}

/// Decodes a RenderingControl event.
pub fn decode_rendering_control(event: &RenderingControlEvent) -> (r: Vec<PropertyChange>)
    ensures
        changes_view(r@) == rendering_changes_spec(*event),
{
    let mut changes: Vec<PropertyChange> = Vec::new();
    assert(changes_view(changes@) =~= Seq::<PropertyValueView>::empty());
    let ghost s0 = changes_view(changes@);
    if let Some(vol_str) = &event.master_volume {
        let v = chars_of(vol_str.as_str());
        if let Some(vol) = parse_u8(&v) {
            let capped = if vol > 100 {
                100u8
            } else {
                vol
            };
            push_change(&mut changes, PropertyChange::Volume(Volume(capped)));
        }
    }
    assert(changes_view(changes@) =~= volume_change(event.master_volume));
    let ghost s1 = changes_view(changes@);
    if let Some(mute_str) = &event.master_mute {
        let muted = parse_upnp_bool(mute_str.as_str());
        push_change(&mut changes, PropertyChange::Mute(Mute(muted)));
    }
    assert(changes_view(changes@) =~= s1 + mute_change(event.master_mute));
    let ghost s2 = changes_view(changes@);
    if let Some(bass_str) = &event.bass {
        let v = chars_of(bass_str.as_str());
        if let Some(b) = parse_i8(&v) {
            push_change(&mut changes, PropertyChange::Bass(Bass(crate::property::clamp_eq(b))));
        }
    }
    assert(changes_view(changes@) =~= s2 + bass_change(event.bass));
    let ghost s3 = changes_view(changes@);
    if let Some(treble_str) = &event.treble {
        let v = chars_of(treble_str.as_str());
        if let Some(t) = parse_i8(&v) {
            push_change(&mut changes, PropertyChange::Treble(Treble(crate::property::clamp_eq(t))));
        }
    }
    assert(changes_view(changes@) =~= s3 + treble_change(event.treble));
    let ghost s4 = changes_view(changes@);
    if let Some(l_str) = &event.loudness {
        let l = parse_upnp_bool(l_str.as_str());
        push_change(&mut changes, PropertyChange::Loudness(Loudness(l)));
    }
    assert(changes_view(changes@) =~= s4 + loudness_change(event.loudness));
    changes
}

// ---------------------------------------------------------------------------
// AVTransport
// ---------------------------------------------------------------------------

/// The playback state an upper-cased transport state reports in an event;
/// anything unrecognised reads as transitioning.
pub open spec fn event_playback_from_upper(upper: Seq<char>) -> PlaybackState {
    if upper == "PLAYING"@ {
        PlaybackState::Playing
    } else if upper == "PAUSED_PLAYBACK"@ || upper == "PAUSED"@ {
        PlaybackState::Paused
    } else if upper == "STOPPED"@ {
        PlaybackState::Stopped
    } else {
        PlaybackState::Transitioning
    }
}

/// The four transport states an event names, read from their upper-case
/// form: PLAYING is playing, PAUSED_PLAYBACK and PAUSED are paused, STOPPED
/// is stopped, and any other text is a transition.
pub proof fn lemma_event_playback_names(upper: Seq<char>)
    ensures
        upper == "PLAYING"@ ==> event_playback_from_upper(upper) == PlaybackState::Playing,
        upper == "PAUSED_PLAYBACK"@ ==> event_playback_from_upper(upper) == PlaybackState::Paused,
        upper == "PAUSED"@ ==> event_playback_from_upper(upper) == PlaybackState::Paused,
        upper == "STOPPED"@ ==> event_playback_from_upper(upper) == PlaybackState::Stopped,
        upper != "PLAYING"@ && upper != "PAUSED_PLAYBACK"@ && upper != "PAUSED"@ && upper != "STOPPED"@
            ==> event_playback_from_upper(upper) == PlaybackState::Transitioning,
{
    reveal_strlit("PLAYING");
    reveal_strlit("PAUSED_PLAYBACK");
    reveal_strlit("PAUSED");
    reveal_strlit("STOPPED");
    assert("PAUSED_PLAYBACK"@.len() != "PLAYING"@.len());
    assert("PAUSED"@.len() != "PLAYING"@.len());
    assert("STOPPED"@[0] != "PLAYING"@[0]);
    assert("STOPPED"@.len() != "PAUSED"@.len());
    assert("STOPPED"@.len() != "PAUSED_PLAYBACK"@.len());
}

/// Maps an upper-cased transport state from an event to a playback state.
pub fn event_playback_state(upper: &str) -> (r: PlaybackState)
    ensures
        r == event_playback_from_upper(upper@),
        upper@ == "PLAYING"@ ==> r == PlaybackState::Playing,
        upper@ == "PAUSED_PLAYBACK"@ || upper@ == "PAUSED"@ ==> r == PlaybackState::Paused,
        upper@ == "STOPPED"@ ==> r == PlaybackState::Stopped,
{
    proof {
        lemma_event_playback_names(upper@);
    }
    let u = chars_of(upper);
    if chars_eq_str(&u, "PLAYING") {
        PlaybackState::Playing
    } else if chars_eq_str(&u, "PAUSED_PLAYBACK") || chars_eq_str(&u, "PAUSED") {
        PlaybackState::Paused
    } else if chars_eq_str(&u, "STOPPED") {
        PlaybackState::Stopped
    } else {
        PlaybackState::Transitioning
    }
}

/// The milliseconds an optional duration string denotes, as
/// `parse_duration_ms` reads it.
pub open spec fn duration_ms_spec(d: Option<Seq<char>>) -> Option<int> {
    match d {
        Some(s) => time_ms_spec(s),
        None => None,
    }
}

/// Whether an optional duration string's value fits in a `u64`.
pub open spec fn duration_fits(d: Option<Seq<char>>) -> bool {
    match d {
        Some(s) => time_fits(s),
        None => true,
    }
}

/// Parses a duration string (`H:MM:SS` or `H:MM:SS.mmm`) to milliseconds.
///
/// "NOT_IMPLEMENTED", the empty string and anything else that is not three
/// colon-separated numbers give `None`.
pub fn parse_duration_ms(duration: Option<&str>) -> (r: Option<u64>)
    requires
        match duration {
            Some(s) => time_fits(s@),
            None => true,
        },
    ensures
        r matches Some(ms) ==> duration_ms_spec(match duration {
            Some(s) => Some(s@),
            None => None,
        }) == Some(ms as int),
        r is None ==> duration_ms_spec(match duration {
            Some(s) => Some(s@),
            None => None,
        }) is None,
{
    match duration {
        None => None,
        Some(d) => {
            let v = chars_of(d);
            parse_time_chars(&v)
        },
    }
}

/// The metadata `parse_track_metadata` reads: present, non-empty and not
/// "NOT_IMPLEMENTED".
pub open spec fn usable_metadata(m: Option<Seq<char>>) -> bool {
    match m {
        Some(s) => s.len() > 0 && s != "NOT_IMPLEMENTED"@,
        None => false,
    }
}

/// Title, artist, album and album art read from DIDL-Lite metadata.
pub open spec fn track_metadata_spec(m: Option<Seq<char>>) -> (
    Option<Seq<char>>,
    Option<Seq<char>>,
    Option<Seq<char>>,
    Option<Seq<char>>,
) {
    if !usable_metadata(m) {
        (None, None, None, None)
    } else {
        let xml = m->0;
        let artist = match extract_element_spec(xml, "dc:creator"@) {
            Some(a) => Some(a),
            None => extract_element_spec(xml, "r:albumArtist"@),
        };
        (
            extract_element_spec(xml, "dc:title"@),
            artist,
            extract_element_spec(xml, "upnp:album"@),
            extract_element_spec(xml, "upnp:albumArtURI"@),
        )
    }
}

/// Parses DIDL-Lite track metadata into title, artist, album and album art.
pub fn parse_track_metadata(metadata: Option<&str>) -> (r: (
    Option<String>,
    Option<String>,
    Option<String>,
    Option<String>,
))
    ensures
        (opt_chars(r.0), opt_chars(r.1), opt_chars(r.2), opt_chars(r.3)) == track_metadata_spec(
            match metadata {
                Some(s) => Some(s@),
                None => None,
            },
        ),
{
    let xml = match metadata {
        Some(m) => {
            let v = chars_of(m);
            if v.len() == 0 || chars_eq_str(&v, "NOT_IMPLEMENTED") {
                return (None, None, None, None);
            }
            m
        },
        None => {
            return (None, None, None, None);
        },
    };
    let title = extract_xml_element(xml, "dc:title");
    let artist = match extract_xml_element(xml, "dc:creator") {
        Some(a) => Some(a),
        None => extract_xml_element(xml, "r:albumArtist"),
    };
    let album = extract_xml_element(xml, "upnp:album");
    let album_art_uri = extract_xml_element(xml, "upnp:albumArtURI");
    (title, artist, album, album_art_uri)
}

/// The times of an AVTransport event fit in a `u64` of milliseconds.
pub open spec fn av_times_fit(e: AVTransportEvent) -> bool {
    duration_fits(opt_str_view(e.rel_time)) && duration_fits(opt_str_view(e.track_duration))
}

/// Whether an AVTransport event's times fit (executable).
pub fn av_times_fit_exec(e: &AVTransportEvent) -> (r: bool)
    ensures
        r == av_times_fit(*e),
{
    let a = match &e.rel_time {
        Some(s) => crate::property::time_fits_exec(s.as_str()),
        None => true,
    };
    let b = match &e.track_duration {
        Some(s) => crate::property::time_fits_exec(s.as_str()),
        None => true,
    };
    a && b
}

/// The changes an AVTransport event yields, in order: playback state (if a
/// transport state is present), position (if a relative time or a duration
/// is present, each defaulting to 0 when unparseable), current track (if a
/// track URI or metadata is present).
pub open spec fn av_changes_spec(e: AVTransportEvent) -> Seq<PropertyValueView> {
    let ps = match opt_str_view(e.transport_state) {
        Some(s) => seq![PropertyValueView::PlaybackState(event_playback_from_upper(str_uppercase(s)))],
        None => Seq::empty(),
    };
    let pos = if e.rel_time is Some || e.track_duration is Some {
        let p = match duration_ms_spec(opt_str_view(e.rel_time)) {
            Some(v) => v,
            None => 0,
        };
        let d = match duration_ms_spec(opt_str_view(e.track_duration)) {
            Some(v) => v,
            None => 0,
        };
        seq![PropertyValueView::Position(Position { position_ms: p as u64, duration_ms: d as u64 })]
    } else {
        Seq::empty()
    };
    let track = if e.current_track_uri is Some || e.track_metadata is Some {
        let md = track_metadata_spec(opt_str_view(e.track_metadata));
        seq![
            PropertyValueView::CurrentTrack(
                CurrentTrackView {
                    title: md.0,
                    artist: md.1,
                    album: md.2,
                    album_art_uri: md.3,
                    uri: opt_str_view(e.current_track_uri),
                },
            ),
        ]
    } else {
        Seq::empty()
    };
    ps + pos + track
}

/// Decodes an AVTransport event.
pub fn decode_av_transport(event: &AVTransportEvent) -> (r: Vec<PropertyChange>)
    requires
        av_times_fit(*event),
    ensures
        changes_view(r@) == av_changes_spec(*event),
        match opt_str_view(event.transport_state) {
            Some(s) => all_ascii(s) ==> {
                &&& (ascii_upper(s) == "PAUSED_PLAYBACK"@ || ascii_upper(s) == "PAUSED"@) ==> changes_view(r@)[0]
                    == PropertyValueView::PlaybackState(PlaybackState::Paused)
                &&& ascii_upper(s) == "STOPPED"@ ==> changes_view(r@)[0] == PropertyValueView::PlaybackState(
                    PlaybackState::Stopped,
                )
                &&& ascii_upper(s) == "PLAYING"@ ==> changes_view(r@)[0] == PropertyValueView::PlaybackState(
                    PlaybackState::Playing,
                )
            },
            None => true,
        },
{
    let mut changes: Vec<PropertyChange> = Vec::new();
    assert(changes_view(changes@) =~= Seq::<PropertyValueView>::empty());
    if let Some(state) = &event.transport_state {
        let upper = to_uppercase_string(state.as_str());
        proof {
            lemma_event_playback_names(upper@);
        }
        let ps = event_playback_state(upper.as_str());
        push_change(&mut changes, PropertyChange::PlaybackState(ps));
    }
    let ghost s1 = changes_view(changes@);
    if event.rel_time.is_some() || event.track_duration.is_some() {
        let rel = match &event.rel_time {
            Some(s) => Some(s.as_str()),
            None => None,
        };
        let dur = match &event.track_duration {
            Some(s) => Some(s.as_str()),
            None => None,
        };
        let position_ms = match parse_duration_ms(rel) {
            Some(v) => v,
            None => 0,
        };
        let duration_ms = match parse_duration_ms(dur) {
            Some(v) => v,
            None => 0,
        };
        push_change(
            &mut changes,
            PropertyChange::Position(Position { position_ms, duration_ms }),
        );
    }
    let ghost s2 = changes_view(changes@);
    if event.current_track_uri.is_some() || event.track_metadata.is_some() {
        let md = match &event.track_metadata {
            Some(s) => Some(s.as_str()),
            None => None,
        };
        let (title, artist, album, album_art_uri) = parse_track_metadata(md);
        let uri = crate::viewed::opt_str_clone(&event.current_track_uri);
        push_change(
            &mut changes,
            PropertyChange::CurrentTrack(CurrentTrack { title, artist, album, album_art_uri, uri }),
        );
    }
    proof {
        let e = *event;
        let ps = match opt_str_view(e.transport_state) {
            Some(s) => seq![PropertyValueView::PlaybackState(event_playback_from_upper(str_uppercase(s)))],
            None => Seq::<PropertyValueView>::empty(),
        };
        assert(s1 =~= ps);
        assert(changes_view(changes@) =~= av_changes_spec(e));
    }
    changes
}

// ---------------------------------------------------------------------------
// Whole events
// ---------------------------------------------------------------------------

/// The changes an event's payload yields (topology payloads yield none here;
/// they are decoded by `decode_topology_event`).
pub open spec fn event_changes_spec(d: EventData) -> Seq<PropertyValueView> {
    match d {
        EventData::RenderingControlEvent(rc) => rendering_changes_spec(rc),
        EventData::AVTransportEvent(avt) => av_changes_spec(avt),
        _ => Seq::empty(),
    }
}

/// The payload's times fit in a `u64` of milliseconds.
pub open spec fn event_times_fit(d: EventData) -> bool {
    match d {
        EventData::AVTransportEvent(avt) => av_times_fit(avt),
        _ => true,
    }
}

/// Whether an event's times fit (executable).
pub fn event_times_fit_exec(d: &EventData) -> (r: bool)
    ensures
        r == event_times_fit(*d),
{
    match d {
        EventData::AVTransportEvent(avt) => av_times_fit_exec(avt),
        _ => true,
    }
}

/// Decodes an enriched event into typed property changes for `speaker_id`.
pub fn decode_event(event: &EnrichedEvent, speaker_id: SpeakerId) -> (r: DecodedChanges)
    requires
        event_times_fit(event.event_data),
    ensures
        r.speaker_id@ == speaker_id@,
        changes_view(r.changes@) == event_changes_spec(event.event_data),
{
    let changes = match &event.event_data {
        EventData::RenderingControlEvent(rc) => decode_rendering_control(rc),
        EventData::AVTransportEvent(avt) => decode_av_transport(avt),
        _ => {
            let v: Vec<PropertyChange> = Vec::new();
            assert(changes_view(v@) =~= Seq::<PropertyValueView>::empty());
            v
        },
    };
    DecodedChanges { speaker_id, changes }
}

// ---------------------------------------------------------------------------
// Topology
// ---------------------------------------------------------------------------

/// The group a zone group becomes.
pub open spec fn zone_group_info_spec(zg: ZoneGroupInfo) -> GroupInfoView {
    GroupInfoView {
        id: zg.id@,
        coordinator_id: normalize_speaker_id(zg.coordinator@),
        member_ids: zg.members@.map_values(|m: ZoneGroupMemberInfo| normalize_speaker_id(m.uuid@)),
    }
}

/// The memberships of one zone group's members, in member order.
pub open spec fn zone_group_memberships_spec(zg: ZoneGroupInfo) -> Seq<(Seq<char>, GroupMembershipView)> {
    zg.members@.map_values(
        |m: ZoneGroupMemberInfo|
            (
                normalize_speaker_id(m.uuid@),
                GroupMembershipView {
                    group_id: zg.id@,
                    is_coordinator: normalize_speaker_id(m.uuid@) == normalize_speaker_id(
                        zg.coordinator@,
                    ),
                },
            ),
    )
}

/// The memberships of the first `n` zone groups, group by group.
pub open spec fn memberships_spec(zgs: Seq<ZoneGroupInfo>, n: int) -> Seq<(Seq<char>, GroupMembershipView)>
    decreases n,
{
    if n <= 0 {
        Seq::empty()
    } else {
        memberships_spec(zgs, n - 1) + zone_group_memberships_spec(zgs[n - 1])
    }
}

/// The view of a membership list.
pub open spec fn membership_list_view(v: Seq<(SpeakerId, GroupMembership)>) -> Seq<(Seq<char>, GroupMembershipView)> {
    v.map_values(|p: (SpeakerId, GroupMembership)| (p.0@, p.1@))
}

/// The topology changes a ZoneGroupTopology event decodes to.
pub open spec fn topology_changes_spec(z: ZoneGroupTopologyEvent) -> TopologyChangesView {
    TopologyChangesView {
        groups: z.zone_groups@.map_values(|zg: ZoneGroupInfo| zone_group_info_spec(zg)),
        memberships: memberships_spec(z.zone_groups@, z.zone_groups@.len() as int),
        boot_seqs: Seq::empty(),
        speaker_ips: Seq::empty(),
        satellite_ids: Seq::empty(),
    }
}

/// Decodes a ZoneGroupTopology event: one group per zone group, one
/// membership per member (coordinator flagged), in event order.
pub fn decode_topology_event(event: &ZoneGroupTopologyEvent) -> (r: TopologyChanges)
    ensures
        seq_view(r.groups@) == event.zone_groups@.map_values(|zg: ZoneGroupInfo| zone_group_info_spec(zg)),
        membership_list_view(r.memberships@) == memberships_spec(event.zone_groups@, event.zone_groups@.len() as int),
        r.boot_seqs@.len() == 0,
        r.speaker_ips@.len() == 0,
        r.satellite_ids@.len() == 0,
        r@ == topology_changes_spec(*event),
{
    let mut groups: Vec<GroupInfo> = Vec::new();
    let mut memberships: Vec<(SpeakerId, GroupMembership)> = Vec::new();
    let mut g: usize = 0;
    while g < event.zone_groups.len()
        invariant
            g <= event.zone_groups.len(),
            groups@.len() == g,
            forall|j: int| 0 <= j < g ==> #[trigger] groups@[j]@ == zone_group_info_spec(event.zone_groups@[j]),
            membership_list_view(memberships@) == memberships_spec(event.zone_groups@, g as int),
        decreases event.zone_groups.len() - g,
    {
        let zone_group = &event.zone_groups[g];
        let group_id = GroupId::new(zone_group.id.as_str());
        let coordinator_id = SpeakerId::new(zone_group.coordinator.as_str());
        let mut member_ids: Vec<SpeakerId> = Vec::new();
        let ghost before = membership_list_view(memberships@);
        let mut k: usize = 0;
        while k < zone_group.members.len()
            invariant
                k <= zone_group.members.len(),
                member_ids@.len() == k,
                group_id@ == zone_group.id@,
                coordinator_id@ == normalize_speaker_id(zone_group.coordinator@),
                forall|j: int| 0 <= j < k ==> #[trigger] member_ids@[j]@ == normalize_speaker_id(zone_group.members@[j].uuid@),
                membership_list_view(memberships@) == before + zone_group_memberships_spec(*zone_group).take(k as int),
            decreases zone_group.members.len() - k,
        {
            let member = &zone_group.members[k];
            let speaker_id = SpeakerId::new(member.uuid.as_str());
            let is_coordinator = speaker_id.same(&coordinator_id);
            member_ids.push(speaker_id.view_clone());
            let membership = GroupMembership::new(group_id.view_clone(), is_coordinator);
            let ghost mbefore = membership_list_view(memberships@);
            memberships.push((speaker_id, membership));
            proof {
                assert(membership_list_view(memberships@) =~= mbefore.push(zone_group_memberships_spec(*zone_group)[k as int]));
                assert(zone_group_memberships_spec(*zone_group).take(k + 1) =~= zone_group_memberships_spec(*zone_group).take(k as int).push(zone_group_memberships_spec(*zone_group)[k as int]));
            }
            k = k + 1;
        }
        proof {
            assert(zone_group_memberships_spec(*zone_group).take(zone_group.members@.len() as int) =~= zone_group_memberships_spec(*zone_group));
            assert(memberships_spec(event.zone_groups@, g + 1) == memberships_spec(event.zone_groups@, g as int) + zone_group_memberships_spec(event.zone_groups@[g as int]));
        }
        let info = GroupInfo::new(group_id, coordinator_id, member_ids);
        proof {
            assert(info@.member_ids =~= zone_group.members@.map_values(|m: ZoneGroupMemberInfo| normalize_speaker_id(m.uuid@)));
        }
        groups.push(info);
        g = g + 1;
    }
    proof {
        assert(seq_view(groups@) =~= event.zone_groups@.map_values(|zg: ZoneGroupInfo| zone_group_info_spec(zg)));
    }
    let r = TopologyChanges {
        groups,
        memberships,
        boot_seqs: Vec::new(),
        speaker_ips: Vec::new(),
        satellite_ids: Vec::new(),
    };
    proof {
        assert(r@.boot_seqs =~= Seq::<(Seq<char>, u32)>::empty());
        assert(r@.speaker_ips =~= Seq::<(Seq<char>, IpAddr)>::empty());
        assert(r@.satellite_ids =~= Seq::<Seq<char>>::empty());
    }
    r
}

} // verus!
