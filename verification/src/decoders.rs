//! Event decoders for the observable store: each turns the events of one UPnP
//! service into a list of store updates, described for logging, that a caller
//! applies in order.

use vstd::prelude::*;
use crate::ids::{normalize_speaker_id, GroupId, SpeakerId};
use crate::net::IpAddr;
use crate::property::{
    eq_clamp, playback_from_upper, str_uppercase, time_fits, time_ms_spec, track_display_spec,
    Bass, CurrentTrack, CurrentTrackView, GroupInfo, GroupInfoView, GroupMembership,
    GroupMembershipView, Loudness, Mute, PlaybackState, Position, Service, Topology, TopologyView, Treble,
    Volume,
};
use crate::reactive_store::{
    add_group_spec, add_speaker_spec, remove_speaker_spec, set_speaker_spec, set_system_spec,
    StateStore, StateStoreView,
};
use crate::speaker::{Speaker, SpeakerView};
use crate::stamp::clock_now;
use crate::text::{
    chars_of, concat_str, decimal_digits, find_chars, find_spec, has_prefix, lemma_find_bounds,
    parse_i8, parse_i8_spec, parse_u8, parse_u8_spec, slice_chars, starts_with, str_eq, string_of,
    u64_to_chars,
};
use crate::net::{parse_ip_addr, parse_ip_spec};
use crate::value::{PropertyValue, PropertyValueView};
use crate::viewed::{opt_str_clone, opt_str_view, seq_view, ViewEq};
use crate::xml::{extract_value_spec, extract_xml_value};
use crate::decoder::{AVTransportEvent, EnrichedEvent, EventData as StreamEventData, RenderingControlEvent};
use crate::init::metadata_value;
use crate::processor::{didl_artist_spec, parse_didl_artist};

verus! {

// ---------------------------------------------------------------------------
// Event payloads
// ---------------------------------------------------------------------------

/// RenderingControl values of an event, already parsed.
#[derive(Debug, Clone, Copy)]
pub struct RenderingControlData {
    pub master_volume: Option<u8>,
    pub master_mute: Option<bool>,
    pub lf_volume: Option<u8>,
    pub rf_volume: Option<u8>,
    pub bass: Option<i8>,
    pub treble: Option<i8>,
    pub loudness: Option<bool>,
}

impl RenderingControlData {
    /// Data with no value set.
    pub fn new() -> (r: RenderingControlData)
        ensures
            r == (RenderingControlData {
                master_volume: None,
                master_mute: None,
                lf_volume: None,
                rf_volume: None,
                bass: None,
                treble: None,
                loudness: None,
            }),
    {
        RenderingControlData {
            master_volume: None,
            master_mute: None,
            lf_volume: None,
            rf_volume: None,
            bass: None,
            treble: None,
            loudness: None,
        }
    }

    /// The same data with the master volume set.
    pub fn with_volume(self, volume: u8) -> (r: RenderingControlData)
        ensures
            r == (RenderingControlData { master_volume: Some(volume), ..self }),
    {
        RenderingControlData { master_volume: Some(volume), ..self }
    }
}

/// AVTransport values of an event, as text.
#[derive(Debug, Clone)]
pub struct AVTransportData {
    pub transport_state: Option<String>,
    pub current_track_uri: Option<String>,
    pub track_duration: Option<String>,
    pub rel_time: Option<String>,
    pub track_metadata: Option<String>,
    pub play_mode: Option<String>,
    pub next_track_uri: Option<String>,
    pub next_track_metadata: Option<String>,
}

/// Whether the data says anything about the current track.
pub open spec fn has_track_info_spec(d: AVTransportData) -> bool {
    d.current_track_uri is Some || d.track_metadata is Some
}

impl AVTransportData {
    /// Data with no value set.
    pub fn new() -> (r: AVTransportData)
        ensures
            r.transport_state is None,
            r.current_track_uri is None,
            r.track_duration is None,
            r.rel_time is None,
            r.track_metadata is None,
            r.play_mode is None,
            r.next_track_uri is None,
            r.next_track_metadata is None,
    {
        AVTransportData {
            transport_state: None,
            current_track_uri: None,
            track_duration: None,
            rel_time: None,
            track_metadata: None,
            play_mode: None,
            next_track_uri: None,
            next_track_metadata: None,
        }
    }

    /// The same data with the transport state set.
    pub fn with_transport_state(self, state: &str) -> (r: AVTransportData)
        ensures
            opt_str_view(r.transport_state) == Some(state@),
            r.current_track_uri == self.current_track_uri,
            r.track_duration == self.track_duration,
            r.rel_time == self.rel_time,
            r.track_metadata == self.track_metadata,
            r.play_mode == self.play_mode,
            r.next_track_uri == self.next_track_uri,
            r.next_track_metadata == self.next_track_metadata,
    {
        AVTransportData { transport_state: Some(string_of(&chars_of(state))), ..self }
    }

    /// Whether the data says anything about the current track: its URI or
    /// its metadata.
    pub fn has_track_info(&self) -> (r: bool)
        ensures
            r == has_track_info_spec(*self),
    {
        self.current_track_uri.is_some() || self.track_metadata.is_some()
    }
}

/// DeviceProperties values of an event.
#[derive(Debug, Clone)]
pub struct DevicePropertiesData {
    pub zone_name: Option<String>,
    pub icon: Option<String>,
    pub invisible: Option<bool>,
}

/// One member of a zone group.
#[derive(Debug, Clone)]
pub struct ZoneMemberData {
    pub uuid: String,
    pub location: String,
    pub zone_name: String,
    pub software_version: String,
    pub ip_address: Option<IpAddr>,
    pub satellites: Vec<String>,
}

/// One zone group: its id, its coordinator's UUID and its members.
#[derive(Debug, Clone)]
pub struct ZoneGroupData {
    pub id: String,
    pub coordinator: String,
    pub members: Vec<ZoneMemberData>,
}

/// ZoneGroupTopology values of an event.
#[derive(Debug, Clone)]
pub struct TopologyData {
    pub zone_groups: Vec<ZoneGroupData>,
    pub vanished_devices: Vec<String>,
}

/// The payload of an event, by service.
#[derive(Debug, Clone)]
pub enum EventData {
    RenderingControl(RenderingControlData),
    AVTransport(AVTransportData),
    ZoneGroupTopology(TopologyData),
    DeviceProperties(DevicePropertiesData),
}

/// An event from a speaker, identified by the speaker's address.
#[derive(Debug, Clone)]
pub struct RawEvent {
    pub speaker_ip: IpAddr,
    pub service: Service,
    /// When the event was received (clock ticks).
    pub timestamp: u64,
    pub data: EventData,
}

impl RawEvent {
    /// An event received now.
    pub fn new(speaker_ip: IpAddr, service: Service, data: EventData) -> (r: RawEvent)
        ensures
            r.speaker_ip == speaker_ip,
            r.service == service,
            r.data == data,
    {
        RawEvent { speaker_ip, service, timestamp: clock_now(), data }
    }
}

// ---------------------------------------------------------------------------
// Updates
// ---------------------------------------------------------------------------

/// A change to make to the store.
#[derive(Debug)]
pub enum StoreUpdate {
    SetSpeaker(SpeakerId, PropertyValue),
    SetSystem(PropertyValue),
    AddSpeaker(Speaker),
    AddGroup(GroupInfo),
    RemoveSpeaker(SpeakerId),
}

/// The abstract content of a [`StoreUpdate`].
pub enum StoreUpdateView {
    SetSpeaker(Seq<char>, PropertyValueView),
    SetSystem(PropertyValueView),
    AddSpeaker(SpeakerView),
    AddGroup(GroupInfoView),
    RemoveSpeaker(Seq<char>),
}

impl View for StoreUpdate {
    type V = StoreUpdateView;

    open spec fn view(&self) -> StoreUpdateView {
        match self {
            StoreUpdate::SetSpeaker(id, v) => StoreUpdateView::SetSpeaker(id@, v@),
            StoreUpdate::SetSystem(v) => StoreUpdateView::SetSystem(v@),
            StoreUpdate::AddSpeaker(s) => StoreUpdateView::AddSpeaker(s@),
            StoreUpdate::AddGroup(g) => StoreUpdateView::AddGroup(g@),
            StoreUpdate::RemoveSpeaker(id) => StoreUpdateView::RemoveSpeaker(id@),
        }
    }
}

/// The store after one update.
pub open spec fn apply_update_spec(s: StateStoreView, u: StoreUpdateView) -> StateStoreView {
    match u {
        StoreUpdateView::SetSpeaker(id, v) => set_speaker_spec(s, id, v),
        StoreUpdateView::SetSystem(v) => set_system_spec(s, v),
        StoreUpdateView::AddSpeaker(sp) => add_speaker_spec(s, sp),
        StoreUpdateView::AddGroup(g) => add_group_spec(s, g),
        StoreUpdateView::RemoveSpeaker(id) => remove_speaker_spec(s, id),
    }
}

/// A described store update, from the service whose event produced it.
#[derive(Debug)]
pub struct PropertyUpdate {
    pub description: String,
    pub service: Service,
    pub update: StoreUpdate,
}

/// The abstract content of a [`PropertyUpdate`].
pub struct PropertyUpdateView {
    pub description: Seq<char>,
    pub service: Service,
    pub update: StoreUpdateView,
}

impl View for PropertyUpdate {
    type V = PropertyUpdateView;

    open spec fn view(&self) -> PropertyUpdateView {
        PropertyUpdateView { description: self.description@, service: self.service, update: self.update@ }
    }
}

/// The store after applying `us` in order.
pub open spec fn apply_all_spec(s: StateStoreView, us: Seq<PropertyUpdateView>) -> StateStoreView
    decreases us.len(),
{
    if us.len() == 0 {
        s
    } else {
        apply_update_spec(apply_all_spec(s, us.drop_last()), us.last().update)
    }
}

impl PropertyUpdate {
    /// An update with its description and the service it comes from.
    pub fn new(description: String, service: Service, update: StoreUpdate) -> (r: PropertyUpdate)
        ensures
            r@ == (PropertyUpdateView { description: description@, service, update: update@ }),
    {
        PropertyUpdate { description, service, update }
    }

    /// Makes the change in `store`.
    pub fn apply(self, store: &mut StateStore)
        requires
            old(store).wf(),
        ensures
            final(store).wf(),
            final(store)@ == apply_update_spec(old(store)@, self@.update),
    {
        match self.update {
            StoreUpdate::SetSpeaker(id, v) => store.set_value(&id, v),
            StoreUpdate::SetSystem(v) => store.set_system_value(v),
            StoreUpdate::AddSpeaker(s) => store.add_speaker(s),
            StoreUpdate::AddGroup(g) => store.add_group(g),
            StoreUpdate::RemoveSpeaker(id) => store.remove_speaker(&id),
        }
    }
}

/// Applies `updates` to `store` in order.
pub fn apply_all(updates: Vec<PropertyUpdate>, store: &mut StateStore)
    requires
        old(store).wf(),
    ensures
        final(store).wf(),
        final(store)@ == apply_all_spec(old(store)@, seq_view(updates@)),
{
    let ghost us = seq_view(updates@);
    let ghost s0 = store@;
    let mut rest = updates;
    let ghost mut k: int = 0;
    while rest.len() > 0
        invariant
            store.wf(),
            0 <= k <= us.len(),
            seq_view(rest@) == us.skip(k),
            store@ == apply_all_spec(s0, us.take(k)),
        decreases rest.len(),
    {
        let ghost r0 = rest@;
        let u = rest.remove(0);
        proof {
            assert(seq_view(r0).len() == r0.len());
            assert(k + 1 <= us.len());
            assert(seq_view(r0)[0] == us.skip(k)[0]);
            assert(u@ == us.skip(k)[0]);
            assert forall|i: int| 0 <= i < rest@.len() implies seq_view(rest@)[i] == us.skip(k + 1)[i] by {
                assert(rest@[i] == r0[i + 1]);
                assert(seq_view(r0).len() == us.len() - k);
                assert(seq_view(r0)[i + 1] == us.skip(k)[i + 1]);
                assert(us.skip(k)[i + 1] == us[k + i + 1]);
                assert(us.skip(k + 1)[i] == us[k + 1 + i]);
            }
            assert(seq_view(rest@) =~= us.skip(k + 1));
            assert(us.take(k + 1).drop_last() =~= us.take(k));
            k = k + 1;
        }
        u.apply(store);
    }
    assert(us.take(k) =~= us);
}

// ---------------------------------------------------------------------------
// Description text
// ---------------------------------------------------------------------------

/// "Set <id> <what> to <value>".
pub open spec fn set_text(id: Seq<char>, what: Seq<char>, value: Seq<char>) -> Seq<char> {
    "Set "@ + id + " "@ + what + " to "@ + value
}

/// The decimal text of an integer, with a leading `-` when negative.
pub open spec fn int_text(n: int) -> Seq<char> {
    if n < 0 {
        "-"@ + decimal_digits((-n) as nat)
    } else {
        decimal_digits(n as nat)
    }
}

/// The text of a boolean.
pub open spec fn bool_text(b: bool) -> Seq<char> {
    if b {
        "true"@
    } else {
        "false"@
    }
}

/// The debug name of a playback state.
pub open spec fn playback_text(p: PlaybackState) -> Seq<char> {
    match p {
        PlaybackState::Playing => "Playing"@,
        PlaybackState::Paused => "Paused"@,
        PlaybackState::Stopped => "Stopped"@,
        PlaybackState::Transitioning => "Transitioning"@,
    }
}

fn cat3(a: &str, b: &str, c: &str) -> (r: String)
    ensures
        r@ == a@ + b@ + c@,
{
    let ab = concat_str(a, b);
    concat_str(ab.as_str(), c)
}

fn set_text_exec(id: &str, what: &str, value: &str) -> (r: String)
    ensures
        r@ == set_text(id@, what@, value@),
{
    proof {
        reveal_strlit("Set ");
        reveal_strlit(" ");
        reveal_strlit(" to ");
    }
    let a = cat3("Set ", id, " ");
    let b = cat3(a.as_str(), what, " to ");
    let r = concat_str(b.as_str(), value);
    assert(r@ =~= set_text(id@, what@, value@));
    r
}

fn u64_text(n: u64) -> (r: String)
    ensures
        r@ == decimal_digits(n as nat),
{
    string_of(&u64_to_chars(n))
}

fn i8_text(v: i8) -> (r: String)
    ensures
        r@ == int_text(v as int),
{
    if v < 0 {
        let m: u64 = (0i16 - v as i16) as u64;
        let d = u64_text(m);
        proof {
            reveal_strlit("-");
        }
        concat_str("-", d.as_str())
    } else {
        u64_text(v as u64)
    }
}

fn bool_text_exec(b: bool) -> (r: String)
    ensures
        r@ == bool_text(b),
{
    if b {
        string_of(&chars_of("true"))
    } else {
        string_of(&chars_of("false"))
    }
}

fn playback_text_exec(p: PlaybackState) -> (r: String)
    ensures
        r@ == playback_text(p),
{
    let s = match p {
        PlaybackState::Playing => "Playing",
        PlaybackState::Paused => "Paused",
        PlaybackState::Stopped => "Stopped",
        PlaybackState::Transitioning => "Transitioning",
    };
    string_of(&chars_of(s))
}

// ---------------------------------------------------------------------------
// RenderingControl
// ---------------------------------------------------------------------------

/// An update setting a speaker value, described as "Set <id> <what> to <text>".
pub open spec fn speaker_update(
    id: Seq<char>,
    what: Seq<char>,
    text: Seq<char>,
    service: Service,
    v: PropertyValueView,
) -> PropertyUpdateView {
    PropertyUpdateView {
        description: set_text(id, what, text),
        service,
        update: StoreUpdateView::SetSpeaker(id, v),
    }
}

/// One element when `o` holds a value, none otherwise.
pub open spec fn when_some<T>(o: Option<T>, f: spec_fn(T) -> PropertyUpdateView) -> Seq<PropertyUpdateView> {
    match o {
        Some(x) => seq![f(x)],
        None => Seq::empty(),
    }
}

/// The updates a RenderingControl payload makes for speaker `id`: volume,
/// mute, bass, treble and loudness, each when present, in that order.
pub open spec fn rendering_updates(id: Seq<char>, d: RenderingControlData) -> Seq<PropertyUpdateView> {
    let rc = Service::RenderingControl;
    when_some(
        d.master_volume,
        |v: u8|
            speaker_update(
                id,
                "volume"@,
                decimal_digits(v as nat),
                rc,
                PropertyValueView::Volume(Volume(if v > 100 { 100u8 } else { v })),
            ),
    ) + when_some(
        d.master_mute,
        |m: bool| speaker_update(id, "mute"@, bool_text(m), rc, PropertyValueView::Mute(Mute(m))),
    ) + when_some(
        d.bass,
        |b: i8|
            speaker_update(id, "bass"@, int_text(b as int), rc, PropertyValueView::Bass(Bass(eq_clamp(b)))),
    ) + when_some(
        d.treble,
        |t: i8|
            speaker_update(
                id,
                "treble"@,
                int_text(t as int),
                rc,
                PropertyValueView::Treble(Treble(eq_clamp(t))),
            ),
    ) + when_some(
        d.loudness,
        |l: bool| speaker_update(id, "loudness"@, bool_text(l), rc, PropertyValueView::Loudness(Loudness(l))),
    )
}

/// The speaker an event comes from, if its address is known.
pub open spec fn sender_of(s: StateStoreView, ip: IpAddr) -> Option<Seq<char>> {
    if s.ip_to_speaker.contains_key(ip) {
        Some(s.ip_to_speaker[ip])
    } else {
        None
    }
}

/// What the RenderingControl decoder makes of an event: nothing for another
/// payload or an unknown sender.
pub open spec fn rendering_decode_spec(e: RawEvent, s: StateStoreView) -> Seq<PropertyUpdateView> {
    match e.data {
        EventData::RenderingControl(d) => match sender_of(s, e.speaker_ip) {
            Some(id) => rendering_updates(id, d),
            None => Seq::empty(),
        },
        _ => Seq::empty(),
    }
}

/// Appends `u` to `out`, tracking the views.
fn push_update(out: &mut Vec<PropertyUpdate>, u: PropertyUpdate)
    ensures
        seq_view(final(out)@) == seq_view(old(out)@).push(u@),
{
    let ghost before = out@;
    out.push(u);
    assert(seq_view(out@) =~= seq_view(before).push(u@));
}

/// Decodes volume, mute and EQ settings.
#[derive(Debug, Clone, Copy)]
pub struct RenderingControlDecoder;

impl RenderingControlDecoder {
    /// The services this decoder reads.
    pub fn services(&self) -> (r: Vec<Service>)
        ensures
            r@ == seq![Service::RenderingControl],
    {
        let mut v: Vec<Service> = Vec::new();
        v.push(Service::RenderingControl);
        assert(v@ =~= seq![Service::RenderingControl]);
        v
    }

    /// The decoder's name.
    pub fn name(&self) -> (r: &'static str)
        ensures
            r@ == "RenderingControlDecoder"@,
    {
        "RenderingControlDecoder"
    }

    /// The updates a RenderingControl event makes for the speaker that sent
    /// it.
    pub fn decode(&self, event: &RawEvent, store: &StateStore) -> (r: Vec<PropertyUpdate>)
        requires
            store.wf(),
        ensures
            seq_view(r@) == rendering_decode_spec(*event, store@),
    {
        let mut out: Vec<PropertyUpdate> = Vec::new();
        let d = match &event.data {
            EventData::RenderingControl(d) => *d,
            _ => {
                assert(seq_view(out@) =~= Seq::<PropertyUpdateView>::empty());
                return out;
            },
        };
        let id = match store.speaker_id_for_ip(event.speaker_ip) {
            Some(id) => id,
            None => {
                assert(seq_view(out@) =~= Seq::<PropertyUpdateView>::empty());
                return out;
            },
        };
        let ghost idv = id@;
        let ghost rc = Service::RenderingControl;
        let ghost mut want: Seq<PropertyUpdateView> = Seq::empty();
        proof {
            reveal_strlit("volume");
            reveal_strlit("mute");
            reveal_strlit("bass");
            reveal_strlit("treble");
            reveal_strlit("loudness");
        }
        assert(seq_view(out@) =~= want);
        if let Some(v) = d.master_volume {
            let text = set_text_exec(id.as_str(), "volume", u64_text(v as u64).as_str());
            let u = PropertyUpdate::new(
                text,
                Service::RenderingControl,
                StoreUpdate::SetSpeaker(id.view_clone(), PropertyValue::Volume(Volume::new(v))),
            );
            push_update(&mut out, u);
        }
        proof {
            want = when_some(
                d.master_volume,
                |v: u8|
                    speaker_update(
                        idv,
                        "volume"@,
                        decimal_digits(v as nat),
                        rc,
                        PropertyValueView::Volume(Volume(if v > 100 { 100u8 } else { v })),
                    ),
            );
            assert(seq_view(out@) =~= want);
        }
        if let Some(m) = d.master_mute {
            let text = set_text_exec(id.as_str(), "mute", bool_text_exec(m).as_str());
            let u = PropertyUpdate::new(
                text,
                Service::RenderingControl,
                StoreUpdate::SetSpeaker(id.view_clone(), PropertyValue::Mute(Mute::new(m))),
            );
            push_update(&mut out, u);
        }
        proof {
            want = want + when_some(
                d.master_mute,
                |m: bool| speaker_update(idv, "mute"@, bool_text(m), rc, PropertyValueView::Mute(Mute(m))),
            );
            assert(seq_view(out@) =~= want);
        }
        if let Some(b) = d.bass {
            let text = set_text_exec(id.as_str(), "bass", i8_text(b).as_str());
            let u = PropertyUpdate::new(
                text,
                Service::RenderingControl,
                StoreUpdate::SetSpeaker(id.view_clone(), PropertyValue::Bass(Bass::new(b))),
            );
            push_update(&mut out, u);
        }
        proof {
            want = want + when_some(
                d.bass,
                |b: i8|
                    speaker_update(
                        idv,
                        "bass"@,
                        int_text(b as int),
                        rc,
                        PropertyValueView::Bass(Bass(eq_clamp(b))),
                    ),
            );
            assert(seq_view(out@) =~= want);
        }
        if let Some(t) = d.treble {
            let text = set_text_exec(id.as_str(), "treble", i8_text(t).as_str());
            let u = PropertyUpdate::new(
                text,
                Service::RenderingControl,
                StoreUpdate::SetSpeaker(id.view_clone(), PropertyValue::Treble(Treble::new(t))),
            );
            push_update(&mut out, u);
        }
        proof {
            want = want + when_some(
                d.treble,
                |t: i8|
                    speaker_update(
                        idv,
                        "treble"@,
                        int_text(t as int),
                        rc,
                        PropertyValueView::Treble(Treble(eq_clamp(t))),
                    ),
            );
            assert(seq_view(out@) =~= want);
        }
        if let Some(l) = d.loudness {
            let text = set_text_exec(id.as_str(), "loudness", bool_text_exec(l).as_str());
            let u = PropertyUpdate::new(
                text,
                Service::RenderingControl,
                StoreUpdate::SetSpeaker(id.view_clone(), PropertyValue::Loudness(Loudness::new(l))),
            );
            push_update(&mut out, u);
        }
        proof {
            want = want + when_some(
                d.loudness,
                |l: bool|
                    speaker_update(idv, "loudness"@, bool_text(l), rc, PropertyValueView::Loudness(Loudness(l))),
            );
            assert(seq_view(out@) =~= want);
            assert(want =~= rendering_updates(idv, d));
        }
        out
    }
}

// ---------------------------------------------------------------------------
// AVTransport
// ---------------------------------------------------------------------------

/// Whether the times an AVTransport payload gets parsed fit in milliseconds
/// of a `u64`: the position, and the duration when the position is a time.
pub open spec fn av_times_fit(d: AVTransportData) -> bool {
    match opt_str_view(d.rel_time) {
        Some(rt) => time_fits(rt) && (time_ms_spec(rt) is Some ==> match opt_str_view(
            d.track_duration,
        ) {
            Some(dur) => time_fits(dur),
            None => true,
        }),
        None => true,
    }
}

/// Whether an event's times fit, if it is an AVTransport event.
pub open spec fn event_times_fit(e: RawEvent) -> bool {
    match e.data {
        EventData::AVTransport(d) => av_times_fit(d),
        _ => true,
    }
}

/// Whether an event's times fit (executable).
pub fn event_times_fit_exec(e: &RawEvent) -> (r: bool)
    ensures
        r == event_times_fit(*e),
{
    match &e.data {
        EventData::AVTransport(d) => match &d.rel_time {
            Some(rt) => {
                if !crate::property::time_fits_exec(rt.as_str()) {
                    return false;
                }
                if Position::parse_time_to_ms(rt.as_str()).is_none() {
                    return true;
                }
                match &d.track_duration {
                    Some(dur) => crate::property::time_fits_exec(dur.as_str()),
                    None => true,
                }
            },
            None => true,
        },
        _ => true,
    }
}

/// The milliseconds of an optional duration text, or zero when it is absent
/// or not a time.
pub open spec fn duration_or_zero(o: Option<Seq<char>>) -> int {
    match o {
        Some(t) => match time_ms_spec(t) {
            Some(v) => v,
            None => 0,
        },
        None => 0,
    }
}

/// A value extracted from optional metadata.
pub open spec fn from_metadata(m: Option<Seq<char>>, tag: Seq<char>) -> Option<Seq<char>> {
    match m {
        Some(x) => extract_value_spec(x, tag),
        None => None,
    }
}

/// The current track an AVTransport payload describes.
pub open spec fn track_of(d: AVTransportData) -> CurrentTrackView {
    let m = opt_str_view(d.track_metadata);
    CurrentTrackView {
        title: from_metadata(m, "dc:title"@),
        artist: match m {
            Some(x) => didl_artist_spec(x),
            None => None,
        },
        album: from_metadata(m, "upnp:album"@),
        album_art_uri: from_metadata(m, "upnp:albumArtURI"@),
        uri: opt_str_view(d.current_track_uri),
    }
}

/// Whether a track has nothing worth showing: no title, artist or URI.
pub open spec fn track_blank(t: CurrentTrackView) -> bool {
    t.title is None && t.artist is None && t.uri is None
}

/// The playback-state update of a payload, if it names a transport state.
pub open spec fn av_state_updates(id: Seq<char>, d: AVTransportData) -> Seq<PropertyUpdateView> {
    match opt_str_view(d.transport_state) {
        Some(st) => {
            let p = playback_from_upper(str_uppercase(st));
            seq![
                speaker_update(
                    id,
                    "playback state"@,
                    playback_text(p),
                    Service::AVTransport,
                    PropertyValueView::PlaybackState(p),
                ),
            ]
        },
        None => Seq::empty(),
    }
}

/// The position update of a payload, if its position is a time.
pub open spec fn av_position_updates(id: Seq<char>, d: AVTransportData) -> Seq<PropertyUpdateView> {
    match opt_str_view(d.rel_time) {
        Some(rt) => match time_ms_spec(rt) {
            Some(p) => {
                let dur = duration_or_zero(opt_str_view(d.track_duration));
                seq![
                    speaker_update(
                        id,
                        "position"@,
                        decimal_digits(p as nat) + "ms / "@ + decimal_digits(dur as nat) + "ms"@,
                        Service::AVTransport,
                        PropertyValueView::Position(Position { position_ms: p as u64, duration_ms: dur as u64 }),
                    ),
                ]
            },
            None => Seq::empty(),
        },
        None => Seq::empty(),
    }
}

/// The track update of a payload, if it carries track information that is
/// not blank.
pub open spec fn av_track_updates(id: Seq<char>, d: AVTransportData) -> Seq<PropertyUpdateView> {
    if has_track_info_spec(d) && !track_blank(track_of(d)) {
        seq![
            speaker_update(
                id,
                "track"@,
                track_display_spec(track_of(d)),
                Service::AVTransport,
                PropertyValueView::CurrentTrack(track_of(d)),
            ),
        ]
    } else {
        Seq::empty()
    }
}

/// What the AVTransport decoder makes of an event: playback state, position
/// and track, each when present, for the speaker that sent it.
pub open spec fn transport_decode_spec(e: RawEvent, s: StateStoreView) -> Seq<PropertyUpdateView> {
    match e.data {
        EventData::AVTransport(d) => match sender_of(s, e.speaker_ip) {
            Some(id) => av_state_updates(id, d) + av_position_updates(id, d) + av_track_updates(id, d),
            None => Seq::empty(),
        },
        _ => Seq::empty(),
    }
}

/// A value extracted from optional metadata (executable).
fn metadata_field(m: &Option<String>, tag: &str) -> (r: Option<String>)
    ensures
        opt_str_view(r) == from_metadata(opt_str_view(*m), tag@),
{
    match m {
        Some(x) => extract_xml_value(x.as_str(), tag),
        None => None,
    }
}

/// Decodes playback state, position and current track.
#[derive(Debug, Clone, Copy)]
pub struct AVTransportDecoder;

impl AVTransportDecoder {
    /// The services this decoder reads.
    pub fn services(&self) -> (r: Vec<Service>)
        ensures
            r@ == seq![Service::AVTransport],
    {
        let mut v: Vec<Service> = Vec::new();
        v.push(Service::AVTransport);
        assert(v@ =~= seq![Service::AVTransport]);
        v
    }

    /// The decoder's name.
    pub fn name(&self) -> (r: &'static str)
        ensures
            r@ == "AVTransportDecoder"@,
    {
        "AVTransportDecoder"
    }

    /// The updates an AVTransport event makes for the speaker that sent it.
    pub fn decode(&self, event: &RawEvent, store: &StateStore) -> (r: Vec<PropertyUpdate>)
        requires
            store.wf(),
            event_times_fit(*event),
        ensures
            seq_view(r@) == transport_decode_spec(*event, store@),
    {
        let mut out: Vec<PropertyUpdate> = Vec::new();
        let d = match &event.data {
            EventData::AVTransport(d) => d,
            _ => {
                assert(seq_view(out@) =~= Seq::<PropertyUpdateView>::empty());
                return out;
            },
        };
        let id = match store.speaker_id_for_ip(event.speaker_ip) {
            Some(id) => id,
            None => {
                assert(seq_view(out@) =~= Seq::<PropertyUpdateView>::empty());
                return out;
            },
        };
        let ghost idv = id@;
        proof {
            reveal_strlit("playback state");
            reveal_strlit("position");
            reveal_strlit("track");
            reveal_strlit("ms / ");
            reveal_strlit("ms");
            reveal_strlit("dc:title");
            reveal_strlit("upnp:album");
            reveal_strlit("upnp:albumArtURI");
        }
        if let Some(st) = &d.transport_state {
            let p = PlaybackState::from_transport_state(st.as_str());
            let text = set_text_exec(id.as_str(), "playback state", playback_text_exec(p).as_str());
            let u = PropertyUpdate::new(
                text,
                Service::AVTransport,
                StoreUpdate::SetSpeaker(id.view_clone(), PropertyValue::PlaybackState(p)),
            );
            push_update(&mut out, u);
        }
        assert(seq_view(out@) =~= av_state_updates(idv, *d));
        if let Some(rt) = &d.rel_time {
            if let Some(p) = Position::parse_time_to_ms(rt.as_str()) {
                let dur: u64 = match &d.track_duration {
                    Some(t) => match Position::parse_time_to_ms(t.as_str()) {
                        Some(v) => v,
                        None => 0,
                    },
                    None => 0,
                };
                let pt = u64_text(p);
                let dt = u64_text(dur);
                let a = concat_str(pt.as_str(), "ms / ");
                let b = concat_str(a.as_str(), dt.as_str());
                let c = concat_str(b.as_str(), "ms");
                let text = set_text_exec(id.as_str(), "position", c.as_str());
                let u = PropertyUpdate::new(
                    text,
                    Service::AVTransport,
                    StoreUpdate::SetSpeaker(id.view_clone(), PropertyValue::Position(Position::new(p, dur))),
                );
                push_update(&mut out, u);
            }
        }
        assert(seq_view(out@) =~= av_state_updates(idv, *d) + av_position_updates(idv, *d));
        if d.has_track_info() {
            let track = CurrentTrack {
                title: metadata_field(&d.track_metadata, "dc:title"),
                artist: match &d.track_metadata {
                    Some(m) => parse_didl_artist(m.as_str()),
                    None => None,
                },
                album: metadata_field(&d.track_metadata, "upnp:album"),
                album_art_uri: metadata_field(&d.track_metadata, "upnp:albumArtURI"),
                uri: opt_str_clone(&d.current_track_uri),
            };
            assert(track@ == track_of(*d));
            if !track.is_empty() {
                let shown = track.display();
                let text = set_text_exec(id.as_str(), "track", shown.as_str());
                let u = PropertyUpdate::new(
                    text,
                    Service::AVTransport,
                    StoreUpdate::SetSpeaker(id.view_clone(), PropertyValue::CurrentTrack(track)),
                );
                push_update(&mut out, u);
            }
        }
        assert(seq_view(out@) =~= av_state_updates(idv, *d) + av_position_updates(idv, *d)
            + av_track_updates(idv, *d));
        out
    }
}

// ---------------------------------------------------------------------------
// ZoneGroupTopology
// ---------------------------------------------------------------------------

/// `s` up to the first `c`, or all of `s` when it holds none.
pub open spec fn before_char(s: Seq<char>, c: char) -> Seq<char> {
    match find_spec(s, seq![c]) {
        Some(i) => s.take(i),
        None => s,
    }
}

/// The address in an `http://host:port/path` location, if the host is an
/// IP address.
pub open spec fn location_ip(loc: Seq<char>) -> Option<IpAddr> {
    if has_prefix(loc, "http://"@) {
        parse_ip_spec(before_char(before_char(loc.skip(7), '/'), ':'))
    } else {
        None
    }
}

/// A member's address: the one it reports, else the one in its location,
/// else `0.0.0.0`.
pub open spec fn member_ip(m: ZoneMemberData) -> IpAddr {
    match m.ip_address {
        Some(ip) => ip,
        None => match location_ip(m.location@) {
            Some(ip) => ip,
            None => IpAddr::V4(0, 0, 0, 0),
        },
    }
}

/// Speaker ids of raw UUIDs.
pub open spec fn ids_of(s: Seq<String>) -> Seq<Seq<char>> {
    s.map_values(|x: String| normalize_speaker_id(x@))
}

/// The speaker a zone member describes.
pub open spec fn member_speaker(m: ZoneMemberData) -> SpeakerView {
    SpeakerView {
        id: normalize_speaker_id(m.uuid@),
        name: m.zone_name@,
        room_name: m.zone_name@,
        ip_address: member_ip(m),
        port: 1400,
        model_name: "Unknown"@,
        software_version: m.software_version@,
        boot_seq: 0,
        satellites: ids_of(m.satellites@),
    }
}

/// The member ids of a group: each member, followed by its satellites.
pub open spec fn group_member_ids(ms: Seq<ZoneMemberData>) -> Seq<Seq<char>>
    decreases ms.len(),
{
    if ms.len() == 0 {
        Seq::empty()
    } else {
        group_member_ids(ms.drop_last()) + seq![normalize_speaker_id(ms.last().uuid@)] + ids_of(
            ms.last().satellites@,
        )
    }
}

/// The group a zone group describes.
pub open spec fn group_info_of(g: ZoneGroupData) -> GroupInfoView {
    GroupInfoView {
        id: g.id@,
        coordinator_id: normalize_speaker_id(g.coordinator@),
        member_ids: group_member_ids(g.members@),
    }
}

/// The groups of a topology payload, in order.
pub open spec fn groups_of(gs: Seq<ZoneGroupData>) -> Seq<GroupInfoView> {
    gs.map_values(|g: ZoneGroupData| group_info_of(g))
}

/// The update adding a speaker.
pub open spec fn add_speaker_update(sp: SpeakerView) -> PropertyUpdateView {
    PropertyUpdateView {
        description: "Add/update speaker "@ + sp.name,
        service: Service::ZoneGroupTopology,
        update: StoreUpdateView::AddSpeaker(sp),
    }
}

/// The update setting a speaker's group membership.
pub open spec fn membership_update(sid: Seq<char>, gid: Seq<char>, coordinator: bool) -> PropertyUpdateView {
    PropertyUpdateView {
        description: "Set "@ + sid + " group membership"@,
        service: Service::ZoneGroupTopology,
        update: StoreUpdateView::SetSpeaker(
            sid,
            PropertyValueView::GroupMembership(GroupMembershipView { group_id: gid, is_coordinator: coordinator }),
        ),
    }
}

/// The two updates of one member of group `g`: the speaker, then its
/// membership.
pub open spec fn member_pair(g: ZoneGroupData, m: ZoneMemberData) -> Seq<PropertyUpdateView> {
    let sid = normalize_speaker_id(m.uuid@);
    seq![
        add_speaker_update(member_speaker(m)),
        membership_update(sid, g.id@, sid == normalize_speaker_id(g.coordinator@)),
    ]
}

/// The updates of members `ms` of group `g`, in order.
pub open spec fn member_updates(g: ZoneGroupData, ms: Seq<ZoneMemberData>) -> Seq<PropertyUpdateView>
    decreases ms.len(),
{
    if ms.len() == 0 {
        Seq::empty()
    } else {
        member_updates(g, ms.drop_last()) + member_pair(g, ms.last())
    }
}

/// The speaker updates of all groups, group by group.
pub open spec fn speaker_updates(gs: Seq<ZoneGroupData>) -> Seq<PropertyUpdateView>
    decreases gs.len(),
{
    if gs.len() == 0 {
        Seq::empty()
    } else {
        speaker_updates(gs.drop_last()) + member_updates(gs.last(), gs.last().members@)
    }
}

/// The update adding a group.
pub open spec fn add_group_update(g: GroupInfoView) -> PropertyUpdateView {
    PropertyUpdateView {
        description: "Add/update group "@ + g.id,
        service: Service::ZoneGroupTopology,
        update: StoreUpdateView::AddGroup(g),
    }
}

/// The update setting the system topology.
pub open spec fn topology_update(listing: Seq<SpeakerView>, groups: Seq<GroupInfoView>) -> PropertyUpdateView {
    PropertyUpdateView {
        description: "Update system topology"@,
        service: Service::ZoneGroupTopology,
        update: StoreUpdateView::SetSystem(
            PropertyValueView::Topology(TopologyView { speakers: listing, groups }),
        ),
    }
}

/// The update removing a vanished speaker.
pub open spec fn vanished_update(uuid: Seq<char>) -> PropertyUpdateView {
    PropertyUpdateView {
        description: "Remove vanished speaker "@ + normalize_speaker_id(uuid),
        service: Service::ZoneGroupTopology,
        update: StoreUpdateView::RemoveSpeaker(normalize_speaker_id(uuid)),
    }
}

/// The updates of a topology payload, given the listing of the speakers the
/// store knew when decoding: every member and its membership, every group,
/// the system topology, then every vanished speaker's removal.
pub open spec fn topology_updates(d: TopologyData, listing: Seq<SpeakerView>) -> Seq<PropertyUpdateView> {
    speaker_updates(d.zone_groups@) + groups_of(d.zone_groups@).map_values(
        |g: GroupInfoView| add_group_update(g),
    ) + seq![topology_update(listing, groups_of(d.zone_groups@))] + d.vanished_devices@.map_values(
        |v: String| vanished_update(v@),
    )
}

/// Whether `listing` lists the speakers of `s`, once each, in some order.
pub open spec fn lists_speakers(s: StateStoreView, listing: Seq<SpeakerView>) -> bool {
    listing.len() == s.speakers.dom().len() && listing.to_set() == s.speakers.values()
}

/// Whether `r` is what the topology decoder makes of an event: nothing for
/// another payload, else the topology updates for some listing of the
/// store's speakers (the store does not fix their order).
pub open spec fn topology_decoded(e: RawEvent, s: StateStoreView, r: Seq<PropertyUpdateView>) -> bool {
    match e.data {
        EventData::ZoneGroupTopology(d) => exists|listing: Seq<SpeakerView>|
            lists_speakers(s, listing) && r == topology_updates(d, listing),
        _ => r == Seq::<PropertyUpdateView>::empty(),
    }
}

/// `s` up to the first `c` (executable).
fn before_char_exec(s: &[char], c: char) -> (r: Vec<char>)
    ensures
        r@ == before_char(s@, c),
{
    let mut needle: Vec<char> = Vec::new();
    needle.push(c);
    assert(needle@ =~= seq![c]);
    match find_chars(s, &needle) {
        Some(i) => {
            proof {
                lemma_find_in_bounds(s@, seq![c], i as int);
            }
            slice_chars(s, 0, i)
        },
        None => slice_chars(s, 0, s.len()),
    }
}

/// A found position lies inside the text.
proof fn lemma_find_in_bounds(hay: Seq<char>, needle: Seq<char>, i: int)
    requires
        find_spec(hay, needle) == Some(i),
    ensures
        0 <= i <= hay.len(),
{
    lemma_find_bounds(hay, needle);
}

/// The address in an `http://host:port/path` location, if the host is an
/// IP address.
pub fn parse_ip_from_location(loc: &str) -> (r: Option<IpAddr>)
    ensures
        r == location_ip(loc@),
{
    let v = chars_of(loc);
    let prefix = chars_of("http://");
    proof {
        reveal_strlit("http://");
    }
    if !starts_with(&v, &prefix) {
        return None;
    }
    let rest = slice_chars(&v, 7, v.len());
    assert(rest@ =~= loc@.skip(7));
    let host_port = before_char_exec(&rest, '/');
    let host = before_char_exec(&host_port, ':');
    let host_text = string_of(&host);
    parse_ip_addr(host_text.as_str())
}

/// Speaker ids of raw UUIDs (executable).
fn ids_of_exec(s: &Vec<String>) -> (r: Vec<SpeakerId>)
    ensures
        seq_view(r@) == ids_of(s@),
{
    let mut r: Vec<SpeakerId> = Vec::new();
    let mut i: usize = 0;
    while i < s.len()
        invariant
            i <= s.len(),
            seq_view(r@) == ids_of(s@.take(i as int)),
        decreases s.len() - i,
    {
        let ghost before = r@;
        r.push(SpeakerId::new(s[i].as_str()));
        proof {
            assert(s@.take(i + 1) =~= s@.take(i as int).push(s@[i as int]));
            assert(seq_view(r@) =~= seq_view(before).push(r@.last()@));
            assert(ids_of(s@.take(i + 1)) =~= ids_of(s@.take(i as int)).push(normalize_speaker_id(s@[i as int]@)));
        }
        i = i + 1;
    }
    assert(s@.take(s@.len() as int) =~= s@);
    r
}

/// The speaker a zone member describes (executable).
fn member_speaker_exec(m: &ZoneMemberData) -> (r: Speaker)
    ensures
        r@ == member_speaker(*m),
{
    let ip = match m.ip_address {
        Some(ip) => ip,
        None => match parse_ip_from_location(m.location.as_str()) {
            Some(ip) => ip,
            None => IpAddr::V4(0, 0, 0, 0),
        },
    };
    proof {
        reveal_strlit("Unknown");
    }
    Speaker {
        id: SpeakerId::new(m.uuid.as_str()),
        name: string_of(&chars_of(m.zone_name.as_str())),
        room_name: string_of(&chars_of(m.zone_name.as_str())),
        ip_address: ip,
        port: 1400,
        model_name: string_of(&chars_of("Unknown")),
        software_version: string_of(&chars_of(m.software_version.as_str())),
        boot_seq: 0,
        satellites: ids_of_exec(&m.satellites),
    }
}

/// The group a zone group describes (executable).
fn group_info_exec(g: &ZoneGroupData) -> (r: GroupInfo)
    ensures
        r@ == group_info_of(*g),
{
    let mut ids: Vec<SpeakerId> = Vec::new();
    let mut i: usize = 0;
    let ms = &g.members;
    while i < ms.len()
        invariant
            i <= ms.len(),
            seq_view(ids@) == group_member_ids(ms@.take(i as int)),
        decreases ms.len() - i,
    {
        let ghost before = seq_view(ids@);
        let m = &ms[i];
        ids.push(SpeakerId::new(m.uuid.as_str()));
        let sats = ids_of_exec(&m.satellites);
        let mut j: usize = 0;
        let ghost mid = seq_view(ids@);
        proof {
            assert(mid =~= before.push(normalize_speaker_id(m.uuid@)));
        }
        while j < sats.len()
            invariant
                j <= sats.len(),
                seq_view(ids@) == mid + seq_view(sats@).take(j as int),
            decreases sats.len() - j,
        {
            let ghost b2 = ids@;
            ids.push(sats[j].view_clone());
            proof {
                assert(seq_view(ids@) =~= seq_view(b2).push(sats@[j as int]@));
                assert(seq_view(sats@).take(j + 1) =~= seq_view(sats@).take(j as int).push(sats@[j as int]@));
            }
            j = j + 1;
        }
        proof {
            assert(seq_view(sats@).take(sats@.len() as int) =~= seq_view(sats@));
            let t = ms@.take(i + 1);
            assert(t.drop_last() =~= ms@.take(i as int));
            assert(t.last() == ms@[i as int]);
            assert(seq_view(ids@) =~= group_member_ids(t));
        }
        i = i + 1;
    }
    assert(ms@.take(ms@.len() as int) =~= ms@);
    GroupInfo::new(GroupId::new(g.id.as_str()), SpeakerId::new(g.coordinator.as_str()), ids)
}

/// Appends the updates of every member of `g` to `out`.
fn push_member_updates(g: &ZoneGroupData, out: &mut Vec<PropertyUpdate>)
    ensures
        seq_view(final(out)@) == seq_view(old(out)@) + member_updates(*g, g.members@),
{
    let ghost start = seq_view(out@);
    let coordinator = SpeakerId::new(g.coordinator.as_str());
    let ms = &g.members;
    let mut i: usize = 0;
    proof {
        reveal_strlit("Add/update speaker ");
        reveal_strlit("Set ");
        reveal_strlit(" group membership");
        assert(start + member_updates(*g, ms@.take(0)) =~= start);
    }
    while i < ms.len()
        invariant
            i <= ms.len(),
            coordinator@ == normalize_speaker_id(g.coordinator@),
            ms == &g.members,
            seq_view(out@) == start + member_updates(*g, ms@.take(i as int)),
        decreases ms.len() - i,
    {
        let m = &ms[i];
        let sp = member_speaker_exec(m);
        let sid = SpeakerId::new(m.uuid.as_str());
        let d1 = concat_str("Add/update speaker ", sp.name.as_str());
        push_update(out, PropertyUpdate::new(d1, Service::ZoneGroupTopology, StoreUpdate::AddSpeaker(sp)));
        let is_coordinator = sid.view_eq(&coordinator);
        let d2 = cat3("Set ", sid.as_str(), " group membership");
        let membership = GroupMembership::new(GroupId::new(g.id.as_str()), is_coordinator);
        push_update(
            out,
            PropertyUpdate::new(
                d2,
                Service::ZoneGroupTopology,
                StoreUpdate::SetSpeaker(sid, PropertyValue::GroupMembership(membership)),
            ),
        );
        proof {
            let t = ms@.take(i + 1);
            assert(t.drop_last() =~= ms@.take(i as int));
            assert(t.last() == ms@[i as int]);
            assert(seq_view(out@) =~= start + member_updates(*g, t));
        }
        i = i + 1;
    }
    assert(ms@.take(ms@.len() as int) =~= ms@);
}

/// Decodes speakers, groups and the system topology.
#[derive(Debug, Clone, Copy)]
pub struct TopologyDecoder;

impl TopologyDecoder {
    /// The services this decoder reads.
    pub fn services(&self) -> (r: Vec<Service>)
        ensures
            r@ == seq![Service::ZoneGroupTopology],
    {
        let mut v: Vec<Service> = Vec::new();
        v.push(Service::ZoneGroupTopology);
        assert(v@ =~= seq![Service::ZoneGroupTopology]);
        v
    }

    /// The decoder's name.
    pub fn name(&self) -> (r: &'static str)
        ensures
            r@ == "TopologyDecoder"@,
    {
        "TopologyDecoder"
    }

    /// The updates a topology event makes: every member speaker and its
    /// membership, every group, the system topology (listing the speakers the
    /// store knows now), and the removal of every vanished speaker.
    pub fn decode(&self, event: &RawEvent, store: &StateStore) -> (r: Vec<PropertyUpdate>)
        requires
            store.wf(),
        ensures
            topology_decoded(*event, store@, seq_view(r@)),
    {
        let mut out: Vec<PropertyUpdate> = Vec::new();
        let d = match &event.data {
            EventData::ZoneGroupTopology(d) => d,
            _ => {
                assert(seq_view(out@) =~= Seq::<PropertyUpdateView>::empty());
                return out;
            },
        };
        let gs = &d.zone_groups;
        let mut groups: Vec<GroupInfo> = Vec::new();
        let mut i: usize = 0;
        assert(seq_view(out@) =~= speaker_updates(gs@.take(0)));
        while i < gs.len()
            invariant
                i <= gs.len(),
                seq_view(out@) == speaker_updates(gs@.take(i as int)),
                seq_view(groups@) == groups_of(gs@.take(i as int)),
            decreases gs.len() - i,
        {
            let g = &gs[i];
            push_member_updates(g, &mut out);
            let ghost gb = groups@;
            groups.push(group_info_exec(g));
            proof {
                let t = gs@.take(i + 1);
                assert(t.drop_last() =~= gs@.take(i as int));
                assert(t.last() == gs@[i as int]);
                assert(seq_view(groups@) =~= seq_view(gb).push(group_info_of(gs@[i as int])));
                assert(groups_of(t) =~= groups_of(gs@.take(i as int)).push(group_info_of(gs@[i as int])));
            }
            i = i + 1;
        }
        assert(gs@.take(gs@.len() as int) =~= gs@);
        let ghost all_groups = groups_of(gs@);
        let ghost after_speakers = seq_view(out@);
        proof {
            reveal_strlit("Add/update group ");
            reveal_strlit("Update system topology");
            reveal_strlit("Remove vanished speaker ");
        }
        let mut k: usize = 0;
        while k < groups.len()
            invariant
                k <= groups.len(),
                seq_view(groups@) == all_groups,
                seq_view(out@) == after_speakers + all_groups.take(k as int).map_values(
                    |g: GroupInfoView| add_group_update(g),
                ),
            decreases groups.len() - k,
        {
            let gi = groups[k].view_clone();
            let desc = concat_str("Add/update group ", gi.id.as_str());
            let ghost b = seq_view(out@);
            push_update(&mut out, PropertyUpdate::new(desc, Service::ZoneGroupTopology, StoreUpdate::AddGroup(gi)));
            proof {
                assert(all_groups[k as int] == groups@[k as int]@);
                assert(all_groups.take(k + 1).map_values(|g: GroupInfoView| add_group_update(g))
                    =~= all_groups.take(k as int).map_values(|g: GroupInfoView| add_group_update(g)).push(
                    add_group_update(all_groups[k as int]),
                ));
            }
            k = k + 1;
        }
        assert(all_groups.take(groups@.len() as int) =~= all_groups);
        let listing = store.speakers();
        let ghost lv = seq_view(listing@);
        let topology = Topology::new(listing, groups);
        let tdesc = string_of(&chars_of("Update system topology"));
        push_update(
            &mut out,
            PropertyUpdate::new(tdesc, Service::ZoneGroupTopology, StoreUpdate::SetSystem(PropertyValue::Topology(topology))),
        );
        let ghost after_topology = seq_view(out@);
        let vs = &d.vanished_devices;
        let mut j: usize = 0;
        while j < vs.len()
            invariant
                j <= vs.len(),
                seq_view(out@) == after_topology + vs@.take(j as int).map_values(|v: String| vanished_update(v@)),
            decreases vs.len() - j,
        {
            let sid = SpeakerId::new(vs[j].as_str());
            let desc = concat_str("Remove vanished speaker ", sid.as_str());
            push_update(&mut out, PropertyUpdate::new(desc, Service::ZoneGroupTopology, StoreUpdate::RemoveSpeaker(sid)));
            proof {
                assert(vs@.take(j + 1).map_values(|v: String| vanished_update(v@)) =~= vs@.take(
                    j as int,
                ).map_values(|v: String| vanished_update(v@)).push(vanished_update(vs@[j as int]@)));
            }
            j = j + 1;
        }
        proof {
            assert(vs@.take(vs@.len() as int) =~= vs@);
            assert(lists_speakers(store@, lv));
            assert(seq_view(out@) =~= topology_updates(*d, lv));
        }
        out
    }
}

// ---------------------------------------------------------------------------
// The decoder set
// ---------------------------------------------------------------------------

/// One of the event decoders.
#[derive(Debug, Clone, Copy)]
pub enum Decoder {
    RenderingControl(RenderingControlDecoder),
    AVTransport(AVTransportDecoder),
    Topology(TopologyDecoder),
}

/// The service a decoder reads.
pub open spec fn decoder_service(d: Decoder) -> Service {
    match d {
        Decoder::RenderingControl(_) => Service::RenderingControl,
        Decoder::AVTransport(_) => Service::AVTransport,
        Decoder::Topology(_) => Service::ZoneGroupTopology,
    }
}

/// What decoder `d` makes of event `e` against store `s`, the topology
/// decoder listing the store's speakers as `listing`.
pub open spec fn decode_with(d: Decoder, e: RawEvent, s: StateStoreView, listing: Seq<SpeakerView>) -> Seq<
    PropertyUpdateView,
> {
    match d {
        Decoder::RenderingControl(_) => rendering_decode_spec(e, s),
        Decoder::AVTransport(_) => transport_decode_spec(e, s),
        Decoder::Topology(_) => match e.data {
            EventData::ZoneGroupTopology(data) => topology_updates(data, listing),
            _ => Seq::empty(),
        },
    }
}

/// Whether `listing` can be the topology decoder's listing of the speakers
/// of `s` when it decodes `e` (any listing will do otherwise, as none is
/// used).
pub open spec fn listing_ok(d: Decoder, e: RawEvent, s: StateStoreView, listing: Seq<SpeakerView>) -> bool {
    (d is Topology && e.data is ZoneGroupTopology) ==> lists_speakers(s, listing)
}

impl Decoder {
    /// The services the decoder reads.
    pub fn services(&self) -> (r: Vec<Service>)
        ensures
            r@ == seq![decoder_service(*self)],
    {
        match self {
            Decoder::RenderingControl(d) => d.services(),
            Decoder::AVTransport(d) => d.services(),
            Decoder::Topology(d) => d.services(),
        }
    }

    /// The decoder's name.
    pub fn name(&self) -> (r: &'static str)
        ensures
            r@ == (match *self {
                Decoder::RenderingControl(_) => "RenderingControlDecoder"@,
                Decoder::AVTransport(_) => "AVTransportDecoder"@,
                Decoder::Topology(_) => "TopologyDecoder"@,
            }),
    {
        match self {
            Decoder::RenderingControl(d) => d.name(),
            Decoder::AVTransport(d) => d.name(),
            Decoder::Topology(d) => d.name(),
        }
    }

    /// The updates the decoder makes of an event.
    pub fn decode(&self, event: &RawEvent, store: &StateStore) -> (r: Vec<PropertyUpdate>)
        requires
            store.wf(),
            event_times_fit(*event),
        ensures
            exists|listing: Seq<SpeakerView>|
                listing_ok(*self, *event, store@, listing) && seq_view(r@) == decode_with(
                    *self,
                    *event,
                    store@,
                    listing,
                ),
    {
        match self {
            Decoder::RenderingControl(d) => {
                let r = d.decode(event, store);
                assert(listing_ok(*self, *event, store@, Seq::empty()));
                r
            },
            Decoder::AVTransport(d) => {
                let r = d.decode(event, store);
                assert(listing_ok(*self, *event, store@, Seq::empty()));
                r
            },
            Decoder::Topology(d) => {
                let r = d.decode(event, store);
                proof {
                    let ev = *event;
                    match ev.data {
                        EventData::ZoneGroupTopology(data) => {
                            let l = choose|l: Seq<SpeakerView>|
                                lists_speakers(store@, l) && seq_view(r@) == topology_updates(data, l);
                            assert(listing_ok(*self, *event, store@, l));
                            assert(seq_view(r@) == decode_with(*self, *event, store@, l));
                        },
                        _ => {
                            assert(listing_ok(*self, *event, store@, Seq::empty()));
                            assert(seq_view(r@) == decode_with(*self, *event, store@, Seq::empty()));
                        },
                    }
                }
                r
            },
        }
    }
}

/// The default decoders: RenderingControl, AVTransport and topology, in that
/// order.
pub fn default_decoders() -> (r: Vec<Decoder>)
    ensures
        r@ == seq![
            Decoder::RenderingControl(RenderingControlDecoder),
            Decoder::AVTransport(AVTransportDecoder),
            Decoder::Topology(TopologyDecoder),
        ],
{
    let mut v: Vec<Decoder> = Vec::new();
    v.push(Decoder::RenderingControl(RenderingControlDecoder));
    v.push(Decoder::AVTransport(AVTransportDecoder));
    v.push(Decoder::Topology(TopologyDecoder));
    assert(v@ =~= seq![
        Decoder::RenderingControl(RenderingControlDecoder),
        Decoder::AVTransport(AVTransportDecoder),
        Decoder::Topology(TopologyDecoder),
    ]);
    v
}

// ---------------------------------------------------------------------------
// From stream events
// ---------------------------------------------------------------------------

/// A UPnP flag as text: `true`/`false`, or `1`/`0`.
pub open spec fn flag_spec(s: Seq<char>) -> Option<bool> {
    if s == "true"@ || s == "1"@ {
        Some(true)
    } else if s == "false"@ || s == "0"@ {
        Some(false)
    } else {
        None
    }
}

/// An optional flag text, read as [`flag_spec`].
pub open spec fn opt_flag(o: Option<Seq<char>>) -> Option<bool> {
    match o {
        Some(s) => flag_spec(s),
        None => None,
    }
}

/// An optional `u8` text, read as `str::parse::<u8>` reads it.
pub open spec fn opt_u8(o: Option<Seq<char>>) -> Option<u8> {
    match o {
        Some(s) => match parse_u8_spec(s) {
            Some(n) => Some(n as u8),
            None => None,
        },
        None => None,
    }
}

/// An optional `i8` text, read as `str::parse::<i8>` reads it.
pub open spec fn opt_i8(o: Option<Seq<char>>) -> Option<i8> {
    match o {
        Some(s) => match parse_i8_spec(s) {
            Some(n) => Some(n as i8),
            None => None,
        },
        None => None,
    }
}

/// The RenderingControl payload a stream event carries, its texts parsed.
pub open spec fn rendering_data_of(e: RenderingControlEvent) -> RenderingControlData {
    RenderingControlData {
        master_volume: opt_u8(opt_str_view(e.master_volume)),
        master_mute: opt_flag(opt_str_view(e.master_mute)),
        lf_volume: opt_u8(opt_str_view(e.lf_volume)),
        rf_volume: opt_u8(opt_str_view(e.rf_volume)),
        bass: opt_i8(opt_str_view(e.bass)),
        treble: opt_i8(opt_str_view(e.treble)),
        loudness: opt_flag(opt_str_view(e.loudness)),
    }
}

/// Whether an AVTransport payload copies a stream event's texts.
pub open spec fn transport_data_copies(d: AVTransportData, e: AVTransportEvent) -> bool {
    &&& opt_str_view(d.transport_state) == opt_str_view(e.transport_state)
    &&& opt_str_view(d.current_track_uri) == opt_str_view(e.current_track_uri)
    &&& opt_str_view(d.track_duration) == opt_str_view(e.track_duration)
    &&& opt_str_view(d.rel_time) == opt_str_view(e.rel_time)
    &&& opt_str_view(d.track_metadata) == opt_str_view(e.track_metadata)
    &&& opt_str_view(d.play_mode) == opt_str_view(e.play_mode)
    &&& opt_str_view(d.next_track_uri) == opt_str_view(e.next_track_uri)
    &&& opt_str_view(d.next_track_metadata) == opt_str_view(e.next_track_metadata)
}

/// Whether `r` is the event a stream event becomes: same address, service
/// and time, with its payload carried over. A DeviceProperties event keeps
/// its `ZoneName` and `Icon` variables; a topology event carries no groups
/// or vanished devices; a GroupManagement event has no counterpart.
pub open spec fn converted(e: EnrichedEvent, r: Option<RawEvent>) -> bool {
    match e.event_data {
        StreamEventData::GroupManagementEvent(_) => r is None,
        _ => r matches Some(x) && x.speaker_ip == e.speaker_ip && x.service == e.service && x.timestamp
            == e.observed_at && match (e.event_data, x.data) {
            (StreamEventData::AVTransportEvent(a), EventData::AVTransport(d)) => transport_data_copies(d, a),
            (StreamEventData::RenderingControlEvent(rc), EventData::RenderingControl(d)) => d
                == rendering_data_of(rc),
            (StreamEventData::DevicePropertiesEvent(dp), EventData::DeviceProperties(d)) => {
                &&& opt_str_view(d.zone_name) == metadata_value(dp.variables@, "ZoneName"@)
                &&& opt_str_view(d.icon) == metadata_value(dp.variables@, "Icon"@)
                &&& d.invisible is None
            },
            (StreamEventData::ZoneGroupTopologyEvent(_), EventData::ZoneGroupTopology(d)) => d.zone_groups@.len()
                == 0 && d.vanished_devices@.len() == 0,
            _ => false,
        },
    }
}

/// Reads an optional `u8` text.
fn read_u8(o: &Option<String>) -> (r: Option<u8>)
    ensures
        r == opt_u8(opt_str_view(*o)),
{
    match o {
        Some(s) => parse_u8(&chars_of(s.as_str())),
        None => None,
    }
}

/// Reads an optional `i8` text.
fn read_i8(o: &Option<String>) -> (r: Option<i8>)
    ensures
        r == opt_i8(opt_str_view(*o)),
{
    match o {
        Some(s) => parse_i8(&chars_of(s.as_str())),
        None => None,
    }
}

/// Reads an optional flag text.
fn read_flag(o: &Option<String>) -> (r: Option<bool>)
    ensures
        r == opt_flag(opt_str_view(*o)),
{
    proof {
        reveal_strlit("true");
        reveal_strlit("false");
        reveal_strlit("1");
        reveal_strlit("0");
    }
    match o {
        Some(s) => {
            let t = s.as_str();
            if str_eq(t, "true") || str_eq(t, "1") {
                Some(true)
            } else if str_eq(t, "false") || str_eq(t, "0") {
                Some(false)
            } else {
                None
            }
        },
        None => None,
    }
}

/// The value of the first variable named `name`, if any.
fn variable_value(vars: &Vec<(String, String)>, name: &str) -> (r: Option<String>)
    ensures
        opt_str_view(r) == metadata_value(vars@, name@),
{
    let mut i: usize = 0;
    assert(vars@.skip(0) =~= vars@);
    while i < vars.len()
        invariant
            i <= vars.len(),
            metadata_value(vars@, name@) == metadata_value(vars@.skip(i as int), name@),
        decreases vars.len() - i,
    {
        proof {
            assert(vars@.skip(i as int)[0] == vars@[i as int]);
            assert(vars@.skip(i as int).drop_first() =~= vars@.skip(i + 1));
        }
        if str_eq(vars[i].0.as_str(), name) {
            return Some(string_of(&chars_of(vars[i].1.as_str())));
        }
        i = i + 1;
    }
    proof {
        assert(vars@.skip(i as int).len() == 0);
    }
    None
}

/// The event a stream event becomes for the decoders, if it has a
/// counterpart.
pub fn convert_enriched_to_raw_event(enriched: EnrichedEvent) -> (r: Option<RawEvent>)
    ensures
        converted(enriched, r),
{
    proof {
        reveal_strlit("ZoneName");
        reveal_strlit("Icon");
    }
    let data = match &enriched.event_data {
        StreamEventData::AVTransportEvent(a) => EventData::AVTransport(
            AVTransportData {
                transport_state: opt_str_clone(&a.transport_state),
                current_track_uri: opt_str_clone(&a.current_track_uri),
                track_duration: opt_str_clone(&a.track_duration),
                rel_time: opt_str_clone(&a.rel_time),
                track_metadata: opt_str_clone(&a.track_metadata),
                play_mode: opt_str_clone(&a.play_mode),
                next_track_uri: opt_str_clone(&a.next_track_uri),
                next_track_metadata: opt_str_clone(&a.next_track_metadata),
            },
        ),
        StreamEventData::RenderingControlEvent(rc) => EventData::RenderingControl(
            RenderingControlData {
                master_volume: read_u8(&rc.master_volume),
                master_mute: read_flag(&rc.master_mute),
                lf_volume: read_u8(&rc.lf_volume),
                rf_volume: read_u8(&rc.rf_volume),
                bass: read_i8(&rc.bass),
                treble: read_i8(&rc.treble),
                loudness: read_flag(&rc.loudness),
            },
        ),
        StreamEventData::DevicePropertiesEvent(dp) => EventData::DeviceProperties(
            DevicePropertiesData {
                zone_name: variable_value(&dp.variables, "ZoneName"),
                icon: variable_value(&dp.variables, "Icon"),
                invisible: None,
            },
        ),
        StreamEventData::ZoneGroupTopologyEvent(_) => {
            let t = TopologyData { zone_groups: Vec::new(), vanished_devices: Vec::new() };
            assert(t.zone_groups@.len() == 0);
            EventData::ZoneGroupTopology(t)
        },
        StreamEventData::GroupManagementEvent(_) => {
            return None;
        },
    };
    Some(RawEvent { speaker_ip: enriched.speaker_ip, service: enriched.service, timestamp: enriched.observed_at, data })
}

} // verus!
