//! Properties: the units of Sonos state.
//!
//! Each property has a key, a scope (speaker, group or system) and the UPnP
//! service it comes from. The values the store keeps are [`PropertyValue`]s.

use vstd::prelude::*;
use crate::ids::{GroupId, SpeakerId};
use crate::speaker::{Speaker, SpeakerView};
use crate::text::{
    chars_eq, chars_of, concat_str, contains_char, parse_u64, parse_u64_spec, split_chars,
    split_spec, views_of,
};
use crate::viewed::{
    opt_str_clone, opt_str_eq, opt_str_view, seq_view, vec_view_clone, vec_view_eq, ViewEq,
};

verus! {

// ---------------------------------------------------------------------------
// Services and scopes
// ---------------------------------------------------------------------------

/// The UPnP services a Sonos speaker offers events for.
#[derive(Debug, Clone, Copy, PartialEq, Eq, Structural, Hash)]
pub enum Service {
    RenderingControl,
    AVTransport,
    ZoneGroupTopology,
    GroupRenderingControl,
    DeviceProperties,
    GroupManagement,
}

/// Which speaker of a group a service's state belongs to.
#[derive(Debug, Clone, Copy, PartialEq, Eq, Structural)]
pub enum ServiceScope {
    /// Each speaker has its own state (volume, EQ).
    PerSpeaker,
    /// The group coordinator owns the state for the whole group (transport).
    PerCoordinator,
    /// One state for the whole household (topology).
    PerNetwork,
}

impl View for Service {
    type V = Service;

    open spec fn view(&self) -> Service {
        *self
    }
}

impl ViewEq for Service {
    fn view_eq(&self, other: &Self) -> (r: bool) {
        *self == *other
    }

    fn view_clone(&self) -> (r: Self) {
        *self
    }
}

impl Service {
    /// The scope of a service.
    pub open spec fn scope_spec(self) -> ServiceScope {
        match self {
            Service::RenderingControl => ServiceScope::PerSpeaker,
            Service::DeviceProperties => ServiceScope::PerSpeaker,
            Service::AVTransport => ServiceScope::PerCoordinator,
            Service::GroupRenderingControl => ServiceScope::PerCoordinator,
            Service::GroupManagement => ServiceScope::PerCoordinator,
            Service::ZoneGroupTopology => ServiceScope::PerNetwork,
        }
    }

    /// The scope of this service.
    pub fn scope(&self) -> (r: ServiceScope)
        ensures
            r == self.scope_spec(),
    {
        match self {
            Service::RenderingControl => ServiceScope::PerSpeaker,
            Service::DeviceProperties => ServiceScope::PerSpeaker,
            Service::AVTransport => ServiceScope::PerCoordinator,
            Service::GroupRenderingControl => ServiceScope::PerCoordinator,
            Service::GroupManagement => ServiceScope::PerCoordinator,
            Service::ZoneGroupTopology => ServiceScope::PerNetwork,
        }
    }
}

/// Scope of a property: where it is stored and how it is queried.
#[derive(Debug, Clone, Copy, PartialEq, Eq, Structural, Hash)]
pub enum Scope {
    /// Property belongs to individual speakers (e.g., volume, mute)
    Speaker,
    /// Property belongs to groups/zones
    Group,
    /// Property is system-wide (e.g., topology)
    System,
}

/// The kinds of property the store keeps.
#[derive(Debug, Clone, Copy, PartialEq, Eq, Structural, Hash)]
pub enum PropertyKind {
    Volume,
    Mute,
    Bass,
    Treble,
    Loudness,
    PlaybackState,
    Position,
    CurrentTrack,
    GroupMembership,
    Topology,
}

impl PropertyKind {
    /// The key a property kind is known by.
    pub open spec fn key_spec(self) -> Seq<char> {
        match self {
            PropertyKind::Volume => "volume"@,
            PropertyKind::Mute => "mute"@,
            PropertyKind::Bass => "bass"@,
            PropertyKind::Treble => "treble"@,
            PropertyKind::Loudness => "loudness"@,
            PropertyKind::PlaybackState => "playback_state"@,
            PropertyKind::Position => "position"@,
            PropertyKind::CurrentTrack => "current_track"@,
            PropertyKind::GroupMembership => "group_membership"@,
            PropertyKind::Topology => "topology"@,
        }
    }

    /// The key of this property kind.
    pub fn key(&self) -> (r: &'static str)
        ensures
            r@ == self.key_spec(),
    {
        match self {
            PropertyKind::Volume => "volume",
            PropertyKind::Mute => "mute",
            PropertyKind::Bass => "bass",
            PropertyKind::Treble => "treble",
            PropertyKind::Loudness => "loudness",
            PropertyKind::PlaybackState => "playback_state",
            PropertyKind::Position => "position",
            PropertyKind::CurrentTrack => "current_track",
            PropertyKind::GroupMembership => "group_membership",
            PropertyKind::Topology => "topology",
        }
    }

    /// The scope of a property kind.
    pub open spec fn scope_spec(self) -> Scope {
        match self {
            PropertyKind::Topology => Scope::System,
            _ => Scope::Speaker,
        }
    }

    /// The scope of this property kind.
    pub fn scope(&self) -> (r: Scope)
        ensures
            r == self.scope_spec(),
    {
        match self {
            PropertyKind::Topology => Scope::System,
            _ => Scope::Speaker,
        }
    }

    /// The service a property kind comes from.
    pub open spec fn service_spec(self) -> Service {
        match self {
            PropertyKind::Volume => Service::RenderingControl,
            PropertyKind::Mute => Service::RenderingControl,
            PropertyKind::Bass => Service::RenderingControl,
            PropertyKind::Treble => Service::RenderingControl,
            PropertyKind::Loudness => Service::RenderingControl,
            PropertyKind::PlaybackState => Service::AVTransport,
            PropertyKind::Position => Service::AVTransport,
            PropertyKind::CurrentTrack => Service::AVTransport,
            PropertyKind::GroupMembership => Service::ZoneGroupTopology,
            PropertyKind::Topology => Service::ZoneGroupTopology,
        }
    }

    /// The service this property kind comes from.
    pub fn service(&self) -> (r: Service)
        ensures
            r == self.service_spec(),
    {
        match self {
            PropertyKind::Volume => Service::RenderingControl,
            PropertyKind::Mute => Service::RenderingControl,
            PropertyKind::Bass => Service::RenderingControl,
            PropertyKind::Treble => Service::RenderingControl,
            PropertyKind::Loudness => Service::RenderingControl,
            PropertyKind::PlaybackState => Service::AVTransport,
            PropertyKind::Position => Service::AVTransport,
            PropertyKind::CurrentTrack => Service::AVTransport,
            PropertyKind::GroupMembership => Service::ZoneGroupTopology,
            PropertyKind::Topology => Service::ZoneGroupTopology,
        }
    }

    /// Whether reads and writes of this kind go through the group coordinator:
    /// a speaker-scoped property of a per-coordinator service.
    pub open spec fn resolves_to_coordinator_spec(self) -> bool {
        self.service_spec().scope_spec() == ServiceScope::PerCoordinator && self.scope_spec()
            == Scope::Speaker
    }

    /// Whether this kind is resolved through the group coordinator.
    pub fn resolves_to_coordinator(&self) -> (r: bool)
        ensures
            r == self.resolves_to_coordinator_spec(),
    {
        self.service().scope() == ServiceScope::PerCoordinator && self.scope() == Scope::Speaker
    }
}

// ---------------------------------------------------------------------------
// Speaker-scoped properties from RenderingControl
// ---------------------------------------------------------------------------

/// Master volume level (0-100)
#[derive(Debug, Clone, Copy, PartialEq, Eq, Structural)]
pub struct Volume(pub u8);

impl Volume {
    pub const KEY: &'static str = "volume";

    /// A volume, capped at 100.
    pub fn new(value: u8) -> (r: Volume)
        ensures
            r.0 == (if value > 100 { 100 } else { value }),
    {
        if value > 100 {
            Volume(100)
        } else {
            Volume(value)
        }
    }

    /// The volume level.
    pub fn value(&self) -> (r: u8)
        ensures
            r == self.0,
    {
        self.0
    }
}

/// Master mute state
#[derive(Debug, Clone, Copy, PartialEq, Eq, Structural)]
pub struct Mute(pub bool);

impl Mute {
    pub const KEY: &'static str = "mute";

    pub fn new(muted: bool) -> (r: Mute)
        ensures
            r.0 == muted,
    {
        Mute(muted)
    }

    pub fn is_muted(&self) -> (r: bool)
        ensures
            r == self.0,
    {
        self.0
    }
}

/// The value `v` clamped to the EQ range -10..=10.
pub open spec fn eq_clamp(v: i8) -> i8 {
    if v < -10 {
        -10i8
    } else if v > 10 {
        10i8
    } else {
        v
    }
}

/// Clamps an EQ setting to -10..=10.
pub fn clamp_eq(v: i8) -> (r: i8)
    ensures
        r == eq_clamp(v),
{
    if v < -10 {
        -10
    } else if v > 10 {
        10
    } else {
        v
    }
}

/// Bass EQ setting (-10 to +10)
#[derive(Debug, Clone, Copy, PartialEq, Eq, Structural)]
pub struct Bass(pub i8);

impl Bass {
    pub const KEY: &'static str = "bass";

    pub fn new(value: i8) -> (r: Bass)
        ensures
            r.0 == eq_clamp(value),
    {
        Bass(clamp_eq(value))
    }

    pub fn value(&self) -> (r: i8)
        ensures
            r == self.0,
    {
        self.0
    }
}

/// Treble EQ setting (-10 to +10)
#[derive(Debug, Clone, Copy, PartialEq, Eq, Structural)]
pub struct Treble(pub i8);

impl Treble {
    pub const KEY: &'static str = "treble";

    pub fn new(value: i8) -> (r: Treble)
        ensures
            r.0 == eq_clamp(value),
    {
        Treble(clamp_eq(value))
    }

    pub fn value(&self) -> (r: i8)
        ensures
            r == self.0,
    {
        self.0
    }
}

/// Loudness compensation setting
#[derive(Debug, Clone, Copy, PartialEq, Eq, Structural)]
pub struct Loudness(pub bool);

impl Loudness {
    pub const KEY: &'static str = "loudness";

    pub fn new(enabled: bool) -> (r: Loudness)
        ensures
            r.0 == enabled,
    {
        Loudness(enabled)
    }

    pub fn is_enabled(&self) -> (r: bool)
        ensures
            r == self.0,
    {
        self.0
    }
}

// ---------------------------------------------------------------------------
// Speaker-scoped properties from AVTransport
// ---------------------------------------------------------------------------

/// The full Unicode upper-case form of a string, as `str::to_uppercase` gives it.
pub uninterp spec fn str_uppercase(s: Seq<char>) -> Seq<char>;

/// Whether every character is ASCII.
pub open spec fn all_ascii(s: Seq<char>) -> bool {
    forall|i: int| 0 <= i < s.len() ==> (#[trigger] s[i] as u32) < 128
}

/// A character with ASCII `a`..`z` made upper-case; any other unchanged.
pub open spec fn ascii_upper_char(c: char) -> char {
    if 'a' <= c && c <= 'z' {
        ((c as u32) - 32) as char
    } else {
        c
    }
}

/// The text with ASCII letters made upper-case.
pub open spec fn ascii_upper(s: Seq<char>) -> Seq<char> {
    s.map_values(|c: char| ascii_upper_char(c))
}

/// Upper-casing ASCII text again changes nothing, and keeps it ASCII.
pub proof fn lemma_ascii_upper_idempotent(s: Seq<char>)
    requires
        all_ascii(s),
    ensures
        all_ascii(ascii_upper(s)),
        ascii_upper(ascii_upper(s)) == ascii_upper(s),
{
    assert(ascii_upper(ascii_upper(s)) =~= ascii_upper(s));
}

/// The upper-case form of a string, by `str::to_uppercase`: the full Unicode
/// mapping, named by [`str_uppercase`]; for ASCII text it maps `a`..`z` to
/// `A`..`Z` and leaves every other character as it is.
#[verifier::external_body]
pub(crate) fn to_uppercase_string(s: &str) -> (r: String)
    ensures
        r@ == str_uppercase(s@),
        all_ascii(s@) ==> r@ == ascii_upper(s@),
{
    s.to_uppercase()
}

/// Current playback state
#[derive(Debug, Clone, Copy, PartialEq, Eq, Structural)]
pub enum PlaybackState {
    Playing,
    Paused,
    Stopped,
    Transitioning,
}

/// The playback state an upper-cased transport state names; anything
/// unrecognised reads as stopped.
pub open spec fn playback_from_upper(upper: Seq<char>) -> PlaybackState {
    if upper == "PLAYING"@ {
        PlaybackState::Playing
    } else if upper == "PAUSED_PLAYBACK"@ || upper == "PAUSED"@ {
        PlaybackState::Paused
    } else if upper == "STOPPED"@ {
        PlaybackState::Stopped
    } else if upper == "TRANSITIONING"@ {
        PlaybackState::Transitioning
    } else {
        PlaybackState::Stopped
    }
}

/// The transport states UPnP names, read from their upper-case form:
/// PLAYING is playing, PAUSED_PLAYBACK and PAUSED are paused, STOPPED is
/// stopped, TRANSITIONING is a transition, and any other text is stopped.
pub proof fn lemma_transport_state_names(upper: Seq<char>)
    ensures
        upper == "PLAYING"@ ==> playback_from_upper(upper) == PlaybackState::Playing,
        upper == "PAUSED_PLAYBACK"@ ==> playback_from_upper(upper) == PlaybackState::Paused,
        upper == "PAUSED"@ ==> playback_from_upper(upper) == PlaybackState::Paused,
        upper == "STOPPED"@ ==> playback_from_upper(upper) == PlaybackState::Stopped,
        upper == "TRANSITIONING"@ ==> playback_from_upper(upper) == PlaybackState::Transitioning,
        upper != "PLAYING"@ && upper != "PAUSED_PLAYBACK"@ && upper != "PAUSED"@ && upper != "TRANSITIONING"@
            ==> playback_from_upper(upper) == PlaybackState::Stopped,
{
    reveal_strlit("PLAYING");
    reveal_strlit("PAUSED_PLAYBACK");
    reveal_strlit("PAUSED");
    reveal_strlit("STOPPED");
    reveal_strlit("TRANSITIONING");
    assert("PAUSED_PLAYBACK"@.len() != "PLAYING"@.len());
    assert("PAUSED"@.len() != "PLAYING"@.len());
    assert("STOPPED"@[0] != "PLAYING"@[0]);
    assert("STOPPED"@.len() != "PAUSED"@.len());
    assert("STOPPED"@.len() != "PAUSED_PLAYBACK"@.len());
    assert("TRANSITIONING"@.len() != "PLAYING"@.len());
    assert("TRANSITIONING"@.len() != "PAUSED"@.len());
    assert("TRANSITIONING"@.len() != "PAUSED_PLAYBACK"@.len());
    assert("TRANSITIONING"@.len() != "STOPPED"@.len());
}

/// Compares a character sequence with a string literal.
pub fn chars_eq_str(a: &[char], lit: &str) -> (r: bool)
    ensures
        r == (a@ == lit@),
{
    let b = chars_of(lit);
    chars_eq(a, &b)
}

impl Default for PlaybackState {
    /// Stopped.
    fn default() -> (r: PlaybackState)
        ensures
            r == PlaybackState::Stopped,
    {
        PlaybackState::Stopped
    }
}

impl PlaybackState {
    pub const KEY: &'static str = "playback_state";

    /// Maps an already upper-cased UPnP transport state to a playback state.
    pub fn from_upper_transport_state(upper: &str) -> (r: PlaybackState)
        ensures
            r == playback_from_upper(upper@),
    {
        let u = chars_of(upper);
        if chars_eq_str(&u, "PLAYING") {
            PlaybackState::Playing
        } else if chars_eq_str(&u, "PAUSED_PLAYBACK") || chars_eq_str(&u, "PAUSED") {
            PlaybackState::Paused
        } else if chars_eq_str(&u, "STOPPED") {
            PlaybackState::Stopped
        } else if chars_eq_str(&u, "TRANSITIONING") {
            PlaybackState::Transitioning
        } else {
            PlaybackState::Stopped
        }
    }

    /// Parses a UPnP transport state string, ignoring case: for ASCII text,
    /// the state its ASCII upper-case form names.
    pub fn from_transport_state(state: &str) -> (r: PlaybackState)
        ensures
            r == playback_from_upper(str_uppercase(state@)),
            all_ascii(state@) ==> r == playback_from_upper(ascii_upper(state@)),
            all_ascii(state@) ==> {
                &&& ascii_upper(state@) == "PLAYING"@ ==> r == PlaybackState::Playing
                &&& (ascii_upper(state@) == "PAUSED_PLAYBACK"@ || ascii_upper(state@) == "PAUSED"@) ==> r
                    == PlaybackState::Paused
                &&& ascii_upper(state@) == "STOPPED"@ ==> r == PlaybackState::Stopped
                &&& ascii_upper(state@) == "TRANSITIONING"@ ==> r == PlaybackState::Transitioning
            },
    {
        let upper = to_uppercase_string(state);
        proof {
            lemma_transport_state_names(upper@);
        }
        PlaybackState::from_upper_transport_state(upper.as_str())
    }

    pub fn is_playing(&self) -> (r: bool)
        ensures
            r == (*self is Playing),
    {
        match self {
            PlaybackState::Playing => true,
            _ => false,
        }
    }

    pub fn is_paused(&self) -> (r: bool)
        ensures
            r == (*self is Paused),
    {
        match self {
            PlaybackState::Paused => true,
            _ => false,
        }
    }

    pub fn is_stopped(&self) -> (r: bool)
        ensures
            r == (*self is Stopped),
    {
        match self {
            PlaybackState::Stopped => true,
            _ => false,
        }
    }
}

/// The components (hours, minutes, seconds, milliseconds) of an
/// `H:MM:SS[.mmm]` time string, read as follows: three
/// colon-separated parts, each of hours, minutes and seconds a `u64`, and the
/// text after the first `.` of the seconds part, if it parses, as milliseconds
/// (0 otherwise).
pub open spec fn time_parts(s: Seq<char>) -> Option<(nat, nat, nat, nat)> {
    let parts = split_spec(s, ':');
    if !s.contains(':') || parts.len() != 3 {
        None
    } else {
        let sec_parts = split_spec(parts[2], '.');
        match (parse_u64_spec(parts[0]), parse_u64_spec(parts[1]), parse_u64_spec(sec_parts[0])) {
            (Some(h), Some(m), Some(sec)) => {
                let millis = if sec_parts.len() > 1 {
                    match parse_u64_spec(sec_parts[1]) {
                        Some(ms) => ms,
                        None => 0,
                    }
                } else {
                    0
                };
                Some((h, m, sec, millis))
            },
            _ => None,
        }
    }
}

/// The number of milliseconds a time's components denote.
pub open spec fn time_total_ms(t: (nat, nat, nat, nat)) -> int {
    ((t.0 * 3600 + t.1 * 60 + t.2) * 1000 + t.3) as int
}

/// Whether the milliseconds a time string denotes fit in a `u64` (true when
/// the string is not a time at all).
pub open spec fn time_fits(s: Seq<char>) -> bool {
    match time_parts(s) {
        Some(t) => time_total_ms(t) <= u64::MAX,
        None => true,
    }
}

/// The milliseconds a time string denotes, or `None` if it is not a time.
pub open spec fn time_ms_spec(s: Seq<char>) -> Option<int> {
    match time_parts(s) {
        Some(t) => Some(time_total_ms(t)),
        None => None,
    }
}

/// The components of a time string (executable).
fn time_parts_exec(s: &[char]) -> (r: Option<(u64, u64, u64, u64)>)
    ensures
        r matches Some(t) ==> time_parts(s@) == Some((t.0 as nat, t.1 as nat, t.2 as nat, t.3 as nat)),
        r is None ==> time_parts(s@) is None,
{
    if !contains_char(s, ':') {
        return None;
    }
    let parts = split_chars(s, ':');
    if parts.len() != 3 {
        return None;
    }
    proof {
        assert(views_of(parts@)[0] == parts@[0]@);
        assert(views_of(parts@)[1] == parts@[1]@);
        assert(views_of(parts@)[2] == parts@[2]@);
    }
    let sec_parts = split_chars(&parts[2], '.');
    proof {
        crate::text::lemma_split_nonempty(parts@[2]@, '.');
        assert(views_of(sec_parts@)[0] == sec_parts@[0]@);
    }
    let h = parse_u64(&parts[0]);
    let m = parse_u64(&parts[1]);
    let sec = parse_u64(&sec_parts[0]);
    match (h, m, sec) {
        (Some(h), Some(m), Some(sec)) => {
            let millis = if sec_parts.len() > 1 {
                proof {
                    assert(views_of(sec_parts@)[1] == sec_parts@[1]@);
                }
                match parse_u64(&sec_parts[1]) {
                    Some(ms) => ms,
                    None => 0,
                }
            } else {
                0
            };
            Some((h, m, sec, millis))
        },
        _ => None,
    }
}

/// Whether a time string's value fits in a `u64` (executable).
pub fn time_fits_exec(s: &str) -> (r: bool)
    ensures
        r == time_fits(s@),
{
    let v = chars_of(s);
    match time_parts_exec(&v) {
        Some((h, m, sec, ms)) => {
            let total: u128 = (h as u128 * 3600 + m as u128 * 60 + sec as u128) * 1000 + ms as u128;
            total <= u64::MAX as u128
        },
        None => true,
    }
}

/// Parses a time from its characters; see [`Position::parse_time_to_ms`].
pub fn parse_time_chars(v: &[char]) -> (r: Option<u64>)
    requires
        time_fits(v@),
    ensures
        r matches Some(ms) ==> time_ms_spec(v@) == Some(ms as int),
        r is None ==> time_ms_spec(v@) is None,
{
    match time_parts_exec(v) {
        Some((h, m, sec, ms)) => {
            assert(h * 3600 <= u64::MAX && h * 3600 + m * 60 <= u64::MAX && h * 3600 + m * 60 + sec
                <= u64::MAX && (h * 3600 + m * 60 + sec) * 1000 <= u64::MAX) by (nonlinear_arith)
                requires
                    (h * 3600 + m * 60 + sec) * 1000 + ms <= u64::MAX,
            {
            }
            Some((h * 3600 + m * 60 + sec) * 1000 + ms)
        },
        None => None,
    }
}

/// Current playback position and duration
#[derive(Debug, Clone, Copy, PartialEq, Eq, Structural)]
pub struct Position {
    /// Current position in milliseconds
    pub position_ms: u64,
    /// Total duration in milliseconds
    pub duration_ms: u64,
}

impl Position {
    pub const KEY: &'static str = "position";

    pub fn new(position_ms: u64, duration_ms: u64) -> (r: Position)
        ensures
            r.position_ms == position_ms,
            r.duration_ms == duration_ms,
    {
        Position { position_ms, duration_ms }
    }

    /// Parses a time string (`H:MM:SS` or `H:MM:SS.mmm`) to milliseconds.
    pub fn parse_time_to_ms(time_str: &str) -> (r: Option<u64>)
        requires
            time_fits(time_str@),
        ensures
            r matches Some(ms) ==> time_ms_spec(time_str@) == Some(ms as int),
            r is None ==> time_ms_spec(time_str@) is None,
    {
        let v = chars_of(time_str);
        parse_time_chars(&v)
    }
}

/// Information about the currently playing track
#[derive(Debug)]
pub struct CurrentTrack {
    pub title: Option<String>,
    pub artist: Option<String>,
    pub album: Option<String>,
    pub album_art_uri: Option<String>,
    pub uri: Option<String>,
}

/// The abstract content of a [`CurrentTrack`].
pub struct CurrentTrackView {
    pub title: Option<Seq<char>>,
    pub artist: Option<Seq<char>>,
    pub album: Option<Seq<char>>,
    pub album_art_uri: Option<Seq<char>>,
    pub uri: Option<Seq<char>>,
}

impl View for CurrentTrack {
    type V = CurrentTrackView;

    open spec fn view(&self) -> CurrentTrackView {
        CurrentTrackView {
            title: opt_str_view(self.title),
            artist: opt_str_view(self.artist),
            album: opt_str_view(self.album),
            album_art_uri: opt_str_view(self.album_art_uri),
            uri: opt_str_view(self.uri),
        }
    }
}

impl ViewEq for CurrentTrack {
    fn view_eq(&self, other: &Self) -> (r: bool) {
        opt_str_eq(&self.title, &other.title) && opt_str_eq(&self.artist, &other.artist)
            && opt_str_eq(&self.album, &other.album) && opt_str_eq(
            &self.album_art_uri,
            &other.album_art_uri,
        ) && opt_str_eq(&self.uri, &other.uri)
    }

    fn view_clone(&self) -> (r: Self) {
        CurrentTrack {
            title: opt_str_clone(&self.title),
            artist: opt_str_clone(&self.artist),
            album: opt_str_clone(&self.album),
            album_art_uri: opt_str_clone(&self.album_art_uri),
            uri: opt_str_clone(&self.uri),
        }
    }
}

impl Clone for CurrentTrack {
    fn clone(&self) -> (r: Self)
        ensures
            r@ == self@,
    {
        self.view_clone()
    }
}

impl PartialEq for CurrentTrack {
    fn eq(&self, other: &Self) -> (r: bool) {
        self.view_eq(other)
    }
}

impl vstd::std_specs::cmp::PartialEqSpecImpl for CurrentTrack {
    open spec fn obeys_eq_spec() -> bool {
        true
    }

    open spec fn eq_spec(&self, other: &CurrentTrack) -> bool {
        self@ == other@
    }
}

/// The display text of a track: "artist - title", or whichever of the two
/// is known, or "Unknown".
pub open spec fn track_display_spec(t: CurrentTrackView) -> Seq<char> {
    match (t.artist, t.title) {
        (Some(artist), Some(title)) => artist + " - "@ + title,
        (None, Some(title)) => title,
        (Some(artist), None) => artist,
        (None, None) => "Unknown"@,
    }
}

impl CurrentTrack {
    pub const KEY: &'static str = "current_track";

    /// A track with nothing known about it.
    pub fn new() -> (r: CurrentTrack)
        ensures
            r@.title is None,
            r@.artist is None,
            r@.album is None,
            r@.album_art_uri is None,
            r@.uri is None,
    {
        CurrentTrack { title: None, artist: None, album: None, album_art_uri: None, uri: None }
    }

    /// Whether the track has any meaningful content.
    pub fn is_empty(&self) -> (r: bool)
        ensures
            r == (self.title is None && self.artist is None && self.uri is None),
    {
        self.title.is_none() && self.artist.is_none() && self.uri.is_none()
    }

    /// A display string for the track.
    pub fn display(&self) -> (r: String)
        ensures
            r@ == track_display_spec(self@),
    {
        match (&self.artist, &self.title) {
            (Some(artist), Some(title)) => {
                let head = concat_str(artist.as_str(), " - ");
                concat_str(head.as_str(), title.as_str())
            },
            (None, Some(title)) => title.clone(),
            (Some(artist), None) => artist.clone(),
            (None, None) => {
                let v = chars_of("Unknown");
                crate::text::string_of(&v)
            },
        }
    }
}

impl CurrentTrack {
    /// The same as [`CurrentTrack::new`].
    pub fn default() -> (r: CurrentTrack)
        ensures
            r@.title is None,
            r@.artist is None,
            r@.album is None,
            r@.album_art_uri is None,
            r@.uri is None,
    {
        CurrentTrack::new()
    }
}

// ---------------------------------------------------------------------------
// Group membership and topology
// ---------------------------------------------------------------------------

/// Speaker's group membership: every speaker is in a group, possibly of one.
#[derive(Debug)]
pub struct GroupMembership {
    /// ID of the group this speaker belongs to
    pub group_id: GroupId,
    /// Whether this speaker is the coordinator of its group
    pub is_coordinator: bool,
}

/// The abstract content of a [`GroupMembership`].
pub struct GroupMembershipView {
    pub group_id: Seq<char>,
    pub is_coordinator: bool,
}

impl View for GroupMembership {
    type V = GroupMembershipView;

    open spec fn view(&self) -> GroupMembershipView {
        GroupMembershipView { group_id: self.group_id@, is_coordinator: self.is_coordinator }
    }
}

impl ViewEq for GroupMembership {
    fn view_eq(&self, other: &Self) -> (r: bool) {
        self.group_id.view_eq(&other.group_id) && self.is_coordinator == other.is_coordinator
    }

    fn view_clone(&self) -> (r: Self) {
        GroupMembership { group_id: self.group_id.view_clone(), is_coordinator: self.is_coordinator }
    }
}

impl Clone for GroupMembership {
    fn clone(&self) -> (r: Self)
        ensures
            r@ == self@,
    {
        self.view_clone()
    }
}

impl PartialEq for GroupMembership {
    fn eq(&self, other: &Self) -> (r: bool) {
        self.view_eq(other)
    }
}

impl vstd::std_specs::cmp::PartialEqSpecImpl for GroupMembership {
    open spec fn obeys_eq_spec() -> bool {
        true
    }

    open spec fn eq_spec(&self, other: &GroupMembership) -> bool {
        self@ == other@
    }
}

impl GroupMembership {
    pub const KEY: &'static str = "group_membership";

    /// A membership in `group_id`, as coordinator or not.
    pub fn new(group_id: GroupId, is_coordinator: bool) -> (r: GroupMembership)
        ensures
            r@.group_id == group_id@,
            r@.is_coordinator == is_coordinator,
    {
        GroupMembership { group_id, is_coordinator }
    }
}

/// Group information for topology
#[derive(Debug)]
pub struct GroupInfo {
    pub id: GroupId,
    pub coordinator_id: SpeakerId,
    pub member_ids: Vec<SpeakerId>,
}

/// The abstract content of a [`GroupInfo`].
pub struct GroupInfoView {
    pub id: Seq<char>,
    pub coordinator_id: Seq<char>,
    pub member_ids: Seq<Seq<char>>,
}

impl View for GroupInfo {
    type V = GroupInfoView;

    open spec fn view(&self) -> GroupInfoView {
        GroupInfoView {
            id: self.id@,
            coordinator_id: self.coordinator_id@,
            member_ids: seq_view(self.member_ids@),
        }
    }
}

impl ViewEq for GroupInfo {
    fn view_eq(&self, other: &Self) -> (r: bool) {
        self.id.view_eq(&other.id) && self.coordinator_id.view_eq(&other.coordinator_id)
            && vec_view_eq(&self.member_ids, &other.member_ids)
    }

    fn view_clone(&self) -> (r: Self) {
        GroupInfo {
            id: self.id.view_clone(),
            coordinator_id: self.coordinator_id.view_clone(),
            member_ids: vec_view_clone(&self.member_ids),
        }
    }
}

impl Clone for GroupInfo {
    fn clone(&self) -> (r: Self)
        ensures
            r@ == self@,
    {
        self.view_clone()
    }
}

impl PartialEq for GroupInfo {
    fn eq(&self, other: &Self) -> (r: bool) {
        self.view_eq(other)
    }
}

impl vstd::std_specs::cmp::PartialEqSpecImpl for GroupInfo {
    open spec fn obeys_eq_spec() -> bool {
        true
    }

    open spec fn eq_spec(&self, other: &GroupInfo) -> bool {
        self@ == other@
    }
}

impl GroupInfo {
    pub fn new(id: GroupId, coordinator_id: SpeakerId, member_ids: Vec<SpeakerId>) -> (r: GroupInfo)
        ensures
            r@.id == id@,
            r@.coordinator_id == coordinator_id@,
            r@.member_ids == seq_view(member_ids@),
    {
        GroupInfo { id, coordinator_id, member_ids }
    }

    /// Whether the group has exactly one member.
    pub fn is_standalone(&self) -> (r: bool)
        ensures
            r == (self.member_ids@.len() == 1),
    {
        self.member_ids.len() == 1
    }
}

/// System-wide topology of all speakers and groups
#[derive(Debug)]
pub struct Topology {
    pub speakers: Vec<Speaker>,
    pub groups: Vec<GroupInfo>,
}

/// The abstract content of a [`Topology`].
pub struct TopologyView {
    pub speakers: Seq<SpeakerView>,
    pub groups: Seq<GroupInfoView>,
}

impl View for Topology {
    type V = TopologyView;

    open spec fn view(&self) -> TopologyView {
        TopologyView { speakers: seq_view(self.speakers@), groups: seq_view(self.groups@) }
    }
}

impl ViewEq for Topology {
    fn view_eq(&self, other: &Self) -> (r: bool) {
        vec_view_eq(&self.speakers, &other.speakers) && vec_view_eq(&self.groups, &other.groups)
    }

    fn view_clone(&self) -> (r: Self) {
        Topology {
            speakers: vec_view_clone(&self.speakers),
            groups: vec_view_clone(&self.groups),
        }
    }
}

impl Clone for Topology {
    fn clone(&self) -> (r: Self)
        ensures
            r@ == self@,
    {
        self.view_clone()
    }
}

impl PartialEq for Topology {
    fn eq(&self, other: &Self) -> (r: bool) {
        self.view_eq(other)
    }
}

impl vstd::std_specs::cmp::PartialEqSpecImpl for Topology {
    open spec fn obeys_eq_spec() -> bool {
        true
    }

    open spec fn eq_spec(&self, other: &Topology) -> bool {
        self@ == other@
    }
}

impl Topology {
    pub const KEY: &'static str = "topology";

    pub fn new(speakers: Vec<Speaker>, groups: Vec<GroupInfo>) -> (r: Topology)
        ensures
            r@.speakers == seq_view(speakers@),
            r@.groups == seq_view(groups@),
    {
        Topology { speakers, groups }
    }

    /// A topology with no speakers and no groups.
    pub fn empty() -> (r: Topology)
        ensures
            r@.speakers.len() == 0,
            r@.groups.len() == 0,
    {
        Topology { speakers: Vec::new(), groups: Vec::new() }
    }

    pub fn default() -> (r: Topology)
        ensures
            r@.speakers.len() == 0,
            r@.groups.len() == 0,
    {
        Topology::empty()
    }

    pub fn speaker_count(&self) -> (r: usize)
        ensures
            r == self.speakers@.len(),
    {
        self.speakers.len()
    }

    pub fn group_count(&self) -> (r: usize)
        ensures
            r == self.groups@.len(),
    {
        self.groups.len()
    }
}

} // verus!
