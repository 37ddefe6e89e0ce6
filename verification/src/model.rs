//! Model types: groups of speaker references, track information, a speaker's
//! cached state, and the state changes a cache reports.

use vstd::prelude::*;
use crate::ids::{GroupId, SpeakerId};
use crate::speaker::{Speaker, SpeakerView};
use crate::viewed::{opt_str_clone, opt_str_eq, opt_str_view, seq_view, vec_view_clone, vec_view_eq, ViewEq};

pub use crate::property::PlaybackState;

verus! {

// ---------------------------------------------------------------------------
// SpeakerRef
// ---------------------------------------------------------------------------

/// Reference to a speaker within a group, including satellite information.
#[derive(Debug)]
pub struct SpeakerRef {
    id: SpeakerId,
    satellite_ids: Vec<SpeakerId>,
}

/// The abstract content of a [`SpeakerRef`].
pub struct SpeakerRefView {
    pub id: Seq<char>,
    pub satellite_ids: Seq<Seq<char>>,
}

impl View for SpeakerRef {
    type V = SpeakerRefView;

    closed spec fn view(&self) -> SpeakerRefView {
        SpeakerRefView { id: self.id@, satellite_ids: seq_view(self.satellite_ids@) }
    }
}

impl ViewEq for SpeakerRef {
    fn view_eq(&self, other: &Self) -> (r: bool) {
        self.id.view_eq(&other.id) && vec_view_eq(&self.satellite_ids, &other.satellite_ids)
    }

    fn view_clone(&self) -> (r: Self) {
        SpeakerRef { id: self.id.view_clone(), satellite_ids: vec_view_clone(&self.satellite_ids) }
    }
}

impl Clone for SpeakerRef {
    fn clone(&self) -> (r: Self)
        ensures
            r@ == self@,
    {
        self.view_clone()
    }
}

impl SpeakerRef {
    /// A reference to speaker `id` with the given satellites.
    pub fn new(id: SpeakerId, satellite_ids: Vec<SpeakerId>) -> (r: SpeakerRef)
        ensures
            r@.id == id@,
            r@.satellite_ids == seq_view(satellite_ids@),
    {
        SpeakerRef { id, satellite_ids }
    }

    /// The speaker ID.
    pub fn get_id(&self) -> (r: &SpeakerId)
        ensures
            r@ == self@.id,
    {
        &self.id
    }

    /// The satellite speaker IDs.
    pub fn get_satellites(&self) -> (r: &[SpeakerId])
        ensures
            seq_view(r@) == self@.satellite_ids,
    {
        self.satellite_ids.as_slice()
    }

    /// Whether this speaker has satellites.
    pub fn has_satellites(&self) -> (r: bool)
        ensures
            r == (self@.satellite_ids.len() > 0),
    {
        self.satellite_ids.len() > 0
    }
}

/// The views of a list of speaker references.
pub open spec fn refs_view(s: Seq<SpeakerRef>) -> Seq<SpeakerRefView> {
    s.map_values(|m: SpeakerRef| m@)
}

// ---------------------------------------------------------------------------
// Group
// ---------------------------------------------------------------------------

/// A zone group containing one or more speakers.
#[derive(Debug)]
pub struct Group {
    id: GroupId,
    coordinator_id: SpeakerId,
    members: Vec<SpeakerRef>,
}

/// The abstract content of a [`Group`].
pub struct GroupView {
    pub id: Seq<char>,
    pub coordinator_id: Seq<char>,
    pub members: Seq<SpeakerRefView>,
}

impl View for Group {
    type V = GroupView;

    closed spec fn view(&self) -> GroupView {
        GroupView { id: self.id@, coordinator_id: self.coordinator_id@, members: refs_view(self.members@) }
    }
}

impl ViewEq for Group {
    fn view_eq(&self, other: &Self) -> (r: bool) {
        self.id.view_eq(&other.id) && self.coordinator_id.view_eq(&other.coordinator_id)
            && vec_view_eq(&self.members, &other.members)
    }

    fn view_clone(&self) -> (r: Self) {
        let members = vec_view_clone(&self.members);
        let r = Group {
            id: self.id.view_clone(),
            coordinator_id: self.coordinator_id.view_clone(),
            members,
        };
        proof {
            assert(refs_view(r.members@) =~= refs_view(self.members@)) by {
                assert forall|i: int| 0 <= i < r.members@.len() implies refs_view(r.members@)[i] == refs_view(self.members@)[i] by {
                    assert(seq_view(r.members@)[i] == seq_view(self.members@)[i]);
                }
            }
        }
        r
    }
}

impl Clone for Group {
    fn clone(&self) -> (r: Self)
        ensures
            r@ == self@,
    {
        self.view_clone()
    }
}

impl Group {
    /// A group with the given id, coordinator and members.
    pub fn new(id: GroupId, coordinator_id: SpeakerId, members: Vec<SpeakerRef>) -> (r: Group)
        ensures
            r@.id == id@,
            r@.coordinator_id == coordinator_id@,
            r@.members == refs_view(members@),
    {
        Group { id, coordinator_id, members }
    }

    /// The group ID.
    pub fn get_id(&self) -> (r: &GroupId)
        ensures
            r@ == self@.id,
    {
        &self.id
    }

    /// The coordinator speaker ID.
    pub fn get_coordinator_id(&self) -> (r: &SpeakerId)
        ensures
            r@ == self@.coordinator_id,
    {
        &self.coordinator_id
    }

    /// All group members.
    pub fn get_members(&self) -> (r: &[SpeakerRef])
        ensures
            refs_view(r@) == self@.members,
    {
        self.members.as_slice()
    }

    /// The number of members.
    pub fn member_count(&self) -> (r: usize)
        ensures
            r == self@.members.len(),
    {
        self.members.len()
    }

    /// Whether this is a standalone speaker (a group of one).
    pub fn is_standalone(&self) -> (r: bool)
        ensures
            r == (self@.members.len() == 1),
    {
        self.members.len() == 1
    }

    /// Whether a speaker is a member of this group.
    pub fn contains_speaker(&self, speaker_id: &SpeakerId) -> (r: bool)
        ensures
            r == exists|i: int| 0 <= i < self@.members.len() && #[trigger] self@.members[i].id == speaker_id@,
    {
        let mut i: usize = 0;
        while i < self.members.len()
            invariant
                i <= self.members.len(),
                forall|j: int| 0 <= j < i ==> #[trigger] self@.members[j].id != speaker_id@,
            decreases self.members.len() - i,
        {
            assert(self@.members[i as int] == self.members@[i as int]@);
            if self.members[i].get_id().view_eq(speaker_id) {
                return true;
            }
            i = i + 1;
        }
        false
    }
}

// ---------------------------------------------------------------------------
// TrackInfo
// ---------------------------------------------------------------------------

/// Information about a track (song, episode, ...).
#[derive(Debug)]
pub struct TrackInfo {
    /// Track title
    pub title: Option<String>,
    /// Artist name
    pub artist: Option<String>,
    /// Album name
    pub album: Option<String>,
    /// Track duration in milliseconds
    pub duration_ms: Option<u64>,
    /// Track URI
    pub uri: Option<String>,
    /// Album art URI
    pub album_art_uri: Option<String>,
}

/// The abstract content of a [`TrackInfo`].
pub struct TrackInfoView {
    pub title: Option<Seq<char>>,
    pub artist: Option<Seq<char>>,
    pub album: Option<Seq<char>>,
    pub duration_ms: Option<u64>,
    pub uri: Option<Seq<char>>,
    pub album_art_uri: Option<Seq<char>>,
}

impl View for TrackInfo {
    type V = TrackInfoView;

    open spec fn view(&self) -> TrackInfoView {
        TrackInfoView {
            title: opt_str_view(self.title),
            artist: opt_str_view(self.artist),
            album: opt_str_view(self.album),
            duration_ms: self.duration_ms,
            uri: opt_str_view(self.uri),
            album_art_uri: opt_str_view(self.album_art_uri),
        }
    }
}

impl ViewEq for TrackInfo {
    fn view_eq(&self, other: &Self) -> (r: bool) {
        opt_str_eq(&self.title, &other.title) && opt_str_eq(&self.artist, &other.artist)
            && opt_str_eq(&self.album, &other.album) && self.duration_ms == other.duration_ms
            && opt_str_eq(&self.uri, &other.uri) && opt_str_eq(&self.album_art_uri, &other.album_art_uri)
    }

    fn view_clone(&self) -> (r: Self) {
        TrackInfo {
            title: opt_str_clone(&self.title),
            artist: opt_str_clone(&self.artist),
            album: opt_str_clone(&self.album),
            duration_ms: self.duration_ms,
            uri: opt_str_clone(&self.uri),
            album_art_uri: opt_str_clone(&self.album_art_uri),
        }
    }
}

impl Clone for TrackInfo {
    fn clone(&self) -> (r: Self)
        ensures
            r@ == self@,
    {
        self.view_clone()
    }
}

impl Default for TrackInfo {
    /// Nothing known.
    fn default() -> (r: TrackInfo)
        ensures
            r@ == empty_track_spec(),
    {
        TrackInfo { title: None, artist: None, album: None, duration_ms: None, uri: None, album_art_uri: None }
    }
}

/// A track about which nothing is known.
pub open spec fn empty_track_spec() -> TrackInfoView {
    TrackInfoView { title: None, artist: None, album: None, duration_ms: None, uri: None, album_art_uri: None }
}

/// Whether two tracks are the same track: by URI when both have one,
/// otherwise by title, artist and album.
pub open spec fn same_track(a: TrackInfoView, b: TrackInfoView) -> bool {
    if a.uri is Some && b.uri is Some {
        a.uri == b.uri
    } else {
        a.title == b.title && a.artist == b.artist && a.album == b.album
    }
}

impl PartialEq for TrackInfo {
    fn eq(&self, other: &Self) -> (r: bool) {
        if self.uri.is_some() && other.uri.is_some() {
            opt_str_eq(&self.uri, &other.uri)
        } else {
            opt_str_eq(&self.title, &other.title) && opt_str_eq(&self.artist, &other.artist)
                && opt_str_eq(&self.album, &other.album)
        }
    }
}

impl vstd::std_specs::cmp::PartialEqSpecImpl for TrackInfo {
    open spec fn obeys_eq_spec() -> bool {
        true
    }

    open spec fn eq_spec(&self, other: &TrackInfo) -> bool {
        same_track(self@, other@)
    }
}

impl TrackInfo {
    /// An empty track.
    pub fn new() -> (r: TrackInfo)
        ensures
            r@ == empty_track_spec(),
    {
        TrackInfo::default()
    }

    /// A track with only a title.
    pub fn with_title(title: &str) -> (r: TrackInfo)
        ensures
            r@ == (TrackInfoView { title: Some(title@), ..empty_track_spec() }),
    {
        TrackInfo {
            title: Some(title.to_owned()),
            artist: None,
            album: None,
            duration_ms: None,
            uri: None,
            album_art_uri: None,
        }
    }

    /// Whether the track has no title, artist, album or URI.
    pub fn is_empty(&self) -> (r: bool)
        ensures
            r == (self@.title is None && self@.artist is None && self@.album is None && self@.uri is None),
    {
        self.title.is_none() && self.artist.is_none() && self.album.is_none() && self.uri.is_none()
    }
}

/// The view of an optional track.
pub open spec fn opt_track_view(t: Option<TrackInfo>) -> Option<TrackInfoView> {
    match t {
        Some(x) => Some(x@),
        None => None,
    }
}

// ---------------------------------------------------------------------------
// SpeakerState
// ---------------------------------------------------------------------------

/// Complete cached state of a speaker, with playback and group information.
#[derive(Debug)]
pub struct SpeakerState {
    /// The speaker device information
    pub speaker: Speaker,
    /// Current playback state
    pub playback_state: PlaybackState,
    /// Current volume (0-100)
    pub volume: u8,
    /// Whether the speaker is muted
    pub muted: bool,
    /// Current playback position in milliseconds
    pub position_ms: u64,
    /// Current track duration in milliseconds
    pub duration_ms: u64,
    /// Whether this speaker is the coordinator of its group
    pub is_coordinator: bool,
    /// The group this speaker belongs to
    pub group_id: Option<GroupId>,
    /// Current track information
    pub current_track: Option<TrackInfo>,
}

/// The abstract content of a [`SpeakerState`].
pub struct SpeakerStateView {
    pub speaker: SpeakerView,
    pub playback_state: PlaybackState,
    pub volume: u8,
    pub muted: bool,
    pub position_ms: u64,
    pub duration_ms: u64,
    pub is_coordinator: bool,
    pub group_id: Option<Seq<char>>,
    pub current_track: Option<TrackInfoView>,
}

/// The view of an optional group id.
pub open spec fn opt_group_view(g: Option<GroupId>) -> Option<Seq<char>> {
    match g {
        Some(x) => Some(x@),
        None => None,
    }
}

impl View for SpeakerState {
    type V = SpeakerStateView;

    open spec fn view(&self) -> SpeakerStateView {
        SpeakerStateView {
            speaker: self.speaker@,
            playback_state: self.playback_state,
            volume: self.volume,
            muted: self.muted,
            position_ms: self.position_ms,
            duration_ms: self.duration_ms,
            is_coordinator: self.is_coordinator,
            group_id: opt_group_view(self.group_id),
            current_track: opt_track_view(self.current_track),
        }
    }
}

impl ViewEq for SpeakerState {
    fn view_eq(&self, other: &Self) -> (r: bool) {
        let same_group = match (&self.group_id, &other.group_id) {
            (Some(a), Some(b)) => a.view_eq(b),
            (None, None) => true,
            _ => false,
        };
        let same_track = match (&self.current_track, &other.current_track) {
            (Some(a), Some(b)) => a.view_eq(b),
            (None, None) => true,
            _ => false,
        };
        self.speaker.view_eq(&other.speaker) && self.playback_state == other.playback_state
            && self.volume == other.volume && self.muted == other.muted && self.position_ms
            == other.position_ms && self.duration_ms == other.duration_ms && self.is_coordinator
            == other.is_coordinator && same_group && same_track
    }

    fn view_clone(&self) -> (r: Self) {
        SpeakerState {
            speaker: self.speaker.view_clone(),
            playback_state: self.playback_state,
            volume: self.volume,
            muted: self.muted,
            position_ms: self.position_ms,
            duration_ms: self.duration_ms,
            is_coordinator: self.is_coordinator,
            group_id: match &self.group_id {
                Some(g) => Some(g.view_clone()),
                None => None,
            },
            current_track: match &self.current_track {
                Some(t) => Some(t.view_clone()),
                None => None,
            },
        }
    }
}

impl Clone for SpeakerState {
    fn clone(&self) -> (r: Self)
        ensures
            r@ == self@,
    {
        self.view_clone()
    }
}

/// The state of a speaker nothing has been observed about yet.
pub open spec fn initial_speaker_state(speaker: SpeakerView) -> SpeakerStateView {
    SpeakerStateView {
        speaker,
        playback_state: PlaybackState::Stopped,
        volume: 0,
        muted: false,
        position_ms: 0,
        duration_ms: 0,
        is_coordinator: false,
        group_id: None,
        current_track: None,
    }
}

impl SpeakerState {
    /// The initial state of a speaker: stopped, volume 0, unmuted, at the
    /// start, in no group, with no track.
    pub fn new(speaker: Speaker) -> (r: SpeakerState)
        ensures
            r@ == initial_speaker_state(speaker@),
    {
        SpeakerState {
            speaker,
            playback_state: PlaybackState::default(),
            volume: 0,
            muted: false,
            position_ms: 0,
            duration_ms: 0,
            is_coordinator: false,
            group_id: None,
            current_track: None,
        }
    }

    /// The speaker ID.
    pub fn get_id(&self) -> (r: &SpeakerId)
        ensures
            r@ == self@.speaker.id,
    {
        self.speaker.get_id()
    }

    /// Whether the speaker is playing.
    pub fn is_playing(&self) -> (r: bool)
        ensures
            r == (self@.playback_state == PlaybackState::Playing),
    {
        self.playback_state == PlaybackState::Playing
    }
}

// ---------------------------------------------------------------------------
// StateChange
// ---------------------------------------------------------------------------

/// A state change consumers can react to.
#[derive(Debug)]
pub enum StateChange {
    /// Volume changed on a speaker
    VolumeChanged { speaker_id: SpeakerId, old_volume: u8, new_volume: u8 },
    /// Mute state changed on a speaker
    MuteChanged { speaker_id: SpeakerId, muted: bool },
    /// Playback state changed on a speaker
    PlaybackStateChanged { speaker_id: SpeakerId, old_state: PlaybackState, new_state: PlaybackState },
    /// Track position changed
    PositionChanged { speaker_id: SpeakerId, position_ms: u64, duration_ms: u64 },
    /// Current track changed
    TrackChanged { speaker_id: SpeakerId, old_track: Option<TrackInfo>, new_track: Option<TrackInfo> },
    /// Zone group topology changed
    GroupsChanged { old_groups: Vec<Group>, new_groups: Vec<Group> },
    /// A new speaker was discovered and added to state
    SpeakerAdded { speaker_id: SpeakerId },
    /// A speaker went offline or was removed
    SpeakerRemoved { speaker_id: SpeakerId },
    /// Full state initialized
    StateInitialized { speaker_count: usize, group_count: usize },
    /// Error occurred during event processing
    ProcessingError { speaker_id: Option<SpeakerId>, service: Option<String>, error: String },
}

/// The abstract content of a [`StateChange`].
pub enum StateChangeView {
    VolumeChanged { speaker_id: Seq<char>, old_volume: u8, new_volume: u8 },
    MuteChanged { speaker_id: Seq<char>, muted: bool },
    PlaybackStateChanged { speaker_id: Seq<char>, old_state: PlaybackState, new_state: PlaybackState },
    PositionChanged { speaker_id: Seq<char>, position_ms: u64, duration_ms: u64 },
    TrackChanged { speaker_id: Seq<char>, old_track: Option<TrackInfoView>, new_track: Option<TrackInfoView> },
    GroupsChanged { old_groups: Seq<GroupView>, new_groups: Seq<GroupView> },
    SpeakerAdded { speaker_id: Seq<char> },
    SpeakerRemoved { speaker_id: Seq<char> },
    StateInitialized { speaker_count: usize, group_count: usize },
    ProcessingError { speaker_id: Option<Seq<char>>, service: Option<Seq<char>>, error: Seq<char> },
}

impl View for StateChange {
    type V = StateChangeView;

    open spec fn view(&self) -> StateChangeView {
        match self {
            StateChange::VolumeChanged { speaker_id, old_volume, new_volume } => StateChangeView::VolumeChanged {
                speaker_id: speaker_id@,
                old_volume: *old_volume,
                new_volume: *new_volume,
            },
            StateChange::MuteChanged { speaker_id, muted } => StateChangeView::MuteChanged {
                speaker_id: speaker_id@,
                muted: *muted,
            },
            StateChange::PlaybackStateChanged { speaker_id, old_state, new_state } => StateChangeView::PlaybackStateChanged {
                speaker_id: speaker_id@,
                old_state: *old_state,
                new_state: *new_state,
            },
            StateChange::PositionChanged { speaker_id, position_ms, duration_ms } => StateChangeView::PositionChanged {
                speaker_id: speaker_id@,
                position_ms: *position_ms,
                duration_ms: *duration_ms,
            },
            StateChange::TrackChanged { speaker_id, old_track, new_track } => StateChangeView::TrackChanged {
                speaker_id: speaker_id@,
                old_track: opt_track_view(*old_track),
                new_track: opt_track_view(*new_track),
            },
            StateChange::GroupsChanged { old_groups, new_groups } => StateChangeView::GroupsChanged {
                old_groups: old_groups@.map_values(|g: Group| g@),
                new_groups: new_groups@.map_values(|g: Group| g@),
            },
            StateChange::SpeakerAdded { speaker_id } => StateChangeView::SpeakerAdded { speaker_id: speaker_id@ },
            StateChange::SpeakerRemoved { speaker_id } => StateChangeView::SpeakerRemoved { speaker_id: speaker_id@ },
            StateChange::StateInitialized { speaker_count, group_count } => StateChangeView::StateInitialized {
                speaker_count: *speaker_count,
                group_count: *group_count,
            },
            StateChange::ProcessingError { speaker_id, service, error } => StateChangeView::ProcessingError {
                speaker_id: match speaker_id {
                    Some(x) => Some(x@),
                    None => None,
                },
                service: opt_str_view(*service),
                error: error@,
            },
        }
    }
}

/// The view of an optional state change.
pub open spec fn opt_change_view(c: Option<StateChange>) -> Option<StateChangeView> {
    match c {
        Some(x) => Some(x@),
        None => None,
    }
}

/// The views of a list of state changes.
pub open spec fn changes_list_view(v: Seq<StateChange>) -> Seq<StateChangeView> {
    v.map_values(|c: StateChange| c@)
}

/// The speaker a change concerns, if any.
pub open spec fn change_speaker_spec(c: StateChange) -> Option<Seq<char>> {
    match c {
        StateChange::VolumeChanged { speaker_id, .. } => Some(speaker_id@),
        StateChange::MuteChanged { speaker_id, .. } => Some(speaker_id@),
        StateChange::PlaybackStateChanged { speaker_id, .. } => Some(speaker_id@),
        StateChange::PositionChanged { speaker_id, .. } => Some(speaker_id@),
        StateChange::TrackChanged { speaker_id, .. } => Some(speaker_id@),
        StateChange::SpeakerAdded { speaker_id } => Some(speaker_id@),
        StateChange::SpeakerRemoved { speaker_id } => Some(speaker_id@),
        StateChange::ProcessingError { speaker_id, .. } => match speaker_id {
            Some(s) => Some(s@),
            None => None,
        },
        StateChange::GroupsChanged { .. } => None,
        StateChange::StateInitialized { .. } => None,
    }
}

impl StateChange {
    /// The speaker this change concerns, if any.
    pub fn speaker_id(&self) -> (r: Option<&SpeakerId>)
        ensures
            match r {
                Some(s) => change_speaker_spec(*self) == Some(s@),
                None => change_speaker_spec(*self) is None,
            },
    {
        match self {
            StateChange::VolumeChanged { speaker_id, .. } => Some(speaker_id),
            StateChange::MuteChanged { speaker_id, .. } => Some(speaker_id),
            StateChange::PlaybackStateChanged { speaker_id, .. } => Some(speaker_id),
            StateChange::PositionChanged { speaker_id, .. } => Some(speaker_id),
            StateChange::TrackChanged { speaker_id, .. } => Some(speaker_id),
            StateChange::SpeakerAdded { speaker_id } => Some(speaker_id),
            StateChange::SpeakerRemoved { speaker_id } => Some(speaker_id),
            StateChange::ProcessingError { speaker_id, .. } => speaker_id.as_ref(),
            StateChange::GroupsChanged { .. } => None,
            StateChange::StateInitialized { .. } => None,
        }
    }

    /// Whether this is an error event.
    pub fn is_error(&self) -> (r: bool)
        ensures
            r == (*self is ProcessingError),
    {
        match self {
            StateChange::ProcessingError { .. } => true,
            _ => false,
        }
    }
}

} // verus!
