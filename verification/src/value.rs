//! Stored property values and the trait that ties each property type to them.

use vstd::prelude::*;
use crate::property::{
    Bass, CurrentTrack, CurrentTrackView, GroupMembership, GroupMembershipView, Loudness, Mute,
    PlaybackState, Position, PropertyKind, Topology, TopologyView, Treble, Volume,
};
use crate::viewed::ViewEq;

verus! {

// ---------------------------------------------------------------------------
// Views of the plain property types
// ---------------------------------------------------------------------------

impl View for Volume {
    type V = Volume;

    open spec fn view(&self) -> Volume {
        *self
    }
}

impl View for Mute {
    type V = Mute;

    open spec fn view(&self) -> Mute {
        *self
    }
}

impl View for Bass {
    type V = Bass;

    open spec fn view(&self) -> Bass {
        *self
    }
}

impl View for Treble {
    type V = Treble;

    open spec fn view(&self) -> Treble {
        *self
    }
}

impl View for Loudness {
    type V = Loudness;

    open spec fn view(&self) -> Loudness {
        *self
    }
}

impl View for PlaybackState {
    type V = PlaybackState;

    open spec fn view(&self) -> PlaybackState {
        *self
    }
}

impl View for Position {
    type V = Position;

    open spec fn view(&self) -> Position {
        *self
    }
}

impl ViewEq for Volume {
    fn view_eq(&self, other: &Self) -> (r: bool) {
        self.0 == other.0
    }

    fn view_clone(&self) -> (r: Self) {
        *self
    }
}

impl ViewEq for Mute {
    fn view_eq(&self, other: &Self) -> (r: bool) {
        self.0 == other.0
    }

    fn view_clone(&self) -> (r: Self) {
        *self
    }
}

impl ViewEq for Bass {
    fn view_eq(&self, other: &Self) -> (r: bool) {
        self.0 == other.0
    }

    fn view_clone(&self) -> (r: Self) {
        *self
    }
}

impl ViewEq for Treble {
    fn view_eq(&self, other: &Self) -> (r: bool) {
        self.0 == other.0
    }

    fn view_clone(&self) -> (r: Self) {
        *self
    }
}

impl ViewEq for Loudness {
    fn view_eq(&self, other: &Self) -> (r: bool) {
        self.0 == other.0
    }

    fn view_clone(&self) -> (r: Self) {
        *self
    }
}

impl ViewEq for PlaybackState {
    fn view_eq(&self, other: &Self) -> (r: bool) {
        *self == *other
    }

    fn view_clone(&self) -> (r: Self) {
        *self
    }
}

impl ViewEq for Position {
    fn view_eq(&self, other: &Self) -> (r: bool) {
        self.position_ms == other.position_ms && self.duration_ms == other.duration_ms
    }

    fn view_clone(&self) -> (r: Self) {
        *self
    }
}

// ---------------------------------------------------------------------------
// PropertyValue
// ---------------------------------------------------------------------------

/// A value of any property kind, as the store keeps it.
#[derive(Debug)]
pub enum PropertyValue {
    Volume(Volume),
    Mute(Mute),
    Bass(Bass),
    Treble(Treble),
    Loudness(Loudness),
    PlaybackState(PlaybackState),
    Position(Position),
    CurrentTrack(CurrentTrack),
    GroupMembership(GroupMembership),
    Topology(Topology),
}

/// The abstract content of a [`PropertyValue`].
pub enum PropertyValueView {
    Volume(Volume),
    Mute(Mute),
    Bass(Bass),
    Treble(Treble),
    Loudness(Loudness),
    PlaybackState(PlaybackState),
    Position(Position),
    CurrentTrack(CurrentTrackView),
    GroupMembership(GroupMembershipView),
    Topology(TopologyView),
}

impl PropertyValueView {
    /// The kind of property a value is.
    pub open spec fn kind(self) -> PropertyKind {
        match self {
            PropertyValueView::Volume(_) => PropertyKind::Volume,
            PropertyValueView::Mute(_) => PropertyKind::Mute,
            PropertyValueView::Bass(_) => PropertyKind::Bass,
            PropertyValueView::Treble(_) => PropertyKind::Treble,
            PropertyValueView::Loudness(_) => PropertyKind::Loudness,
            PropertyValueView::PlaybackState(_) => PropertyKind::PlaybackState,
            PropertyValueView::Position(_) => PropertyKind::Position,
            PropertyValueView::CurrentTrack(_) => PropertyKind::CurrentTrack,
            PropertyValueView::GroupMembership(_) => PropertyKind::GroupMembership,
            PropertyValueView::Topology(_) => PropertyKind::Topology,
        }
    }
}

impl View for PropertyValue {
    type V = PropertyValueView;

    open spec fn view(&self) -> PropertyValueView {
        match self {
            PropertyValue::Volume(v) => PropertyValueView::Volume(*v),
            PropertyValue::Mute(v) => PropertyValueView::Mute(*v),
            PropertyValue::Bass(v) => PropertyValueView::Bass(*v),
            PropertyValue::Treble(v) => PropertyValueView::Treble(*v),
            PropertyValue::Loudness(v) => PropertyValueView::Loudness(*v),
            PropertyValue::PlaybackState(v) => PropertyValueView::PlaybackState(*v),
            PropertyValue::Position(v) => PropertyValueView::Position(*v),
            PropertyValue::CurrentTrack(v) => PropertyValueView::CurrentTrack(v@),
            PropertyValue::GroupMembership(v) => PropertyValueView::GroupMembership(v@),
            PropertyValue::Topology(v) => PropertyValueView::Topology(v@),
        }
    }
}

impl ViewEq for PropertyValue {
    fn view_eq(&self, other: &Self) -> (r: bool) {
        match (self, other) {
            (PropertyValue::Volume(a), PropertyValue::Volume(b)) => a.view_eq(b),
            (PropertyValue::Mute(a), PropertyValue::Mute(b)) => a.view_eq(b),
            (PropertyValue::Bass(a), PropertyValue::Bass(b)) => a.view_eq(b),
            (PropertyValue::Treble(a), PropertyValue::Treble(b)) => a.view_eq(b),
            (PropertyValue::Loudness(a), PropertyValue::Loudness(b)) => a.view_eq(b),
            (PropertyValue::PlaybackState(a), PropertyValue::PlaybackState(b)) => a.view_eq(b),
            (PropertyValue::Position(a), PropertyValue::Position(b)) => a.view_eq(b),
            (PropertyValue::CurrentTrack(a), PropertyValue::CurrentTrack(b)) => a.view_eq(b),
            (PropertyValue::GroupMembership(a), PropertyValue::GroupMembership(b)) => a.view_eq(b),
            (PropertyValue::Topology(a), PropertyValue::Topology(b)) => a.view_eq(b),
            _ => false,
        }
    }

    fn view_clone(&self) -> (r: Self) {
        match self {
            PropertyValue::Volume(a) => PropertyValue::Volume(*a),
            PropertyValue::Mute(a) => PropertyValue::Mute(*a),
            PropertyValue::Bass(a) => PropertyValue::Bass(*a),
            PropertyValue::Treble(a) => PropertyValue::Treble(*a),
            PropertyValue::Loudness(a) => PropertyValue::Loudness(*a),
            PropertyValue::PlaybackState(a) => PropertyValue::PlaybackState(*a),
            PropertyValue::Position(a) => PropertyValue::Position(*a),
            PropertyValue::CurrentTrack(a) => PropertyValue::CurrentTrack(a.view_clone()),
            PropertyValue::GroupMembership(a) => PropertyValue::GroupMembership(a.view_clone()),
            PropertyValue::Topology(a) => PropertyValue::Topology(a.view_clone()),
        }
    }
}

impl Clone for PropertyValue {
    fn clone(&self) -> (r: Self)
        ensures
            r@ == self@,
    {
        self.view_clone()
    }
}

impl PropertyValue {
    /// The kind of property this value is.
    pub fn kind(&self) -> (r: PropertyKind)
        ensures
            r == self@.kind(),
    {
        match self {
            PropertyValue::Volume(_) => PropertyKind::Volume,
            PropertyValue::Mute(_) => PropertyKind::Mute,
            PropertyValue::Bass(_) => PropertyKind::Bass,
            PropertyValue::Treble(_) => PropertyKind::Treble,
            PropertyValue::Loudness(_) => PropertyKind::Loudness,
            PropertyValue::PlaybackState(_) => PropertyKind::PlaybackState,
            PropertyValue::Position(_) => PropertyKind::Position,
            PropertyValue::CurrentTrack(_) => PropertyKind::CurrentTrack,
            PropertyValue::GroupMembership(_) => PropertyKind::GroupMembership,
            PropertyValue::Topology(_) => PropertyKind::Topology,
        }
    }
}

/// The view of an optional value.
pub open spec fn opt_view<T: View>(o: Option<T>) -> Option<T::V> {
    match o {
        Some(x) => Some(x@),
        None => None,
    }
}

// ---------------------------------------------------------------------------
// SonosProperty
// ---------------------------------------------------------------------------

/// A property type: its kind, and how its values are kept as [`PropertyValue`]s.
pub trait SonosProperty: ViewEq {
    /// The kind of this property.
    spec fn kind_spec() -> PropertyKind;

    /// The kind of this property (executable).
    fn kind() -> (k: PropertyKind)
        ensures
            k == Self::kind_spec();

    /// The stored form of a value of this property.
    spec fn wrap_spec(v: Self::V) -> PropertyValueView;

    /// Converts a value to its stored form.
    fn to_value(&self) -> (r: PropertyValue)
        ensures
            r@ == Self::wrap_spec(self@);

    /// The value of this property a stored value holds, if it is of this kind.
    spec fn unwrap_spec(v: PropertyValueView) -> Option<Self::V>;

    /// Reads a value of this property back from its stored form.
    fn from_value(v: &PropertyValue) -> (r: Option<Self>)
        ensures
            opt_view(r) == Self::unwrap_spec(v@);

    /// Storing then reading gives the value back, and it has this kind.
    proof fn lemma_wrap(x: Self::V)
        ensures
            Self::unwrap_spec(Self::wrap_spec(x)) == Some(x),
            Self::wrap_spec(x).kind() == Self::kind_spec();

    /// A stored value reads back as this property exactly when it has this kind.
    proof fn lemma_unwrap(v: PropertyValueView)
        ensures
            Self::unwrap_spec(v) is Some <==> v.kind() == Self::kind_spec(),
            Self::unwrap_spec(v) matches Some(x) ==> Self::wrap_spec(x) == v;
}

impl SonosProperty for Volume {
    open spec fn kind_spec() -> PropertyKind {
        PropertyKind::Volume
    }

    fn kind() -> (k: PropertyKind) {
        PropertyKind::Volume
    }

    open spec fn wrap_spec(v: Volume) -> PropertyValueView {
        PropertyValueView::Volume(v)
    }

    fn to_value(&self) -> (r: PropertyValue) {
        PropertyValue::Volume(*self)
    }

    open spec fn unwrap_spec(v: PropertyValueView) -> Option<Volume> {
        match v {
            PropertyValueView::Volume(x) => Some(x),
            _ => None,
        }
    }

    fn from_value(v: &PropertyValue) -> (r: Option<Self>) {
        match v {
            PropertyValue::Volume(x) => Some(*x),
            _ => None,
        }
    }

    proof fn lemma_wrap(x: Volume) {
    }

    proof fn lemma_unwrap(v: PropertyValueView) {
    }
}

impl SonosProperty for Mute {
    open spec fn kind_spec() -> PropertyKind {
        PropertyKind::Mute
    }

    fn kind() -> (k: PropertyKind) {
        PropertyKind::Mute
    }

    open spec fn wrap_spec(v: Mute) -> PropertyValueView {
        PropertyValueView::Mute(v)
    }

    fn to_value(&self) -> (r: PropertyValue) {
        PropertyValue::Mute(*self)
    }

    open spec fn unwrap_spec(v: PropertyValueView) -> Option<Mute> {
        match v {
            PropertyValueView::Mute(x) => Some(x),
            _ => None,
        }
    }

    fn from_value(v: &PropertyValue) -> (r: Option<Self>) {
        match v {
            PropertyValue::Mute(x) => Some(*x),
            _ => None,
        }
    }

    proof fn lemma_wrap(x: Mute) {
    }

    proof fn lemma_unwrap(v: PropertyValueView) {
    }
}

impl SonosProperty for Bass {
    open spec fn kind_spec() -> PropertyKind {
        PropertyKind::Bass
    }

    fn kind() -> (k: PropertyKind) {
        PropertyKind::Bass
    }

    open spec fn wrap_spec(v: Bass) -> PropertyValueView {
        PropertyValueView::Bass(v)
    }

    fn to_value(&self) -> (r: PropertyValue) {
        PropertyValue::Bass(*self)
    }

    open spec fn unwrap_spec(v: PropertyValueView) -> Option<Bass> {
        match v {
            PropertyValueView::Bass(x) => Some(x),
            _ => None,
        }
    }

    fn from_value(v: &PropertyValue) -> (r: Option<Self>) {
        match v {
            PropertyValue::Bass(x) => Some(*x),
            _ => None,
        }
    }

    proof fn lemma_wrap(x: Bass) {
    }

    proof fn lemma_unwrap(v: PropertyValueView) {
    }
}

impl SonosProperty for Treble {
    open spec fn kind_spec() -> PropertyKind {
        PropertyKind::Treble
    }

    fn kind() -> (k: PropertyKind) {
        PropertyKind::Treble
    }

    open spec fn wrap_spec(v: Treble) -> PropertyValueView {
        PropertyValueView::Treble(v)
    }

    fn to_value(&self) -> (r: PropertyValue) {
        PropertyValue::Treble(*self)
    }

    open spec fn unwrap_spec(v: PropertyValueView) -> Option<Treble> {
        match v {
            PropertyValueView::Treble(x) => Some(x),
            _ => None,
        }
    }

    fn from_value(v: &PropertyValue) -> (r: Option<Self>) {
        match v {
            PropertyValue::Treble(x) => Some(*x),
            _ => None,
        }
    }

    proof fn lemma_wrap(x: Treble) {
    }

    proof fn lemma_unwrap(v: PropertyValueView) {
    }
}

impl SonosProperty for Loudness {
    open spec fn kind_spec() -> PropertyKind {
        PropertyKind::Loudness
    }

    fn kind() -> (k: PropertyKind) {
        PropertyKind::Loudness
    }

    open spec fn wrap_spec(v: Loudness) -> PropertyValueView {
        PropertyValueView::Loudness(v)
    }

    fn to_value(&self) -> (r: PropertyValue) {
        PropertyValue::Loudness(*self)
    }

    open spec fn unwrap_spec(v: PropertyValueView) -> Option<Loudness> {
        match v {
            PropertyValueView::Loudness(x) => Some(x),
            _ => None,
        }
    }

    fn from_value(v: &PropertyValue) -> (r: Option<Self>) {
        match v {
            PropertyValue::Loudness(x) => Some(*x),
            _ => None,
        }
    }

    proof fn lemma_wrap(x: Loudness) {
    }

    proof fn lemma_unwrap(v: PropertyValueView) {
    }
}

impl SonosProperty for PlaybackState {
    open spec fn kind_spec() -> PropertyKind {
        PropertyKind::PlaybackState
    }

    fn kind() -> (k: PropertyKind) {
        PropertyKind::PlaybackState
    }

    open spec fn wrap_spec(v: PlaybackState) -> PropertyValueView {
        PropertyValueView::PlaybackState(v)
    }

    fn to_value(&self) -> (r: PropertyValue) {
        PropertyValue::PlaybackState(*self)
    }

    open spec fn unwrap_spec(v: PropertyValueView) -> Option<PlaybackState> {
        match v {
            PropertyValueView::PlaybackState(x) => Some(x),
            _ => None,
        }
    }

    fn from_value(v: &PropertyValue) -> (r: Option<Self>) {
        match v {
            PropertyValue::PlaybackState(x) => Some(*x),
            _ => None,
        }
    }

    proof fn lemma_wrap(x: PlaybackState) {
    }

    proof fn lemma_unwrap(v: PropertyValueView) {
    }
}

impl SonosProperty for Position {
    open spec fn kind_spec() -> PropertyKind {
        PropertyKind::Position
    }

    fn kind() -> (k: PropertyKind) {
        PropertyKind::Position
    }

    open spec fn wrap_spec(v: Position) -> PropertyValueView {
        PropertyValueView::Position(v)
    }

    fn to_value(&self) -> (r: PropertyValue) {
        PropertyValue::Position(*self)
    }

    open spec fn unwrap_spec(v: PropertyValueView) -> Option<Position> {
        match v {
            PropertyValueView::Position(x) => Some(x),
            _ => None,
        }
    }

    fn from_value(v: &PropertyValue) -> (r: Option<Self>) {
        match v {
            PropertyValue::Position(x) => Some(*x),
            _ => None,
        }
    }

    proof fn lemma_wrap(x: Position) {
    }

    proof fn lemma_unwrap(v: PropertyValueView) {
    }
}

impl SonosProperty for CurrentTrack {
    open spec fn kind_spec() -> PropertyKind {
        PropertyKind::CurrentTrack
    }

    fn kind() -> (k: PropertyKind) {
        PropertyKind::CurrentTrack
    }

    open spec fn wrap_spec(v: CurrentTrackView) -> PropertyValueView {
        PropertyValueView::CurrentTrack(v)
    }

    fn to_value(&self) -> (r: PropertyValue) {
        PropertyValue::CurrentTrack(self.view_clone())
    }

    open spec fn unwrap_spec(v: PropertyValueView) -> Option<CurrentTrackView> {
        match v {
            PropertyValueView::CurrentTrack(x) => Some(x),
            _ => None,
        }
    }

    fn from_value(v: &PropertyValue) -> (r: Option<Self>) {
        match v {
            PropertyValue::CurrentTrack(x) => Some(x.view_clone()),
            _ => None,
        }
    }

    proof fn lemma_wrap(x: CurrentTrackView) {
    }

    proof fn lemma_unwrap(v: PropertyValueView) {
    }
}

impl SonosProperty for GroupMembership {
    open spec fn kind_spec() -> PropertyKind {
        PropertyKind::GroupMembership
    }

    fn kind() -> (k: PropertyKind) {
        PropertyKind::GroupMembership
    }

    open spec fn wrap_spec(v: GroupMembershipView) -> PropertyValueView {
        PropertyValueView::GroupMembership(v)
    }

    fn to_value(&self) -> (r: PropertyValue) {
        PropertyValue::GroupMembership(self.view_clone())
    }

    open spec fn unwrap_spec(v: PropertyValueView) -> Option<GroupMembershipView> {
        match v {
            PropertyValueView::GroupMembership(x) => Some(x),
            _ => None,
        }
    }

    fn from_value(v: &PropertyValue) -> (r: Option<Self>) {
        match v {
            PropertyValue::GroupMembership(x) => Some(x.view_clone()),
            _ => None,
        }
    }

    proof fn lemma_wrap(x: GroupMembershipView) {
    }

    proof fn lemma_unwrap(v: PropertyValueView) {
    }
}

impl SonosProperty for Topology {
    open spec fn kind_spec() -> PropertyKind {
        PropertyKind::Topology
    }

    fn kind() -> (k: PropertyKind) {
        PropertyKind::Topology
    }

    open spec fn wrap_spec(v: TopologyView) -> PropertyValueView {
        PropertyValueView::Topology(v)
    }

    fn to_value(&self) -> (r: PropertyValue) {
        PropertyValue::Topology(self.view_clone())
    }

    open spec fn unwrap_spec(v: PropertyValueView) -> Option<TopologyView> {
        match v {
            PropertyValueView::Topology(x) => Some(x),
            _ => None,
        }
    }

    fn from_value(v: &PropertyValue) -> (r: Option<Self>) {
        match v {
            PropertyValue::Topology(x) => Some(x.view_clone()),
            _ => None,
        }
    }

    proof fn lemma_wrap(x: TopologyView) {
    }

    proof fn lemma_unwrap(v: PropertyValueView) {
    }
}

} // verus!
