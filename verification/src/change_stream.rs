//! Change events for application rerender decisions: store changes turned
//! into typed events with rerender hints, and filters over them.

use vstd::prelude::*;
use crate::ids::{normalize_speaker_id, GroupId, SpeakerId};
use crate::property::{PropertyKind, Scope, Service};
use crate::value::SonosProperty;
use crate::stamp::clock_now;
use crate::text::{concat_str, str_eq};
use crate::viewed::{seq_view, ViewEq};

verus! {

// ---------------------------------------------------------------------------
// Store changes
// ---------------------------------------------------------------------------

/// A change the property store reports.
#[derive(Debug)]
pub enum StateChange {
    /// A speaker property changed
    SpeakerPropertyChanged { speaker_id: SpeakerId, property_key: &'static str, service: Service },
    /// A group property changed
    GroupPropertyChanged { group_id: GroupId, property_key: &'static str, service: Service },
    /// A system property changed
    SystemPropertyChanged { property_key: &'static str, service: Service },
    /// A speaker was added
    SpeakerAdded { speaker_id: SpeakerId },
    /// A speaker was removed
    SpeakerRemoved { speaker_id: SpeakerId },
    /// A group was added
    GroupAdded { group_id: GroupId },
    /// A group was removed
    GroupRemoved { group_id: GroupId },
}

/// The abstract content of a store [`StateChange`].
pub enum StateChangeView {
    SpeakerPropertyChanged { speaker_id: Seq<char>, property_key: Seq<char>, service: Service },
    GroupPropertyChanged { group_id: Seq<char>, property_key: Seq<char>, service: Service },
    SystemPropertyChanged { property_key: Seq<char>, service: Service },
    SpeakerAdded { speaker_id: Seq<char> },
    SpeakerRemoved { speaker_id: Seq<char> },
    GroupAdded { group_id: Seq<char> },
    GroupRemoved { group_id: Seq<char> },
}

impl View for StateChange {
    type V = StateChangeView;

    open spec fn view(&self) -> StateChangeView {
        match self {
            StateChange::SpeakerPropertyChanged { speaker_id, property_key, service } => {
                StateChangeView::SpeakerPropertyChanged {
                    speaker_id: speaker_id@,
                    property_key: property_key@,
                    service: *service,
                }
            },
            StateChange::GroupPropertyChanged { group_id, property_key, service } => {
                StateChangeView::GroupPropertyChanged {
                    group_id: group_id@,
                    property_key: property_key@,
                    service: *service,
                }
            },
            StateChange::SystemPropertyChanged { property_key, service } => {
                StateChangeView::SystemPropertyChanged { property_key: property_key@, service: *service }
            },
            StateChange::SpeakerAdded { speaker_id } => StateChangeView::SpeakerAdded {
                speaker_id: speaker_id@,
            },
            StateChange::SpeakerRemoved { speaker_id } => StateChangeView::SpeakerRemoved {
                speaker_id: speaker_id@,
            },
            StateChange::GroupAdded { group_id } => StateChangeView::GroupAdded { group_id: group_id@ },
            StateChange::GroupRemoved { group_id } => StateChangeView::GroupRemoved {
                group_id: group_id@,
            },
        }
    }
}

/// The change reported when a property of kind `kind` changes on the target
/// named `target_id`, by the property's scope.
pub open spec fn property_changed_spec(kind: PropertyKind, target_id: Seq<char>) -> StateChangeView {
    match kind.scope_spec() {
        Scope::Speaker => StateChangeView::SpeakerPropertyChanged {
            speaker_id: normalize_speaker_id(target_id),
            property_key: kind.key_spec(),
            service: kind.service_spec(),
        },
        Scope::Group => StateChangeView::GroupPropertyChanged {
            group_id: target_id,
            property_key: kind.key_spec(),
            service: kind.service_spec(),
        },
        Scope::System => StateChangeView::SystemPropertyChanged {
            property_key: kind.key_spec(),
            service: kind.service_spec(),
        },
    }
}

impl StateChange {
    /// The property-changed event for property `P` on the target named
    /// `target_id`, in the shape its scope calls for.
    pub fn property_changed<P: SonosProperty>(target_id: &str) -> (r: StateChange)
        ensures
            r@ == property_changed_spec(P::kind_spec(), target_id@),
    {
        let kind = P::kind();
        match kind.scope() {
            Scope::Speaker => StateChange::SpeakerPropertyChanged {
                speaker_id: SpeakerId::new(target_id),
                property_key: kind.key(),
                service: kind.service(),
            },
            Scope::Group => StateChange::GroupPropertyChanged {
                group_id: GroupId::new(target_id),
                property_key: kind.key(),
                service: kind.service(),
            },
            Scope::System => StateChange::SystemPropertyChanged {
                property_key: kind.key(),
                service: kind.service(),
            },
        }
    }
}

// ---------------------------------------------------------------------------
// Change events
// ---------------------------------------------------------------------------

/// Types of changes applications care about for rerendering.
#[derive(Debug)]
pub enum ChangeType {
    /// Device-level property changed (volume, playback state, ...)
    DeviceProperty { speaker_id: SpeakerId, property_name: &'static str, service: Service },
    /// Group-level property changed
    GroupProperty { group_id: GroupId, property_name: &'static str, service: Service },
    /// System-wide change (topology, ...)
    SystemProperty { property_name: &'static str, service: Service },
    /// Device was discovered/added
    DeviceAdded { speaker_id: SpeakerId },
    /// Device was removed/disconnected
    DeviceRemoved { speaker_id: SpeakerId },
    /// Group was formed/modified
    GroupChanged { group_id: GroupId },
}

/// The abstract content of a [`ChangeType`].
pub enum ChangeTypeView {
    DeviceProperty { speaker_id: Seq<char>, property_name: Seq<char>, service: Service },
    GroupProperty { group_id: Seq<char>, property_name: Seq<char>, service: Service },
    SystemProperty { property_name: Seq<char>, service: Service },
    DeviceAdded { speaker_id: Seq<char> },
    DeviceRemoved { speaker_id: Seq<char> },
    GroupChanged { group_id: Seq<char> },
}

impl View for ChangeType {
    type V = ChangeTypeView;

    open spec fn view(&self) -> ChangeTypeView {
        match self {
            ChangeType::DeviceProperty { speaker_id, property_name, service } => ChangeTypeView::DeviceProperty {
                speaker_id: speaker_id@,
                property_name: property_name@,
                service: *service,
            },
            ChangeType::GroupProperty { group_id, property_name, service } => ChangeTypeView::GroupProperty {
                group_id: group_id@,
                property_name: property_name@,
                service: *service,
            },
            ChangeType::SystemProperty { property_name, service } => ChangeTypeView::SystemProperty {
                property_name: property_name@,
                service: *service,
            },
            ChangeType::DeviceAdded { speaker_id } => ChangeTypeView::DeviceAdded { speaker_id: speaker_id@ },
            ChangeType::DeviceRemoved { speaker_id } => ChangeTypeView::DeviceRemoved { speaker_id: speaker_id@ },
            ChangeType::GroupChanged { group_id } => ChangeTypeView::GroupChanged { group_id: group_id@ },
        }
    }
}

/// Suggested scope for rerendering.
#[derive(Debug)]
pub enum RerenderScope {
    /// Full UI rerender needed (topology changes)
    Full,
    /// Single device UI update
    Device(SpeakerId),
    /// Group-level UI update
    Group(GroupId),
    /// System-level update (minimal impact)
    System,
}

/// The abstract content of a [`RerenderScope`].
pub enum RerenderScopeView {
    Full,
    Device(Seq<char>),
    Group(Seq<char>),
    System,
}

impl View for RerenderScope {
    type V = RerenderScopeView;

    open spec fn view(&self) -> RerenderScopeView {
        match self {
            RerenderScope::Full => RerenderScopeView::Full,
            RerenderScope::Device(s) => RerenderScopeView::Device(s@),
            RerenderScope::Group(g) => RerenderScopeView::Group(g@),
            RerenderScope::System => RerenderScopeView::System,
        }
    }
}

/// Additional context about a change.
#[derive(Debug)]
pub struct ChangeContext {
    /// Human-readable description of what changed
    pub description: String,
    /// Whether this change typically requires a UI rerender
    pub requires_rerender: bool,
    /// Suggested rerender scope
    pub rerender_scope: RerenderScope,
}

/// The abstract content of a [`ChangeContext`].
pub struct ChangeContextView {
    pub description: Seq<char>,
    pub requires_rerender: bool,
    pub rerender_scope: RerenderScopeView,
}

impl View for ChangeContext {
    type V = ChangeContextView;

    open spec fn view(&self) -> ChangeContextView {
        ChangeContextView {
            description: self.description@,
            requires_rerender: self.requires_rerender,
            rerender_scope: self.rerender_scope@,
        }
    }
}

/// A change event with rerender hints.
#[derive(Debug)]
pub struct ChangeEvent {
    /// When the change was converted (nanoseconds since the Unix epoch)
    pub timestamp: u64,
    /// Type of change
    pub change_type: ChangeType,
    /// Additional context
    pub context: ChangeContext,
}

/// The abstract content of a [`ChangeEvent`], without its timestamp.
pub struct ChangeEventView {
    pub change_type: ChangeTypeView,
    pub context: ChangeContextView,
}

impl View for ChangeEvent {
    type V = ChangeEventView;

    open spec fn view(&self) -> ChangeEventView {
        ChangeEventView { change_type: self.change_type@, context: self.context@ }
    }
}

// ---------------------------------------------------------------------------
// Conversion
// ---------------------------------------------------------------------------

/// The rerender hint and description of a speaker property change.
pub open spec fn device_hint_spec(speaker_id: Seq<char>, key: Seq<char>) -> (bool, Seq<char>) {
    if key == "volume"@ {
        (true, "Volume changed on "@ + speaker_id)
    } else if key == "mute"@ {
        (true, "Mute status changed on "@ + speaker_id)
    } else if key == "playback_state"@ {
        (true, "Playback state changed on "@ + speaker_id)
    } else if key == "position"@ {
        (false, "Position updated on "@ + speaker_id)
    } else if key == "current_track"@ {
        (true, "Track changed on "@ + speaker_id)
    } else {
        (true, "Property '"@ + key + "' changed on "@ + speaker_id)
    }
}

/// The event a store change becomes.
///
/// Speaker properties rerender their device (position updates are not urgent);
/// group properties rerender their group; system properties rerender
/// everything only for the topology; device and group lifecycle changes
/// rerender everything.
pub open spec fn convert_spec(sc: StateChange) -> ChangeEventView {
    match sc {
        StateChange::SpeakerPropertyChanged { speaker_id, property_key, service } => {
            let hint = device_hint_spec(speaker_id@, property_key@);
            ChangeEventView {
                change_type: ChangeTypeView::DeviceProperty { speaker_id: speaker_id@, property_name: property_key@, service },
                context: ChangeContextView {
                    description: hint.1,
                    requires_rerender: hint.0,
                    rerender_scope: RerenderScopeView::Device(speaker_id@),
                },
            }
        },
        StateChange::GroupPropertyChanged { group_id, property_key, service } => ChangeEventView {
            change_type: ChangeTypeView::GroupProperty { group_id: group_id@, property_name: property_key@, service },
            context: ChangeContextView {
                description: "Group property '"@ + property_key@ + "' changed on "@ + group_id@,
                requires_rerender: true,
                rerender_scope: RerenderScopeView::Group(group_id@),
            },
        },
        StateChange::SystemPropertyChanged { property_key, service } => ChangeEventView {
            change_type: ChangeTypeView::SystemProperty { property_name: property_key@, service },
            context: ChangeContextView {
                description: "System property '"@ + property_key@ + "' changed"@,
                requires_rerender: property_key@ == "topology"@,
                rerender_scope: if property_key@ == "topology"@ {
                    RerenderScopeView::Full
                } else {
                    RerenderScopeView::System
                },
            },
        },
        StateChange::SpeakerAdded { speaker_id } => ChangeEventView {
            change_type: ChangeTypeView::DeviceAdded { speaker_id: speaker_id@ },
            context: ChangeContextView {
                description: "Device "@ + speaker_id@ + " added"@,
                requires_rerender: true,
                rerender_scope: RerenderScopeView::Full,
            },
        },
        StateChange::SpeakerRemoved { speaker_id } => ChangeEventView {
            change_type: ChangeTypeView::DeviceRemoved { speaker_id: speaker_id@ },
            context: ChangeContextView {
                description: "Device "@ + speaker_id@ + " removed"@,
                requires_rerender: true,
                rerender_scope: RerenderScopeView::Full,
            },
        },
        StateChange::GroupAdded { group_id } => ChangeEventView {
            change_type: ChangeTypeView::GroupChanged { group_id: group_id@ },
            context: ChangeContextView {
                description: "Group "@ + group_id@ + " added"@,
                requires_rerender: true,
                rerender_scope: RerenderScopeView::Full,
            },
        },
        StateChange::GroupRemoved { group_id } => ChangeEventView {
            change_type: ChangeTypeView::GroupChanged { group_id: group_id@ },
            context: ChangeContextView {
                description: "Group "@ + group_id@ + " removed"@,
                requires_rerender: true,
                rerender_scope: RerenderScopeView::Full,
            },
        },
    }
}

/// Joins three strings.
fn concat3(a: &str, b: &str, c: &str) -> (r: String)
    ensures
        r@ == a@ + b@ + c@,
{
    let ab = concat_str(a, b);
    concat_str(ab.as_str(), c)
}

/// The rerender hint and description of a speaker property change.
fn device_hint(speaker_id: &SpeakerId, key: &str) -> (r: (bool, String))
    ensures
        (r.0, r.1@) == device_hint_spec(speaker_id@, key@),
{
    let id = speaker_id.as_str();
    if str_eq(key, "volume") {
        (true, concat_str("Volume changed on ", id))
    } else if str_eq(key, "mute") {
        (true, concat_str("Mute status changed on ", id))
    } else if str_eq(key, "playback_state") {
        (true, concat_str("Playback state changed on ", id))
    } else if str_eq(key, "position") {
        (false, concat_str("Position updated on ", id))
    } else if str_eq(key, "current_track") {
        (true, concat_str("Track changed on ", id))
    } else {
        let head = concat3("Property '", key, "' changed on ");
        (true, concat_str(head.as_str(), id))
    }
}

/// Converts a store change into a change event with rerender hints (see
/// [`convert_spec`]), timestamped now.
pub fn convert_state_change(state_change: StateChange) -> (r: ChangeEvent)
    ensures
        r@ == convert_spec(state_change),
{
    let timestamp = clock_now();
    let ghost sc = state_change;
    match state_change {
        StateChange::SpeakerPropertyChanged { speaker_id, property_key, service } => {
            let hint = device_hint(&speaker_id, property_key);
            let scope_id = speaker_id.view_clone();
            ChangeEvent {
                timestamp,
                change_type: ChangeType::DeviceProperty { speaker_id, property_name: property_key, service },
                context: ChangeContext {
                    description: hint.1,
                    requires_rerender: hint.0,
                    rerender_scope: RerenderScope::Device(scope_id),
                },
            }
        },
        StateChange::GroupPropertyChanged { group_id, property_key, service } => {
            let head = concat3("Group property '", property_key, "' changed on ");
            let description = concat_str(head.as_str(), group_id.as_str());
            let scope_id = group_id.view_clone();
            ChangeEvent {
                timestamp,
                change_type: ChangeType::GroupProperty { group_id, property_name: property_key, service },
                context: ChangeContext {
                    description,
                    requires_rerender: true,
                    rerender_scope: RerenderScope::Group(scope_id),
                },
            }
        },
        StateChange::SystemPropertyChanged { property_key, service } => {
            let description = concat3("System property '", property_key, "' changed");
            let topology = str_eq(property_key, "topology");
            ChangeEvent {
                timestamp,
                change_type: ChangeType::SystemProperty { property_name: property_key, service },
                context: ChangeContext {
                    description,
                    requires_rerender: topology,
                    rerender_scope: if topology {
                        RerenderScope::Full
                    } else {
                        RerenderScope::System
                    },
                },
            }
        },
        StateChange::SpeakerAdded { speaker_id } => {
            let description = concat3("Device ", speaker_id.as_str(), " added");
            ChangeEvent {
                timestamp,
                change_type: ChangeType::DeviceAdded { speaker_id },
                context: ChangeContext { description, requires_rerender: true, rerender_scope: RerenderScope::Full },
            }
        },
        StateChange::SpeakerRemoved { speaker_id } => {
            let description = concat3("Device ", speaker_id.as_str(), " removed");
            ChangeEvent {
                timestamp,
                change_type: ChangeType::DeviceRemoved { speaker_id },
                context: ChangeContext { description, requires_rerender: true, rerender_scope: RerenderScope::Full },
            }
        },
        StateChange::GroupAdded { group_id } => {
            let description = concat3("Group ", group_id.as_str(), " added");
            ChangeEvent {
                timestamp,
                change_type: ChangeType::GroupChanged { group_id },
                context: ChangeContext { description, requires_rerender: true, rerender_scope: RerenderScope::Full },
            }
        },
        StateChange::GroupRemoved { group_id } => {
            let description = concat3("Group ", group_id.as_str(), " removed");
            ChangeEvent {
                timestamp,
                change_type: ChangeType::GroupChanged { group_id },
                context: ChangeContext { description, requires_rerender: true, rerender_scope: RerenderScope::Full },
            }
        },
    }
}

// ---------------------------------------------------------------------------
// Filters
// ---------------------------------------------------------------------------

/// The kinds of change a filter can select.
#[derive(Debug, Clone, Copy, PartialEq, Eq, Structural, Hash)]
pub enum ChangeTypeFilter {
    DeviceProperty,
    GroupProperty,
    SystemProperty,
    DeviceLifecycle,
    GroupLifecycle,
}

/// The kind of a change type.
pub open spec fn type_filter_of(t: ChangeTypeView) -> ChangeTypeFilter {
    match t {
        ChangeTypeView::DeviceProperty { .. } => ChangeTypeFilter::DeviceProperty,
        ChangeTypeView::GroupProperty { .. } => ChangeTypeFilter::GroupProperty,
        ChangeTypeView::SystemProperty { .. } => ChangeTypeFilter::SystemProperty,
        ChangeTypeView::DeviceAdded { .. } => ChangeTypeFilter::DeviceLifecycle,
        ChangeTypeView::DeviceRemoved { .. } => ChangeTypeFilter::DeviceLifecycle,
        ChangeTypeView::GroupChanged { .. } => ChangeTypeFilter::GroupLifecycle,
    }
}

/// A filter selecting changes. Each present list restricts the changes it
/// applies to; an absent list lets everything through.
#[derive(Debug)]
pub struct ChangeFilter {
    /// Filter by specific speaker IDs
    pub speaker_ids: Option<Vec<SpeakerId>>,
    /// Filter by specific group IDs
    pub group_ids: Option<Vec<GroupId>>,
    /// Filter by services
    pub services: Option<Vec<Service>>,
    /// Filter by property names
    pub property_names: Option<Vec<&'static str>>,
    /// Filter by change types
    pub change_types: Option<Vec<ChangeTypeFilter>>,
    /// Only include changes that require rerender
    pub rerender_only: bool,
}

/// The abstract content of a [`ChangeFilter`].
pub struct ChangeFilterView {
    pub speaker_ids: Option<Seq<Seq<char>>>,
    pub group_ids: Option<Seq<Seq<char>>>,
    pub services: Option<Seq<Service>>,
    pub property_names: Option<Seq<Seq<char>>>,
    pub change_types: Option<Seq<ChangeTypeFilter>>,
    pub rerender_only: bool,
}

/// The view of an optional list of ids.
pub open spec fn opt_ids_view<T: View>(o: Option<Vec<T>>) -> Option<Seq<T::V>> {
    match o {
        Some(v) => Some(seq_view(v@)),
        None => None,
    }
}

/// The view of an optional list of plain values.
pub open spec fn opt_list_view<T>(o: Option<Vec<T>>) -> Option<Seq<T>> {
    match o {
        Some(v) => Some(v@),
        None => None,
    }
}

impl View for ChangeFilter {
    type V = ChangeFilterView;

    open spec fn view(&self) -> ChangeFilterView {
        ChangeFilterView {
            speaker_ids: opt_ids_view(self.speaker_ids),
            group_ids: opt_ids_view(self.group_ids),
            services: opt_list_view(self.services),
            property_names: match self.property_names {
                Some(v) => Some(v@.map_values(|k: &'static str| k@)),
                None => None,
            },
            change_types: opt_list_view(self.change_types),
            rerender_only: self.rerender_only,
        }
    }
}

/// `x` is allowed by an optional list: the list is absent or contains it.
pub open spec fn allowed<T>(o: Option<Seq<T>>, x: T) -> bool {
    match o {
        Some(s) => s.contains(x),
        None => true,
    }
}

/// Whether a filter lets an event through.
pub open spec fn matches_spec(f: ChangeFilterView, e: ChangeEventView) -> bool {
    &&& !(f.rerender_only && !e.context.requires_rerender)
    &&& allowed(f.change_types, type_filter_of(e.change_type))
    &&& match e.change_type {
        ChangeTypeView::DeviceProperty { speaker_id, property_name, service } => allowed(f.speaker_ids, speaker_id)
            && allowed(f.services, service) && allowed(f.property_names, property_name),
        ChangeTypeView::GroupProperty { group_id, property_name, service } => allowed(f.group_ids, group_id)
            && allowed(f.services, service) && allowed(f.property_names, property_name),
        ChangeTypeView::SystemProperty { property_name, service } => allowed(f.services, service)
            && allowed(f.property_names, property_name),
        ChangeTypeView::DeviceAdded { speaker_id } => allowed(f.speaker_ids, speaker_id),
        ChangeTypeView::DeviceRemoved { speaker_id } => allowed(f.speaker_ids, speaker_id),
        ChangeTypeView::GroupChanged { group_id } => allowed(f.group_ids, group_id),
    }
}

/// A filter that lets everything through.
pub open spec fn open_filter() -> ChangeFilterView {
    ChangeFilterView {
        speaker_ids: None,
        group_ids: None,
        services: None,
        property_names: None,
        change_types: None,
        rerender_only: false,
    }
}

/// Whether a list of ids holds `id` (by view).
fn ids_allow<T: ViewEq>(o: &Option<Vec<T>>, id: &T) -> (r: bool)
    ensures
        r == allowed(opt_ids_view(*o), id@),
{
    match *o {
        Some(ref v) => {
            let mut i: usize = 0;
            while i < v.len()
                invariant
                    opt_ids_view(*o) == Some(seq_view(v@)),
                    i <= v.len(),
                    forall|j: int| 0 <= j < i ==> #[trigger] v@[j]@ != id@,
                decreases v.len() - i,
            {
                if v[i].view_eq(id) {
                    assert(seq_view(v@)[i as int] == id@);
                    assert(seq_view(v@).contains(id@));
                    return true;
                }
                i = i + 1;
            }
            proof {
                if seq_view(v@).contains(id@) {
                    let j = choose|j: int| 0 <= j < seq_view(v@).len() && seq_view(v@)[j] == id@;
                    assert(v@[j]@ == id@);
                }
            }
            false
        },
        None => true,
    }
}

/// Whether a list of services allows `s`.
fn services_allow(o: &Option<Vec<Service>>, s: Service) -> (r: bool)
    ensures
        r == allowed(opt_list_view(*o), s),
{
    match *o {
        Some(ref v) => {
            let mut i: usize = 0;
            while i < v.len()
                invariant
                    opt_list_view(*o) == Some(v@),
                    i <= v.len(),
                    forall|j: int| 0 <= j < i ==> #[trigger] v@[j] != s,
                decreases v.len() - i,
            {
                if v[i] == s {
                    assert(v@[i as int] == s);
                    assert(v@.contains(s));
                    return true;
                }
                i = i + 1;
            }
            false
        },
        None => true,
    }
}

/// Whether a list of change kinds allows `t`.
fn kinds_allow(o: &Option<Vec<ChangeTypeFilter>>, t: ChangeTypeFilter) -> (r: bool)
    ensures
        r == allowed(opt_list_view(*o), t),
{
    match *o {
        Some(ref v) => {
            let mut i: usize = 0;
            while i < v.len()
                invariant
                    opt_list_view(*o) == Some(v@),
                    i <= v.len(),
                    forall|j: int| 0 <= j < i ==> #[trigger] v@[j] != t,
                decreases v.len() - i,
            {
                if v[i] == t {
                    assert(v@[i as int] == t);
                    assert(v@.contains(t));
                    return true;
                }
                i = i + 1;
            }
            false
        },
        None => true,
    }
}

/// Whether a list of property names allows `name`.
fn names_allow(o: &Option<Vec<&'static str>>, name: &str) -> (r: bool)
    ensures
        r == allowed(
            match *o {
                Some(v) => Some(v@.map_values(|k: &'static str| k@)),
                None => None,
            },
            name@,
        ),
{
    match *o {
        Some(ref v) => {
            let ghost names = v@.map_values(|k: &'static str| k@);
            let mut i: usize = 0;
            while i < v.len()
                invariant
                    *o == Some(*v),
                    i <= v.len(),
                    names == v@.map_values(|k: &'static str| k@),
                    forall|j: int| 0 <= j < i ==> #[trigger] names[j] != name@,
                decreases v.len() - i,
            {
                if str_eq(v[i], name) {
                    assert(names[i as int] == name@);
                    assert(names.contains(name@));
                    return true;
                }
                i = i + 1;
            }
            false
        },
        None => true,
    }
}

impl ChangeFilter {
    /// A filter that lets everything through.
    pub fn new() -> (r: ChangeFilter)
        ensures
            r@ == open_filter(),
    {
        ChangeFilter {
            speaker_ids: None,
            group_ids: None,
            services: None,
            property_names: None,
            change_types: None,
            rerender_only: false,
        }
    }

    /// Changes of one speaker only.
    pub fn for_speaker(speaker_id: SpeakerId) -> (r: ChangeFilter)
        ensures
            r@ == (ChangeFilterView { speaker_ids: Some(seq![speaker_id@]), ..open_filter() }),
    {
        let mut ids: Vec<SpeakerId> = Vec::new();
        ids.push(speaker_id);
        let r = ChangeFilter { speaker_ids: Some(ids), ..ChangeFilter::new() };
        assert(seq_view(ids@) =~= seq![speaker_id@]);
        r
    }

    /// Changes that require a rerender only.
    pub fn rerender_only() -> (r: ChangeFilter)
        ensures
            r@ == (ChangeFilterView { rerender_only: true, ..open_filter() }),
    {
        ChangeFilter { rerender_only: true, ..ChangeFilter::new() }
    }

    /// Changes of the given services only.
    pub fn for_services(services: Vec<Service>) -> (r: ChangeFilter)
        ensures
            r@ == (ChangeFilterView { services: Some(services@), ..open_filter() }),
    {
        ChangeFilter { services: Some(services), ..ChangeFilter::new() }
    }

    /// Changes of the given properties only.
    pub fn for_properties(property_names: Vec<&'static str>) -> (r: ChangeFilter)
        ensures
            r@ == (ChangeFilterView {
                property_names: Some(property_names@.map_values(|k: &'static str| k@)),
                ..open_filter()
            }),
    {
        ChangeFilter { property_names: Some(property_names), ..ChangeFilter::new() }
    }

    /// Whether this filter lets `event` through (see [`matches_spec`]).
    pub fn matches(&self, event: &ChangeEvent) -> (r: bool)
        ensures
            r == matches_spec(self@, event@),
    {
        if self.rerender_only && !event.context.requires_rerender {
            return false;
        }
        let kind = match &event.change_type {
            ChangeType::DeviceProperty { .. } => ChangeTypeFilter::DeviceProperty,
            ChangeType::GroupProperty { .. } => ChangeTypeFilter::GroupProperty,
            ChangeType::SystemProperty { .. } => ChangeTypeFilter::SystemProperty,
            ChangeType::DeviceAdded { .. } => ChangeTypeFilter::DeviceLifecycle,
            ChangeType::DeviceRemoved { .. } => ChangeTypeFilter::DeviceLifecycle,
            ChangeType::GroupChanged { .. } => ChangeTypeFilter::GroupLifecycle,
        };
        if !kinds_allow(&self.change_types, kind) {
            return false;
        }
        match &event.change_type {
            ChangeType::DeviceProperty { speaker_id, property_name, service } => {
                if !ids_allow(&self.speaker_ids, speaker_id) {
                    return false;
                }
                if !services_allow(&self.services, *service) {
                    return false;
                }
                if !names_allow(&self.property_names, property_name) {
                    return false;
                }
            },
            ChangeType::GroupProperty { group_id, property_name, service } => {
                if !ids_allow(&self.group_ids, group_id) {
                    return false;
                }
                if !services_allow(&self.services, *service) {
                    return false;
                }
                if !names_allow(&self.property_names, property_name) {
                    return false;
                }
            },
            ChangeType::SystemProperty { property_name, service } => {
                if !services_allow(&self.services, *service) {
                    return false;
                }
                if !names_allow(&self.property_names, property_name) {
                    return false;
                }
            },
            ChangeType::DeviceAdded { speaker_id } => {
                if !ids_allow(&self.speaker_ids, speaker_id) {
                    return false;
                }
            },
            ChangeType::DeviceRemoved { speaker_id } => {
                if !ids_allow(&self.speaker_ids, speaker_id) {
                    return false;
                }
            },
            ChangeType::GroupChanged { group_id } => {
                if !ids_allow(&self.group_ids, group_id) {
                    return false;
                }
            },
        }
        true
    }
}

// ---------------------------------------------------------------------------
// Streams
// ---------------------------------------------------------------------------

/// Why a non-blocking receive got nothing.
#[derive(Debug, Clone, Copy, PartialEq, Eq, Structural)]
pub enum TryRecvError {
    /// The channel is closed
    Closed,
    /// The receiver lagged behind by this many messages
    Lagged(u64),
}

/// The decisions of a change stream: which store changes it yields, and as
/// what events.
#[derive(Debug)]
pub struct ChangeStream {
    filter: Option<ChangeFilter>,
}

impl ChangeStream {
    /// The filter the stream applies, if any.
    pub closed spec fn filter_spec(&self) -> Option<ChangeFilterView> {
        match self.filter {
            Some(f) => Some(f@),
            None => None,
        }
    }

    /// A stream yielding every change.
    pub fn new() -> (r: ChangeStream)
        ensures
            r.filter_spec() is None,
    {
        ChangeStream { filter: None }
    }

    /// A stream yielding the changes `filter` lets through.
    pub fn filtered(filter: ChangeFilter) -> (r: ChangeStream)
        ensures
            r.filter_spec() == Some(filter@),
    {
        ChangeStream { filter: Some(filter) }
    }

    /// The event a received store change yields, or `None` when the filter
    /// rejects it (the stream then waits for the next change).
    pub fn accept(&self, state_change: StateChange) -> (r: Option<ChangeEvent>)
        ensures
            match self.filter_spec() {
                Some(f) => if matches_spec(f, convert_spec(state_change)) {
                    r matches Some(e) && e@ == convert_spec(state_change)
                } else {
                    r is None
                },
                None => r matches Some(e) && e@ == convert_spec(state_change),
            },
    {
        let event = convert_state_change(state_change);
        match &self.filter {
            Some(f) => {
                if f.matches(&event) {
                    Some(event)
                } else {
                    None
                }
            },
            None => Some(event),
        }
    }
}

/// A filter lets an event through only when every list it holds admits the
/// event: a property event (device, group or system) whose property name is
/// missing from the filter's property names, whose service is missing from
/// its services, or whose speaker or group is missing from its speaker or
/// group ids, is rejected; so is one that needs no rerender when the filter
/// asks for rerenders only.
pub proof fn lemma_filter_admits_only_listed(f: ChangeFilterView, e: ChangeEventView)
    ensures
        matches_spec(f, e) ==> {
            &&& f.rerender_only ==> e.context.requires_rerender
            &&& e.change_type matches ChangeTypeView::DeviceProperty { speaker_id, property_name, service } ==> {
                &&& f.speaker_ids matches Some(ids) ==> ids.contains(speaker_id)
                &&& f.services matches Some(ss) ==> ss.contains(service)
                &&& f.property_names matches Some(ns) ==> ns.contains(property_name)
            }
            &&& e.change_type matches ChangeTypeView::GroupProperty { group_id, property_name, service } ==> {
                &&& f.group_ids matches Some(ids) ==> ids.contains(group_id)
                &&& f.services matches Some(ss) ==> ss.contains(service)
                &&& f.property_names matches Some(ns) ==> ns.contains(property_name)
            }
            &&& e.change_type matches ChangeTypeView::SystemProperty { property_name, service } ==> {
                &&& f.services matches Some(ss) ==> ss.contains(service)
                &&& f.property_names matches Some(ns) ==> ns.contains(property_name)
            }
            &&& e.change_type matches ChangeTypeView::DeviceAdded { speaker_id } ==> (f.speaker_ids matches Some(
                ids,
            ) ==> ids.contains(speaker_id))
            &&& e.change_type matches ChangeTypeView::DeviceRemoved { speaker_id } ==> (f.speaker_ids matches Some(
                ids,
            ) ==> ids.contains(speaker_id))
            &&& e.change_type matches ChangeTypeView::GroupChanged { group_id } ==> (f.group_ids matches Some(ids)
                ==> ids.contains(group_id))
        },
{
}

/// A filter that names property names only lets through exactly the
/// property events (device, group or system) whose property name it lists,
/// and every lifecycle event.
pub proof fn lemma_property_name_filter(ns: Seq<Seq<char>>, e: ChangeEventView)
    ensures
        matches_spec(
            ChangeFilterView {
                speaker_ids: None,
                group_ids: None,
                services: None,
                property_names: Some(ns),
                change_types: None,
                rerender_only: false,
            },
            e,
        ) <==> match e.change_type {
            ChangeTypeView::DeviceProperty { property_name, .. } => ns.contains(property_name),
            ChangeTypeView::GroupProperty { property_name, .. } => ns.contains(property_name),
            ChangeTypeView::SystemProperty { property_name, .. } => ns.contains(property_name),
            _ => true,
        },
{
}

} // verus!
