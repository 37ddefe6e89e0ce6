//! The state manager: the store, watch bookkeeping, the IP reverse map and
//! the change-event fan-out, behind one synchronous API.

use vstd::prelude::*;
use crate::bag::bag_write;
use crate::decoder::PropertyChange;
use crate::error::StateError;
use crate::fanout::{
    deliver_all, event_view, fanout_wf, has_subscriber, pending, ChangeEvent, ChangeEventView,
    EventFanout, FanoutView,
};
use crate::ids::{normalize_speaker_id, GroupId, SpeakerId};
use crate::net::{parse_ip_addr, parse_ip_spec, IpAddr};
use crate::property::{
    GroupInfo, GroupInfoView, PropertyKind, Service, ServiceScope, Topology, TopologyView,
};
use crate::speaker::{Speaker, SpeakerView};
use crate::stamp::{ChangeSource, WriteOutcome, WriteStamp};
use crate::store::{
    add_group_spec, add_speaker_spec, bag_or_empty, group_for_speaker_spec, resolve_coordinator_spec,
    stored_value, target_spec, StateStore, StoreView,
};
use crate::text::str_eq;
use crate::value::{opt_view, PropertyValue, PropertyValueView, SonosProperty};
use crate::viewed::{seq_view, ViewEq};
use crate::watch::{
    all_held, holds_of, release_direct_spec, release_service_spec, retain_direct_spec,
    retain_subscription_spec, IpMap, KeyServices, WatchCounts, WatchHolds, WatchMap,
};

pub mod worker;

verus! {

// ---------------------------------------------------------------------------
// Devices
// ---------------------------------------------------------------------------

/// A speaker found by discovery.
#[derive(Debug)]
pub struct Device {
    pub id: String,
    pub name: String,
    pub room_name: String,
    pub ip_address: String,
    pub port: u16,
    pub model_name: String,
}

/// The abstract content of a [`Device`].
pub struct DeviceView {
    pub id: Seq<char>,
    pub name: Seq<char>,
    pub room_name: Seq<char>,
    pub ip_address: Seq<char>,
    pub port: u16,
    pub model_name: Seq<char>,
}

impl View for Device {
    type V = DeviceView;

    open spec fn view(&self) -> DeviceView {
        DeviceView {
            id: self.id@,
            name: self.name@,
            room_name: self.room_name@,
            ip_address: self.ip_address@,
            port: self.port,
            model_name: self.model_name@,
        }
    }
}

/// The name a device is shown under: its room name, unless that is empty or
/// "Unknown", in which case its device name.
pub open spec fn friendly_name_spec(d: DeviceView) -> Seq<char> {
    if d.room_name.len() == 0 || d.room_name == "Unknown"@ {
        d.name
    } else {
        d.room_name
    }
}

/// The speaker information a device at address `ip` is registered with.
pub open spec fn device_speaker_spec(d: DeviceView, ip: IpAddr) -> SpeakerView {
    SpeakerView {
        id: normalize_speaker_id(d.id),
        name: friendly_name_spec(d),
        room_name: d.room_name,
        ip_address: ip,
        port: d.port,
        model_name: d.model_name,
        software_version: "unknown"@,
        boot_seq: 0,
        satellites: Seq::empty(),
    }
}

/// The views of a list of devices.
pub open spec fn devices_view(ds: Seq<Device>) -> Seq<DeviceView> {
    ds.map_values(|d: Device| d@)
}

/// The first `n` devices all have an address that parses.
pub open spec fn addresses_parse(ds: Seq<DeviceView>, n: int) -> bool {
    forall|i: int| 0 <= i < n ==> (#[trigger] parse_ip_spec(ds[i].ip_address)) is Some
}

// ---------------------------------------------------------------------------
// The abstract state
// ---------------------------------------------------------------------------

/// The abstract state of a [`StateManager`].
pub struct ManagerView {
    pub store: StoreView,
    pub watched: WatchMap,
    pub ip_to_speaker: Map<IpAddr, Seq<char>>,
    pub fanout: FanoutView,
    pub key_to_service: Map<Seq<char>, Service>,
    pub cleanup_timeout_ms: u64,
    /// The latest observation time the manager's stamp source has handed
    /// out; every later stamp it hands out is at least this.
    pub last_stamp: u64,
}

/// The manager after registering every device of `ds` (whose addresses all
/// parse), in order.
pub open spec fn add_devices_spec(m: ManagerView, ds: Seq<DeviceView>) -> ManagerView
    decreases ds.len(),
{
    if ds.len() == 0 {
        m
    } else {
        let prev = add_devices_spec(m, ds.drop_last());
        let d = ds.last();
        let ip = parse_ip_spec(d.ip_address).unwrap();
        ManagerView {
            store: add_speaker_spec(prev.store, device_speaker_spec(d, ip)),
            ip_to_speaker: prev.ip_to_speaker.insert(ip, normalize_speaker_id(d.id)),
            ..prev
        }
    }
}

/// The event announcing a write of `v` on `sid`, if that pair is watched and
/// the value can be carried by a change event.
pub open spec fn notify_spec(watched: WatchMap, sid: Seq<char>, v: PropertyValueView, stamp: WriteStamp) -> Seq<ChangeEventView> {
    if watched.contains_key((sid, v.kind().key_spec())) && v.kind() != PropertyKind::Topology {
        seq![event_view(sid, v, stamp)]
    } else {
        Seq::empty()
    }
}

/// The value a speaker reads for a property kind: from the coordinator's bag
/// for speaker-scoped properties of per-coordinator services, else its own.
pub open spec fn resolved_value(s: StoreView, kind: PropertyKind, sid: Seq<char>) -> Option<PropertyValueView> {
    stored_value(s.speaker_props, target_spec(s, kind, sid), kind)
}

/// A write of `v` for speaker `sid` stamped `stamp`: the value lands in the
/// bag reads of `sid` resolve to, and a change notifies watchers of `sid` and,
/// when it differs, of the speaker whose bag changed.
pub open spec fn set_property_spec(m: ManagerView, sid: Seq<char>, v: PropertyValueView, stamp: WriteStamp) -> (ManagerView, WriteOutcome) {
    let target = target_spec(m.store, v.kind(), sid);
    let w = bag_write(bag_or_empty(m.store.speaker_props, target), v, stamp);
    let events = if w.1 == WriteOutcome::Changed {
        notify_spec(m.watched, sid, v, stamp) + if target != sid {
            notify_spec(m.watched, target, v, stamp)
        } else {
            Seq::<ChangeEventView>::empty()
        }
    } else {
        Seq::<ChangeEventView>::empty()
    };
    (
        ManagerView {
            store: StoreView { speaker_props: m.store.speaker_props.insert(target, w.0), ..m.store },
            fanout: deliver_all(m.fanout, events),
            ..m
        },
        w.1,
    )
}

/// A write of `v` into group `gid`'s bag stamped `stamp`; a change notifies
/// watchers of the group's coordinator.
pub open spec fn set_group_property_spec(m: ManagerView, gid: Seq<char>, v: PropertyValueView, stamp: WriteStamp) -> (ManagerView, WriteOutcome) {
    let w = bag_write(bag_or_empty(m.store.group_props, gid), v, stamp);
    let events = if w.1 == WriteOutcome::Changed && m.store.groups.contains_key(gid) {
        notify_spec(m.watched, m.store.groups[gid].coordinator_id, v, stamp)
    } else {
        Seq::<ChangeEventView>::empty()
    };
    (
        ManagerView {
            store: StoreView { group_props: m.store.group_props.insert(gid, w.0), ..m.store },
            fanout: deliver_all(m.fanout, events),
            ..m
        },
        w.1,
    )
}

/// The manager after moving speaker `sid` to address `new_ip`: nothing
/// changes for an unknown speaker or an unchanged address.
pub open spec fn update_ip_spec(m: ManagerView, sid: Seq<char>, new_ip: IpAddr) -> ManagerView {
    if m.store.speakers.contains_key(sid) && m.store.speakers[sid].ip_address != new_ip {
        let old_ip = m.store.speakers[sid].ip_address;
        ManagerView {
            store: StoreView {
                speakers: m.store.speakers.insert(sid, SpeakerView { ip_address: new_ip, ..m.store.speakers[sid] }),
                ..m.store
            },
            ip_to_speaker: m.ip_to_speaker.remove(old_ip).insert(new_ip, sid),
            ..m
        }
    } else {
        m
    }
}

/// The store after adding each speaker of `sp`, in order.
pub open spec fn add_speakers_spec(s: StoreView, sp: Seq<SpeakerView>) -> StoreView
    decreases sp.len(),
{
    if sp.len() == 0 {
        s
    } else {
        add_speaker_spec(add_speakers_spec(s, sp.drop_last()), sp.last())
    }
}

/// The store after adding each group of `gs`, in order.
pub open spec fn add_groups_spec(s: StoreView, gs: Seq<GroupInfoView>) -> StoreView
    decreases gs.len(),
{
    if gs.len() == 0 {
        s
    } else {
        add_group_spec(add_groups_spec(s, gs.drop_last()), gs.last())
    }
}

/// The manager after loading topology `t`: its speakers, its groups, and the
/// topology as the system value written with `stamp`.
pub open spec fn initialize_spec(m: ManagerView, t: TopologyView, stamp: WriteStamp) -> ManagerView {
    let s = add_groups_spec(add_speakers_spec(m.store, t.speakers), t.groups);
    ManagerView {
        store: StoreView {
            system_props: bag_write(s.system_props, PropertyValueView::Topology(t), stamp).0,
            ..s
        },
        ..m
    }
}

/// Where a subscription to `service` for speaker `sid` at `ip` is routed.
pub open spec fn subscription_target_spec(s: StoreView, sid: Seq<char>, ip: IpAddr, service: Service) -> (Seq<char>, IpAddr) {
    if service.scope_spec() == ServiceScope::PerCoordinator {
        let c = resolve_coordinator_spec(s, sid);
        if c == sid {
            (sid, ip)
        } else {
            (c, if s.speakers.contains_key(c) { s.speakers[c].ip_address } else { ip })
        }
    } else {
        (sid, ip)
    }
}

/// Delivering two batches in turn is delivering their concatenation.
pub proof fn lemma_deliver_concat(f: FanoutView, a: Seq<ChangeEventView>, b: Seq<ChangeEventView>)
    ensures
        deliver_all(deliver_all(f, a), b) == deliver_all(f, a + b),
{
    let x = deliver_all(deliver_all(f, a), b);
    let y = deliver_all(f, a + b);
    assert forall|i: int| 0 <= i < x.subscribers.len() implies x.subscribers[i] == y.subscribers[i] by {
        assert(f.subscribers[i].1 + a + b =~= f.subscribers[i].1 + (a + b));
    }
    assert(x.subscribers =~= y.subscribers);
}

/// Delivering nothing changes nothing.
pub proof fn lemma_deliver_empty(f: FanoutView)
    ensures
        deliver_all(f, Seq::empty()) == f,
{
    let x = deliver_all(f, Seq::empty());
    assert forall|i: int| 0 <= i < x.subscribers.len() implies x.subscribers[i] == f.subscribers[i] by {
        assert(f.subscribers[i].1 + Seq::<ChangeEventView>::empty() =~= f.subscribers[i].1);
    }
    assert(x.subscribers =~= f.subscribers);
}

// ---------------------------------------------------------------------------
// StateManager
// ---------------------------------------------------------------------------

/// Core state manager with a synchronous API.
#[derive(Debug)]
pub struct StateManager {
    store: StateStore,
    watched: WatchCounts,
    ip_to_speaker: IpMap,
    fanout: EventFanout,
    key_to_service: KeyServices,
    cleanup_timeout_ms: u64,
    last_stamp: u64,
}

/// A handle on one independent stream of change events.
///
/// Each iterator receives every event emitted after it was created, in emit
/// order; iterators never compete for events.
///
/// The manager keeps an iterator's queue until [`ChangeIterator::close`] is
/// called: an iterator that is merely dropped goes on receiving (and
/// holding) events. Owners that drop iterators implicitly, such as a `Drop`
/// impl around a shared manager, must close them.
#[derive(Debug)]
pub struct ChangeIterator {
    id: u64,
}

/// Builder for [`StateManager`] configuration.
#[derive(Debug)]
pub struct StateManagerBuilder {
    cleanup_timeout_ms: u64,
}

impl View for StateManager {
    type V = ManagerView;

    closed spec fn view(&self) -> ManagerView {
        ManagerView {
            store: self.store@,
            watched: self.watched@,
            ip_to_speaker: self.ip_to_speaker@,
            fanout: self.fanout@,
            key_to_service: self.key_to_service@,
            cleanup_timeout_ms: self.cleanup_timeout_ms,
            last_stamp: self.last_stamp,
        }
    }
}

impl ChangeIterator {
    /// The subscriber id this iterator reads from.
    pub closed spec fn id_spec(&self) -> u64 {
        self.id
    }

    /// Takes the oldest event waiting for this iterator, without blocking.
    pub fn try_recv(&self, manager: &mut StateManager) -> (r: Option<ChangeEvent>)
        requires
            old(manager).wf(),
        ensures
            final(manager).wf(),
            final(manager)@ == (ManagerView { fanout: final(manager)@.fanout, ..old(manager)@ }),
            final(manager)@.fanout.next_id == old(manager)@.fanout.next_id,
            pending(old(manager)@.fanout, self.id_spec()).len() == 0 ==> r is None && final(manager)@
                == old(manager)@,
            pending(old(manager)@.fanout, self.id_spec()).len() > 0 ==> (r matches Some(e) && e@
                == pending(old(manager)@.fanout, self.id_spec())[0] && pending(
                final(manager)@.fanout,
                self.id_spec(),
            ) == pending(old(manager)@.fanout, self.id_spec()).drop_first()),
            forall|other: u64|
                other != self.id_spec() ==> pending(final(manager)@.fanout, other) == pending(
                    old(manager)@.fanout,
                    other,
                ),
            forall|other: u64|
                has_subscriber(final(manager)@.fanout, other) == has_subscriber(
                    old(manager)@.fanout,
                    other,
                ),
    {
        manager.fanout.take_next(self.id)
    }

    /// Takes every event currently waiting for this iterator, oldest first.
    pub fn try_iter(&self, manager: &mut StateManager) -> (r: Vec<ChangeEvent>)
        requires
            old(manager).wf(),
        ensures
            final(manager).wf(),
            final(manager)@ == (ManagerView { fanout: final(manager)@.fanout, ..old(manager)@ }),
            final(manager)@.fanout.next_id == old(manager)@.fanout.next_id,
            r@.map_values(|e: ChangeEvent| e@) == pending(old(manager)@.fanout, self.id_spec()),
            pending(final(manager)@.fanout, self.id_spec()).len() == 0,
            forall|other: u64|
                other != self.id_spec() ==> pending(final(manager)@.fanout, other) == pending(
                    old(manager)@.fanout,
                    other,
                ),
            forall|other: u64|
                has_subscriber(final(manager)@.fanout, other) == has_subscriber(
                    old(manager)@.fanout,
                    other,
                ),
    {
        let mut out: Vec<ChangeEvent> = Vec::new();
        let ghost start = manager@;
        loop
            invariant
                manager.wf(),
                manager@ == (ManagerView { fanout: manager@.fanout, ..start }),
                manager@.fanout.next_id == start.fanout.next_id,
                out@.map_values(|e: ChangeEvent| e@) + pending(manager@.fanout, self.id) == pending(start.fanout, self.id),
                forall|other: u64|
                    other != self.id ==> pending(manager@.fanout, other) == pending(start.fanout, other),
                forall|other: u64|
                    has_subscriber(manager@.fanout, other) == has_subscriber(start.fanout, other),
                start == old(manager)@,
            ensures
                manager.wf(),
                manager@ == (ManagerView { fanout: manager@.fanout, ..start }),
                manager@.fanout.next_id == start.fanout.next_id,
                out@.map_values(|e: ChangeEvent| e@) == pending(start.fanout, self.id),
                pending(manager@.fanout, self.id).len() == 0,
                forall|other: u64|
                    other != self.id ==> pending(manager@.fanout, other) == pending(start.fanout, other),
                forall|other: u64|
                    has_subscriber(manager@.fanout, other) == has_subscriber(start.fanout, other),
            decreases pending(manager@.fanout, self.id).len(),
        {
            let ghost before = manager@.fanout;
            let ghost ob = out@.map_values(|e: ChangeEvent| e@);
            match manager.fanout.take_next(self.id) {
                Some(e) => {
                    out.push(e);
                    proof {
                        assert(out@.map_values(|e: ChangeEvent| e@) =~= ob.push(pending(before, self.id)[0]));
                        assert(pending(before, self.id) =~= seq![pending(before, self.id)[0]] + pending(before, self.id).drop_first());
                        assert(ob.push(pending(before, self.id)[0]) + pending(before, self.id).drop_first()
                            =~= ob + pending(before, self.id));
                    }
                },
                None => {
                    proof {
                        assert(ob + pending(before, self.id) =~= ob);
                    }
                    break;
                },
            }
        }
        out
    }

    /// Stops this iterator; the other iterators keep their events.
    pub fn close(self, manager: &mut StateManager)
        requires
            old(manager).wf(),
        ensures
            final(manager).wf(),
            final(manager)@ == (ManagerView {
                fanout: FanoutView {
                    next_id: old(manager)@.fanout.next_id,
                    subscribers: old(manager)@.fanout.subscribers.filter(
                        |s: (u64, Seq<ChangeEventView>)| s.0 != self.id_spec(),
                    ),
                },
                ..old(manager)@
            }),
    {
        manager.fanout.unsubscribe(self.id);
    }
}

impl StateManagerBuilder {
    /// The default configuration: a five second cleanup timeout.
    pub fn default() -> (r: StateManagerBuilder)
        ensures
            r.cleanup_timeout_spec() == 5000,
    {
        StateManagerBuilder { cleanup_timeout_ms: 5000 }
    }

    /// The configured cleanup timeout, in milliseconds.
    pub closed spec fn cleanup_timeout_spec(&self) -> u64 {
        self.cleanup_timeout_ms
    }

    /// Sets the cleanup timeout for subscriptions, in milliseconds.
    pub fn cleanup_timeout(self, timeout_ms: u64) -> (r: StateManagerBuilder)
        ensures
            r.cleanup_timeout_spec() == timeout_ms,
    {
        StateManagerBuilder { cleanup_timeout_ms: timeout_ms }
    }

    /// Builds an empty manager with this configuration.
    pub fn build(self) -> (r: Result<StateManager, StateError>)
        ensures
            r matches Ok(m) && m.wf() && m@ == empty_manager_spec(self.cleanup_timeout_spec()),
    {
        let store = StateStore::new();
        let watched = WatchCounts::new();
        let ip_to_speaker: IpMap = IpMap::new();
        let fanout = EventFanout::new();
        let key_to_service = KeyServices::new();
        let m = StateManager {
            store,
            watched,
            ip_to_speaker,
            fanout,
            key_to_service,
            cleanup_timeout_ms: self.cleanup_timeout_ms,
            last_stamp: 0,
        };
        proof {
            assert(m@.fanout.subscribers =~= Seq::<(u64, Seq<ChangeEventView>)>::empty());
        }
        Ok(m)
    }
}

/// The abstract state of a manager is valid: every watched pair is held, and
/// subscriber ids are distinct and below the next id.
pub open spec fn manager_valid(m: ManagerView) -> bool {
    all_held(m.watched) && fanout_wf(m.fanout)
}

/// A manager that knows nothing yet.
pub open spec fn empty_manager_spec(cleanup_timeout_ms: u64) -> ManagerView {
    ManagerView {
        store: StoreView {
            speakers: Map::empty(),
            ip_to_speaker: Map::empty(),
            speaker_props: Map::empty(),
            groups: Map::empty(),
            group_props: Map::empty(),
            system_props: Map::empty(),
            speaker_to_group: Map::empty(),
            satellite_ids: Set::empty(),
        },
        watched: Map::empty(),
        ip_to_speaker: Map::empty(),
        fanout: FanoutView { next_id: 0, subscribers: Seq::empty() },
        key_to_service: Map::empty(),
        cleanup_timeout_ms,
        last_stamp: 0,
    }
}

impl StateManager {
    /// The parts are well formed.
    pub closed spec fn wf(&self) -> bool {
        &&& self.store.wf()
        &&& self.watched.wf()
        &&& self.ip_to_speaker.wf()
        &&& self.fanout.wf()
        &&& self.key_to_service.wf()
    }

    /// The abstract state of a well-formed manager is valid: every watched
    /// pair is held, and subscriber ids are distinct and below the next id.
    pub proof fn lemma_view_valid(&self)
        requires
            self.wf(),
        ensures
            manager_valid(self@),
    {
        self.watched.lemma_wf_all_held();
        self.fanout.lemma_wf_view();
    }

    /// A manager with default settings.
    pub fn new() -> (r: Result<StateManager, StateError>)
        ensures
            r matches Ok(m) && m.wf() && m@ == empty_manager_spec(5000),
    {
        Self::builder().build()
    }

    /// A builder with default settings.
    pub fn builder() -> (r: StateManagerBuilder)
        ensures
            r.cleanup_timeout_spec() == 5000,
    {
        StateManagerBuilder::default()
    }

    /// The configured cleanup timeout, in milliseconds.
    pub fn cleanup_timeout_ms(&self) -> (r: u64)
        ensures
            r == self@.cleanup_timeout_ms,
    {
        self.cleanup_timeout_ms
    }

    /// Registers discovered devices, in order.
    ///
    /// Each device becomes a speaker named by its room (or by its device name
    /// when the room is empty or "Unknown"), and its address maps back to it.
    /// The first device whose address does not parse stops the registration
    /// with `InvalidIpAddress`; the devices before it stay registered.
    pub fn add_devices(&mut self, devices: Vec<Device>) -> (r: Result<(), StateError>)
        requires
            old(self).wf(),
        ensures
            final(self).wf(),
            r is Ok <==> addresses_parse(devices_view(devices@), devices@.len() as int),
            r is Ok ==> final(self)@ == add_devices_spec(old(self)@, devices_view(devices@)),
            r matches Err(e) ==> exists|k: int|
                0 <= k < devices@.len() && addresses_parse(devices_view(devices@), k)
                    && parse_ip_spec(#[trigger] devices@[k].ip_address@) is None
                    && (e matches StateError::InvalidIpAddress(s) && s@ == devices@[k].ip_address@)
                    && final(self)@ == add_devices_spec(old(self)@, devices_view(devices@).take(k)),
    {
        let ghost ds = devices_view(devices@);
        let mut i: usize = 0;
        proof {
            assert(ds.take(0) =~= Seq::<DeviceView>::empty());
        }
        while i < devices.len()
            invariant
                self.wf(),
                i <= devices.len(),
                ds == devices_view(devices@),
                addresses_parse(ds, i as int),
                self@ == add_devices_spec(old(self)@, ds.take(i as int)),
            decreases devices.len() - i,
        {
            let device = &devices[i];
            assert(ds[i as int] == device@);
            let ip = match parse_ip_addr(device.ip_address.as_str()) {
                Some(ip) => ip,
                None => {
                    proof {
                        assert(parse_ip_spec(ds[i as int].ip_address) is None);
                        assert(parse_ip_spec(devices@[i as int].ip_address@) is None);
                    }
                    return Err(StateError::InvalidIpAddress(device.ip_address.clone()));
                },
            };
            let speaker_id = SpeakerId::new(device.id.as_str());
            let use_name = device.room_name.as_str().unicode_len() == 0 || str_eq(
                device.room_name.as_str(),
                "Unknown",
            );
            let friendly_name = if use_name {
                device.name.clone()
            } else {
                device.room_name.clone()
            };
            let info = Speaker {
                id: speaker_id.view_clone(),
                name: friendly_name,
                room_name: device.room_name.clone(),
                ip_address: ip,
                port: device.port,
                model_name: device.model_name.clone(),
                software_version: "unknown".to_owned(),
                boot_seq: 0,
                satellites: Vec::new(),
            };
            proof {
                assert(info@.satellites =~= Seq::<Seq<char>>::empty());
                assert(info@ == device_speaker_spec(ds[i as int], ip));
            }
            self.ip_to_speaker.insert(ip, speaker_id);
            self.store.add_speaker(info);
            proof {
                let t = ds.take(i + 1);
                assert(t.drop_last() =~= ds.take(i as int));
                assert(t.last() == ds[i as int]);
                assert(addresses_parse(ds, i + 1));
            }
            i = i + 1;
        }
        proof {
            assert(ds.take(devices@.len() as int) =~= ds);
        }
        Ok(())
    }

    /// Copies of all speakers' information.
    pub fn speaker_infos(&self) -> (r: Vec<Speaker>)
        requires
            self.wf(),
        ensures
            seq_view(r@).len() == self@.store.speakers.dom().len(),
            forall|i: int| 0 <= i < r@.len() ==> self@.store.speakers.contains_key(#[trigger] r@[i].id@)
                && self@.store.speakers[r@[i].id@] == r@[i]@,
            forall|k: Seq<char>| self@.store.speakers.contains_key(k) ==> exists|i: int| 0 <= i < r@.len() && #[trigger] r@[i].id@ == k,
    {
        self.store.speakers()
    }

    /// A copy of one speaker's information.
    pub fn speaker_info(&self, speaker_id: &SpeakerId) -> (r: Option<Speaker>)
        requires
            self.wf(),
        ensures
            opt_view(r) == (if self@.store.speakers.contains_key(speaker_id@) {
                Some(self@.store.speakers[speaker_id@])
            } else {
                None
            }),
    {
        self.store.speaker(speaker_id)
    }

    /// A speaker's IP address.
    pub fn get_speaker_ip(&self, speaker_id: &SpeakerId) -> (r: Option<IpAddr>)
        requires
            self.wf(),
        ensures
            r == (if self@.store.speakers.contains_key(speaker_id@) {
                Some(self@.store.speakers[speaker_id@].ip_address)
            } else {
                None
            }),
    {
        match self.store.speaker(speaker_id) {
            Some(s) => Some(s.ip_address),
            None => None,
        }
    }

    /// A speaker's boot sequence number.
    pub fn get_boot_seq(&self, speaker_id: &SpeakerId) -> (r: Option<u32>)
        requires
            self.wf(),
        ensures
            r == (if self@.store.speakers.contains_key(speaker_id@) {
                Some(self@.store.speakers[speaker_id@].boot_seq)
            } else {
                None
            }),
    {
        match self.store.speaker(speaker_id) {
            Some(s) => Some(s.boot_seq),
            None => None,
        }
    }

    /// Moves a known speaker to a new address, in the store and in the
    /// reverse map; an unknown speaker or an unchanged address changes nothing.
    pub fn update_speaker_ip(&mut self, speaker_id: &SpeakerId, new_ip: IpAddr)
        requires
            old(self).wf(),
        ensures
            final(self).wf(),
            update_ip_spec(old(self)@, speaker_id@, new_ip) == final(self)@,
    {
        let old_ip = self.store.update_speaker_ip_address(speaker_id, new_ip);
        match old_ip {
            Some(old_ip) => {
                self.ip_to_speaker.remove(&old_ip);
                self.ip_to_speaker.insert(new_ip, speaker_id.view_clone());
            },
            None => {},
        }
    }

    /// The satellite speaker ids, each once.
    pub fn get_satellite_ids(&self) -> (r: Vec<SpeakerId>)
        requires
            self.wf(),
        ensures
            seq_view(r@).to_set() == self@.store.satellite_ids,
            seq_view(r@).no_duplicates(),
    {
        self.store.satellite_ids()
    }

    /// Whether another iterator can be handed out (subscriber ids are not
    /// exhausted).
    pub fn can_iter(&self) -> (r: bool)
        requires
            self.wf(),
        ensures
            r == (self@.fanout.next_id < u64::MAX),
    {
        self.fanout.next_id() < u64::MAX
    }

    /// A new, independent iterator over change events emitted from now on.
    pub fn iter(&mut self) -> (it: ChangeIterator)
        requires
            old(self).wf(),
            old(self)@.fanout.next_id < u64::MAX,
        ensures
            final(self).wf(),
            it.id_spec() == old(self)@.fanout.next_id,
            final(self)@ == (ManagerView {
                fanout: FanoutView {
                    next_id: (old(self)@.fanout.next_id + 1) as u64,
                    subscribers: old(self)@.fanout.subscribers.push(
                        (old(self)@.fanout.next_id, Seq::<ChangeEventView>::empty()),
                    ),
                },
                ..old(self)@
            }),
    {
        let id = self.fanout.subscribe();
        ChangeIterator { id }
    }

    /// Emits the change event for `value` on `speaker_id` if that pair is
    /// watched.
    fn maybe_emit_change(&mut self, speaker_id: &SpeakerId, value: &PropertyValue, stamp: WriteStamp)
        requires
            old(self).wf(),
        ensures
            final(self).wf(),
            final(self)@ == (ManagerView {
                fanout: deliver_all(old(self)@.fanout, notify_spec(old(self)@.watched, speaker_id@, value@, stamp)),
                ..old(self)@
            }),
    {
        let kind = value.kind();
        if !self.watched.is_pair_watched(speaker_id, kind.key()) {
            proof {
                lemma_deliver_empty(self@.fanout);
            }
            return;
        }
        match PropertyChange::from_value(value) {
            Some(change) => {
                let event = ChangeEvent::new(speaker_id.view_clone(), change, stamp);
                self.fanout.send(&event);
            },
            None => {
                proof {
                    lemma_deliver_empty(self@.fanout);
                }
            },
        }
    }

    /// Writes a stored value for a speaker with explicit provenance.
    pub fn set_value_stamped(&mut self, speaker_id: &SpeakerId, value: PropertyValue, stamp: WriteStamp) -> (r: WriteOutcome)
        requires
            old(self).wf(),
        ensures
            final(self).wf(),
            (final(self)@, r) == set_property_spec(old(self)@, speaker_id@, value@, stamp),
    {
        let target = self.store.resolve_target(value.kind(), speaker_id);
        let kept = value.view_clone();
        let outcome = self.store.set_value(&target, value, stamp);
        let ghost after_write = self@;
        if outcome.changed() {
            self.maybe_emit_change(speaker_id, &kept, stamp);
            let ghost mid = self@;
            if !target.view_eq(speaker_id) {
                self.maybe_emit_change(&target, &kept, stamp);
                proof {
                    lemma_deliver_concat(
                        after_write.fanout,
                        notify_spec(after_write.watched, speaker_id@, kept@, stamp),
                        notify_spec(after_write.watched, target@, kept@, stamp),
                    );
                }
            } else {
                proof {
                    assert(notify_spec(after_write.watched, speaker_id@, kept@, stamp) + Seq::<ChangeEventView>::empty()
                        =~= notify_spec(after_write.watched, speaker_id@, kept@, stamp));
                }
            }
        } else {
            proof {
                lemma_deliver_empty(self@.fanout);
            }
        }
        outcome
    }

    /// Writes a property value for a speaker with explicit provenance.
    ///
    /// The write lands where reads of the speaker resolve to (the
    /// coordinator's bag for speaker-scoped properties of per-coordinator
    /// services). A write older than the stored observation is rejected with
    /// no effect. A change notifies watchers of the requesting speaker and, if
    /// it differs, of the speaker whose bag changed.
    pub fn set_property_stamped<P: SonosProperty>(&mut self, speaker_id: &SpeakerId, value: P, stamp: WriteStamp) -> (r: WriteOutcome)
        requires
            old(self).wf(),
        ensures
            final(self).wf(),
            (final(self)@, r) == set_property_spec(old(self)@, speaker_id@, P::wrap_spec(value@), stamp),
    {
        let v = value.to_value();
        self.set_value_stamped(speaker_id, v, stamp)
    }

    /// Writes a property value for a speaker, stamped as a local action
    /// observed now by the manager's stamp source (see [`Self::next_stamp`]),
    /// so it is never older than any stamp the manager handed out before.
    pub fn set_property<P: SonosProperty>(&mut self, speaker_id: &SpeakerId, value: P)
        requires
            old(self).wf(),
        ensures
            final(self).wf(),
            exists|st: WriteStamp|
                st.source == ChangeSource::LocalAction && st.observed_at >= old(self)@.last_stamp
                    && final(self)@ == (ManagerView {
                    last_stamp: st.observed_at,
                    ..(#[trigger] set_property_spec(old(self)@, speaker_id@, P::wrap_spec(value@), st)).0
                }),
    {
        let ghost m0 = self@;
        let stamp = self.next_stamp(ChangeSource::LocalAction);
        let ghost m1 = self@;
        let ghost v = P::wrap_spec(value@);
        self.set_property_stamped(speaker_id, value, stamp);
        assert(set_property_spec(m1, speaker_id@, v, stamp).0 == (ManagerView {
            last_stamp: stamp.observed_at,
            ..set_property_spec(m0, speaker_id@, v, stamp).0
        }));
    }

    /// A stamp observed now, from a monotone source: the clock's reading,
    /// raised to the latest stamp this manager handed out if the clock reads
    /// earlier. Stamps it hands out never go back in time.
    pub fn next_stamp(&mut self, source: ChangeSource) -> (r: WriteStamp)
        requires
            old(self).wf(),
        ensures
            final(self).wf(),
            r.source == source,
            r.observed_at >= old(self)@.last_stamp,
            final(self)@ == (ManagerView { last_stamp: r.observed_at, ..old(self)@ }),
    {
        let reading = WriteStamp::now(source).observed_at;
        let t = if reading > self.last_stamp {
            reading
        } else {
            self.last_stamp
        };
        self.last_stamp = t;
        WriteStamp::observed_at(source, t)
    }

    /// The current value of a property for a speaker, read through the
    /// coordinator where the property resolves to it.
    pub fn get_property<P: SonosProperty>(&self, speaker_id: &SpeakerId) -> (r: Option<P>)
        requires
            self.wf(),
        ensures
            opt_view(r) == (match resolved_value(self@.store, P::kind_spec(), speaker_id@) {
                Some(v) => P::unwrap_spec(v),
                None => None,
            }),
    {
        self.store.get_resolved::<P>(speaker_id)
    }

    /// The current value of a group property.
    pub fn get_group_property<P: SonosProperty>(&self, group_id: &GroupId) -> (r: Option<P>)
        requires
            self.wf(),
        ensures
            opt_view(r) == (match stored_value(self@.store.group_props, group_id@, P::kind_spec()) {
                Some(v) => P::unwrap_spec(v),
                None => None,
            }),
    {
        self.store.get_group::<P>(group_id)
    }

    /// Writes a group property value with explicit provenance; a change
    /// notifies watchers of the group's coordinator.
    pub fn set_group_property_stamped<P: SonosProperty>(&mut self, group_id: &GroupId, value: P, stamp: WriteStamp) -> (r: WriteOutcome)
        requires
            old(self).wf(),
        ensures
            final(self).wf(),
            (final(self)@, r) == set_group_property_spec(old(self)@, group_id@, P::wrap_spec(value@), stamp),
    {
        let v = value.to_value();
        let kept = v.view_clone();
        let outcome = self.store.set_group_value(group_id, v, stamp);
        if !outcome.changed() {
            proof {
                lemma_deliver_empty(self@.fanout);
            }
            return outcome;
        }
        match self.store.group(group_id) {
            Some(g) => {
                self.maybe_emit_change(&g.coordinator_id, &kept, stamp);
            },
            None => {
                proof {
                    lemma_deliver_empty(self@.fanout);
                }
            },
        }
        outcome
    }

    /// Writes a group property value, stamped as a local action observed now
    /// by the manager's stamp source (see [`Self::next_stamp`]).
    pub fn set_group_property<P: SonosProperty>(&mut self, group_id: &GroupId, value: P)
        requires
            old(self).wf(),
        ensures
            final(self).wf(),
            exists|st: WriteStamp|
                st.source == ChangeSource::LocalAction && st.observed_at >= old(self)@.last_stamp
                    && final(self)@ == (ManagerView {
                    last_stamp: st.observed_at,
                    ..(#[trigger] set_group_property_spec(old(self)@, group_id@, P::wrap_spec(value@), st)).0
                }),
    {
        let ghost m0 = self@;
        let stamp = self.next_stamp(ChangeSource::LocalAction);
        let ghost m1 = self@;
        let ghost v = P::wrap_spec(value@);
        self.set_group_property_stamped(group_id, value, stamp);
        assert(set_group_property_spec(m1, group_id@, v, stamp).0 == (ManagerView {
            last_stamp: stamp.observed_at,
            ..set_group_property_spec(m0, group_id@, v, stamp).0
        }));
    }

    /// Adds one direct watch hold on `(speaker_id, property_key)`; the pair
    /// stays watched until every hold is released.
    pub fn register_watch(&mut self, speaker_id: &SpeakerId, property_key: &str)
        requires
            old(self).wf(),
            holds_of(old(self)@.watched, (speaker_id@, property_key@)).direct < usize::MAX,
        ensures
            final(self).wf(),
            final(self)@ == (ManagerView {
                watched: retain_direct_spec(old(self)@.watched, (speaker_id@, property_key@)),
                ..old(self)@
            }),
    {
        self.watched.retain_direct_watch(speaker_id, property_key);
    }

    /// Releases one direct watch hold; releasing a pair that is not held
    /// changes nothing.
    pub fn unregister_watch(&mut self, speaker_id: &SpeakerId, property_key: &str)
        requires
            old(self).wf(),
        ensures
            final(self).wf(),
            final(self)@ == (ManagerView {
                watched: release_direct_spec(old(self)@.watched, (speaker_id@, property_key@)),
                ..old(self)@
            }),
    {
        self.watched.release_direct_watch(speaker_id, property_key);
    }

    /// Whether `(speaker_id, property_key)` has any watch hold.
    pub fn is_watched(&self, speaker_id: &SpeakerId, property_key: &str) -> (r: bool)
        requires
            self.wf(),
        ensures
            r == self@.watched.contains_key((speaker_id@, property_key@)),
    {
        self.watched.is_pair_watched(speaker_id, property_key)
    }

    /// The watch holds on `(speaker_id, property_key)`.
    pub fn watch_holds(&self, speaker_id: &SpeakerId, property_key: &str) -> (r: WatchHolds)
        requires
            self.wf(),
        ensures
            r == holds_of(self@.watched, (speaker_id@, property_key@)),
    {
        self.watched.holds(speaker_id, property_key)
    }

    /// Watches property `P` of a speaker and returns its current value.
    pub fn watch_property_with_subscription<P: SonosProperty>(&mut self, speaker_id: &SpeakerId) -> (r: Result<Option<P>, StateError>)
        requires
            old(self).wf(),
            holds_of(old(self)@.watched, (speaker_id@, P::kind_spec().key_spec())).direct < usize::MAX,
        ensures
            final(self).wf(),
            final(self)@ == (ManagerView {
                watched: retain_direct_spec(old(self)@.watched, (speaker_id@, P::kind_spec().key_spec())),
                ..old(self)@
            }),
            r matches Ok(v) && opt_view(v) == (match resolved_value(old(self)@.store, P::kind_spec(), speaker_id@) {
                Some(x) => P::unwrap_spec(x),
                None => None,
            }),
    {
        let kind = P::kind();
        self.register_watch(speaker_id, kind.key());
        Ok(self.get_property::<P>(speaker_id))
    }

    /// Stops watching property `P` of a speaker (releases one hold).
    pub fn unwatch_property_with_subscription<P: SonosProperty>(&mut self, speaker_id: &SpeakerId)
        requires
            old(self).wf(),
        ensures
            final(self).wf(),
            final(self)@ == (ManagerView {
                watched: release_direct_spec(old(self)@.watched, (speaker_id@, P::kind_spec().key_spec())),
                ..old(self)@
            }),
    {
        let kind = P::kind();
        self.unregister_watch(speaker_id, kind.key());
    }

    /// Records a subscription-backed watch on `(speaker_id, key)` delivered
    /// through `service`.
    pub fn register_subscription_watch(&mut self, speaker_id: &SpeakerId, key: &str, service: Service)
        requires
            old(self).wf(),
        ensures
            final(self).wf(),
            final(self)@ == (ManagerView {
                watched: retain_subscription_spec(old(self)@.watched, (speaker_id@, key@)),
                key_to_service: old(self)@.key_to_service.insert(key@, service),
                ..old(self)@
            }),
    {
        crate::watch::register_subscription_watch(
            &mut self.watched,
            &mut self.key_to_service,
            speaker_id,
            key,
            service,
        );
    }

    /// A service subscription on the speaker at `ip` was torn down: clears the
    /// subscription hold of that speaker's keys of that service, keeping
    /// direct holds. An unknown address changes nothing.
    pub fn unregister_watches_for_service(&mut self, ip: IpAddr, service: Service)
        requires
            old(self).wf(),
        ensures
            final(self).wf(),
            !old(self)@.ip_to_speaker.contains_key(ip) ==> final(self)@ == old(self)@,
            old(self)@.ip_to_speaker.contains_key(ip) ==> final(self)@ == (ManagerView {
                watched: release_service_spec(
                    old(self)@.watched,
                    old(self)@.ip_to_speaker[ip],
                    KeyServices::keys_of(old(self)@.key_to_service, service),
                ),
                ..old(self)@
            }),
    {
        crate::watch::unregister_watches_for_service(
            &mut self.watched,
            &self.ip_to_speaker,
            &self.key_to_service,
            ip,
            service,
        );
    }

    /// Loads a topology: its speakers, then its groups, then the topology
    /// itself as the system value, stamped as a local action observed now by
    /// the manager's stamp source (see [`Self::next_stamp`]).
    pub fn initialize(&mut self, topology: Topology)
        requires
            old(self).wf(),
        ensures
            final(self).wf(),
            exists|st: WriteStamp|
                st.source == ChangeSource::LocalAction && st.observed_at >= old(self)@.last_stamp
                    && final(self)@ == (ManagerView {
                    last_stamp: st.observed_at,
                    ..#[trigger] initialize_spec(old(self)@, topology@, st)
                }),
    {
        let mut i: usize = 0;
        let ghost s0 = self@.store;
        proof {
            assert(topology@.speakers.take(0) =~= Seq::<SpeakerView>::empty());
        }
        while i < topology.speakers.len()
            invariant
                self.wf(),
                i <= topology.speakers.len(),
                self@ == (ManagerView { store: self@.store, ..old(self)@ }),
                self@.store == add_speakers_spec(s0, topology@.speakers.take(i as int)),
                s0 == old(self)@.store,
            decreases topology.speakers.len() - i,
        {
            let sp = topology.speakers[i].view_clone();
            self.store.add_speaker(sp);
            proof {
                let t = topology@.speakers.take(i + 1);
                assert(t.drop_last() =~= topology@.speakers.take(i as int));
                assert(t.last() == topology@.speakers[i as int]);
            }
            i = i + 1;
        }
        proof {
            assert(topology@.speakers.take(topology.speakers@.len() as int) =~= topology@.speakers);
        }
        let ghost s1 = self@.store;
        let mut j: usize = 0;
        proof {
            assert(topology@.groups.take(0) =~= Seq::<GroupInfoView>::empty());
        }
        while j < topology.groups.len()
            invariant
                self.wf(),
                j <= topology.groups.len(),
                self@ == (ManagerView { store: self@.store, ..old(self)@ }),
                self@.store == add_groups_spec(s1, topology@.groups.take(j as int)),
            decreases topology.groups.len() - j,
        {
            let g = topology.groups[j].view_clone();
            self.store.add_group(g);
            proof {
                let t = topology@.groups.take(j + 1);
                assert(t.drop_last() =~= topology@.groups.take(j as int));
                assert(t.last() == topology@.groups[j as int]);
            }
            j = j + 1;
        }
        proof {
            assert(topology@.groups.take(topology.groups@.len() as int) =~= topology@.groups);
        }
        let ghost before_stamp = self@;
        let stamp = self.next_stamp(ChangeSource::LocalAction);
        let ghost tv = topology@;
        self.store.set_system(topology, stamp);
        assert(self@ == (ManagerView { last_stamp: stamp.observed_at, ..initialize_spec(old(self)@, tv, stamp) }));
    }

    /// The store, for reading.
    pub fn store(&self) -> (r: &StateStore)
        ensures
            r@ == self@.store,
            self.wf() ==> r.wf(),
    {
        &self.store
    }

    /// Whether any speaker is known.
    pub fn is_initialized(&self) -> (r: bool)
        requires
            self.wf(),
        ensures
            r == (self@.store.speakers.dom().len() != 0),
    {
        !self.store.is_empty()
    }

    /// The number of known speakers.
    pub fn speaker_count(&self) -> (r: usize)
        requires
            self.wf(),
        ensures
            r == self@.store.speakers.dom().len(),
    {
        self.store.speaker_count()
    }

    /// The number of known groups.
    pub fn group_count(&self) -> (r: usize)
        requires
            self.wf(),
        ensures
            r == self@.store.groups.dom().len(),
    {
        self.store.group_count()
    }

    /// Copies of all current groups.
    pub fn groups(&self) -> (r: Vec<GroupInfo>)
        requires
            self.wf(),
        ensures
            seq_view(r@).len() == self@.store.groups.dom().len(),
            seq_view(r@).to_set() == self@.store.groups.values(),
    {
        self.store.groups()
    }

    /// A copy of one group.
    pub fn get_group(&self, group_id: &GroupId) -> (r: Option<GroupInfo>)
        requires
            self.wf(),
        ensures
            opt_view(r) == (if self@.store.groups.contains_key(group_id@) {
                Some(self@.store.groups[group_id@])
            } else {
                None
            }),
    {
        self.store.group(group_id)
    }

    /// The group a speaker belongs to.
    pub fn get_group_for_speaker(&self, speaker_id: &SpeakerId) -> (r: Option<GroupInfo>)
        requires
            self.wf(),
        ensures
            opt_view(r) == group_for_speaker_spec(self@.store, speaker_id@),
    {
        self.store.get_group_for_speaker(speaker_id)
    }

    /// Where a subscription to `service` for a speaker goes: to the group
    /// coordinator (at its address, or the given one if it is unknown) for
    /// per-coordinator services, else to the speaker itself.
    pub fn resolve_subscription_target(&self, speaker_id: &SpeakerId, speaker_ip: IpAddr, service: Service) -> (r: (SpeakerId, IpAddr))
        requires
            self.wf(),
        ensures
            (r.0@, r.1) == subscription_target_spec(self@.store, speaker_id@, speaker_ip, service),
    {
        if service.scope() == ServiceScope::PerCoordinator {
            let coordinator_id = self.store.resolve_coordinator(speaker_id);
            if coordinator_id.view_eq(speaker_id) {
                (speaker_id.view_clone(), speaker_ip)
            } else {
                let coord_ip = match self.store.speaker(&coordinator_id) {
                    Some(s) => s.ip_address,
                    None => speaker_ip,
                };
                (coordinator_id, coord_ip)
            }
        } else {
            (speaker_id.view_clone(), speaker_ip)
        }
    }

    /// Replaces the satellite speaker ids.
    pub fn set_satellite_ids(&mut self, ids: Vec<SpeakerId>)
        requires
            old(self).wf(),
        ensures
            final(self).wf(),
            final(self)@ == (ManagerView {
                store: StoreView { satellite_ids: seq_view(ids@).to_set(), ..old(self)@.store },
                ..old(self)@
            }),
    {
        self.store.set_satellite_ids(ids);
    }
}

} // verus!
