//! Demand-driven subscriptions over the event pipeline: which speaker is at
//! which address, how many watchers hold each service subscription, and the
//! decisions a watcher's arrival or departure calls for.
//!
//! The subscription calls themselves, and the tasks that feed events in, are
//! made by the caller with the answers these functions give.

use vstd::prelude::*;
use crate::decoder::{EnrichedEvent, EventData as StreamEventData};
use crate::decoders::{
    av_times_fit, convert_enriched_to_raw_event, converted, event_times_fit, transport_data_copies,
    AVTransportData, EventData, RawEvent,
};
use crate::error::StateError;
use crate::ids::{normalize_speaker_id, SpeakerId};
use crate::manager::{Device, DeviceView};
use crate::net::{parse_ip_addr, parse_ip_spec, IpAddr};
use crate::property::Service;
use crate::reactive_store::{add_speaker_spec, empty_store, held, set_speaker_spec, StateStoreView};
use crate::speaker::{Speaker, SpeakerView};
use crate::state_manager::StateManager as Pipeline;
use crate::table::Table;
use crate::text::{chars_of, concat_str, string_of};
use crate::value::{opt_view, SonosProperty};
use crate::viewed::{opt_str_view, seq_view, ViewEq};

verus! {

/// A service subscription on one speaker.
#[derive(Debug, Clone, Copy, PartialEq, Eq, Structural, Hash)]
pub struct SubscriptionKey {
    pub speaker_ip: IpAddr,
    pub service: Service,
}

impl View for SubscriptionKey {
    type V = SubscriptionKey;

    open spec fn view(&self) -> SubscriptionKey {
        *self
    }
}

impl ViewEq for SubscriptionKey {
    fn view_eq(&self, other: &Self) -> (r: bool) {
        *self == *other
    }

    fn view_clone(&self) -> (r: Self) {
        *self
    }
}

/// The abstract state of [`SubscriptionRefs`].
pub struct SubscriptionRefsView {
    /// Each registered speaker's address.
    pub speaker_ips: Map<Seq<char>, IpAddr>,
    /// How many watchers hold each live subscription (never zero).
    pub refs: Map<SubscriptionKey, usize>,
}

/// How many watchers hold `key`.
pub open spec fn ref_count_spec(refs: Map<SubscriptionKey, usize>, key: SubscriptionKey) -> nat {
    if refs.contains_key(key) {
        refs[key] as nat
    } else {
        0
    }
}

/// The counts after one more watcher takes `key`.
pub open spec fn acquired(refs: Map<SubscriptionKey, usize>, key: SubscriptionKey) -> Map<SubscriptionKey, usize> {
    refs.insert(key, (ref_count_spec(refs, key) + 1) as usize)
}

/// The counts after one watcher of `key` leaves: the key is forgotten with
/// its last watcher; a key nobody holds changes nothing.
pub open spec fn released(refs: Map<SubscriptionKey, usize>, key: SubscriptionKey) -> Map<SubscriptionKey, usize> {
    if ref_count_spec(refs, key) == 0 {
        refs
    } else if ref_count_spec(refs, key) == 1 {
        refs.remove(key)
    } else {
        refs.insert(key, (ref_count_spec(refs, key) - 1) as usize)
    }
}

/// The debug name of a service.
pub open spec fn service_name(s: Service) -> Seq<char> {
    match s {
        Service::RenderingControl => "RenderingControl"@,
        Service::AVTransport => "AVTransport"@,
        Service::ZoneGroupTopology => "ZoneGroupTopology"@,
        Service::GroupRenderingControl => "GroupRenderingControl"@,
        Service::DeviceProperties => "DeviceProperties"@,
        Service::GroupManagement => "GroupManagement"@,
    }
}

/// The message of a failed subscription to `s`.
pub open spec fn subscribe_failure_text(s: Service, cause: Seq<char>) -> Seq<char> {
    "Failed to subscribe to "@ + service_name(s) + ": "@ + cause
}

/// Speaker addresses and reference counts of service subscriptions.
#[derive(Debug)]
pub struct SubscriptionRefs {
    speaker_ips: Table<SpeakerId, IpAddr>,
    refs: Table<SubscriptionKey, usize>,
}

impl View for SubscriptionRefs {
    type V = SubscriptionRefsView;

    closed spec fn view(&self) -> SubscriptionRefsView {
        SubscriptionRefsView { speaker_ips: self.speaker_ips@, refs: self.refs@ }
    }
}

fn service_name_exec(s: Service) -> (r: String)
    ensures
        r@ == service_name(s),
{
    let t = match s {
        Service::RenderingControl => "RenderingControl",
        Service::AVTransport => "AVTransport",
        Service::ZoneGroupTopology => "ZoneGroupTopology",
        Service::GroupRenderingControl => "GroupRenderingControl",
        Service::DeviceProperties => "DeviceProperties",
        Service::GroupManagement => "GroupManagement",
    };
    string_of(&chars_of(t))
}

impl SubscriptionRefs {
    /// The tables are well formed and no count is zero.
    pub closed spec fn wf(&self) -> bool {
        &&& self.speaker_ips.wf()
        &&& self.refs.wf()
        &&& forall|k: SubscriptionKey| #[trigger] self.refs@.contains_key(k) ==> self.refs@[k] > 0
    }

    /// No speakers and no subscriptions.
    pub fn new() -> (r: SubscriptionRefs)
        ensures
            r.wf(),
            r@.speaker_ips == Map::<Seq<char>, IpAddr>::empty(),
            r@.refs == Map::<SubscriptionKey, usize>::empty(),
    {
        SubscriptionRefs { speaker_ips: Table::new(), refs: Table::new() }
    }

    /// Records a speaker's address.
    pub fn register_speaker(&mut self, speaker_id: SpeakerId, ip: IpAddr)
        requires
            old(self).wf(),
        ensures
            final(self).wf(),
            final(self)@.speaker_ips == old(self)@.speaker_ips.insert(speaker_id@, ip),
            final(self)@.refs == old(self)@.refs,
    {
        self.speaker_ips.insert(speaker_id, ip);
    }

    /// A speaker's address, if registered.
    pub fn get_speaker_ip(&self, speaker_id: &SpeakerId) -> (r: Option<IpAddr>)
        requires
            self.wf(),
        ensures
            r == (if self@.speaker_ips.contains_key(speaker_id@) {
                Some(self@.speaker_ips[speaker_id@])
            } else {
                None
            }),
    {
        self.speaker_ips.get(speaker_id)
    }

    /// How many watchers hold a subscription.
    pub fn get_subscription_ref_count(&self, key: &SubscriptionKey) -> (r: usize)
        requires
            self.wf(),
        ensures
            r == ref_count_spec(self@.refs, *key),
    {
        match self.refs.get_ref(key) {
            Some(n) => *n,
            None => 0,
        }
    }

    /// Whether taking a reference on `key` first needs the subscription made:
    /// nobody holds it yet.
    pub fn needs_subscription(&self, key: &SubscriptionKey) -> (r: bool)
        requires
            self.wf(),
        ensures
            r == (ref_count_spec(self@.refs, *key) == 0),
    {
        !self.refs.contains_key(key)
    }

    /// Takes a reference on `key`, given the outcome of subscribing, which
    /// matters only when nobody held it: then a failure is reported and no
    /// reference is taken.
    pub fn ensure_subscription(&mut self, key: &SubscriptionKey, subscribed: Result<(), String>) -> (r: Result<
        (),
        StateError,
    >)
        requires
            old(self).wf(),
            ref_count_spec(old(self)@.refs, *key) < usize::MAX,
        ensures
            final(self).wf(),
            final(self)@.speaker_ips == old(self)@.speaker_ips,
            match (ref_count_spec(old(self)@.refs, *key) == 0, subscribed) {
                (true, Err(cause)) => {
                    &&& r matches Err(StateError::SubscriptionFailed(msg))
                    &&& msg@ == subscribe_failure_text(key.service, cause@)
                    &&& final(self)@.refs == old(self)@.refs
                },
                _ => {
                    &&& r is Ok
                    &&& final(self)@.refs == acquired(old(self)@.refs, *key)
                },
            },
    {
        let current = self.get_subscription_ref_count(key);
        if current == 0 {
            if let Err(cause) = subscribed {
                proof {
                    reveal_strlit("Failed to subscribe to ");
                    reveal_strlit(": ");
                }
                let a = concat_str("Failed to subscribe to ", service_name_exec(key.service).as_str());
                let b = concat_str(a.as_str(), ": ");
                let msg = concat_str(b.as_str(), cause.as_str());
                return Err(StateError::SubscriptionFailed(msg));
            }
        }
        self.refs.insert(*key, current + 1);
        Ok(())
    }

    /// Drops a reference on `key`; reports whether it was the last, in which
    /// case the subscription is forgotten and should be released. A key
    /// nobody holds changes nothing.
    pub fn release_subscription(&mut self, key: &SubscriptionKey) -> (last: bool)
        requires
            old(self).wf(),
        ensures
            final(self).wf(),
            final(self)@.speaker_ips == old(self)@.speaker_ips,
            last == (ref_count_spec(old(self)@.refs, *key) == 1),
            final(self)@.refs == released(old(self)@.refs, *key),
    {
        match self.refs.get_ref(key) {
            Some(n) => {
                let left = *n - 1;
                if left == 0 {
                    self.refs.remove(key);
                    true
                } else {
                    self.refs.insert(*key, left);
                    false
                }
            },
            None => false,
        }
    }

    /// Every live subscription with its count, once each, in no set order.
    pub fn subscription_stats(&self) -> (r: Vec<(SubscriptionKey, usize)>)
        requires
            self.wf(),
        ensures
            r@.len() == self@.refs.dom().len(),
            r@.to_set() == Set::new(|e: (SubscriptionKey, usize)| self@.refs.contains_key(e.0) && self@.refs[e.0] == e.1),
    {
        let keys = self.refs.keys();
        let mut out: Vec<(SubscriptionKey, usize)> = Vec::new();
        let mut i: usize = 0;
        proof {
            self.refs.lemma_key_seq();
        }
        let ghost ks = self.refs.key_seq();
        while i < keys.len()
            invariant
                self.wf(),
                i <= keys.len(),
                seq_view(keys@) == ks,
                ks == self.refs.key_seq(),
                ks.len() == self@.refs.dom().len(),
                ks.no_duplicates(),
                ks.to_set() == self@.refs.dom(),
                out@.len() == i,
                forall|j: int| 0 <= j < i ==> #[trigger] out@[j] == (ks[j], self@.refs[ks[j]]),
            decreases keys.len() - i,
        {
            let k = keys[i];
            assert(k@ == ks[i as int]);
            assert(ks.to_set().contains(ks[i as int]));
            let n = match self.refs.get_ref(&k) {
                Some(n) => *n,
                None => 0,
            };
            out.push((k, n));
            i = i + 1;
        }
        proof {
            let target = Set::new(|e: (SubscriptionKey, usize)| self@.refs.contains_key(e.0) && self@.refs[e.0] == e.1);
            assert forall|e: (SubscriptionKey, usize)| out@.to_set().contains(e) <==> target.contains(e) by {
                if out@.to_set().contains(e) {
                    let j = choose|j: int| 0 <= j < out@.len() && out@[j] == e;
                    assert(ks.to_set().contains(ks[j]));
                }
                if target.contains(e) {
                    assert(ks.to_set().contains(e.0));
                    let j = choose|j: int| 0 <= j < ks.len() && ks[j] == e.0;
                    assert(out@[j] == e);
                }
            }
            assert(out@.to_set() =~= target);
        }
        out
    }
}

// ---------------------------------------------------------------------------
// The reactive core
// ---------------------------------------------------------------------------

/// The speaker a registered device becomes in the store.
pub open spec fn registered_speaker(d: DeviceView, ip: IpAddr) -> SpeakerView {
    SpeakerView {
        id: normalize_speaker_id(d.id),
        name: d.name,
        room_name: d.name,
        ip_address: ip,
        port: d.port,
        model_name: d.model_name,
        software_version: "unknown"@,
        boot_seq: 0,
        satellites: Seq::empty(),
    }
}

/// The abstract state of a [`ReactiveCore`].
pub struct ReactiveView {
    pub store: StateStoreView,
    pub subscriptions: SubscriptionRefsView,
}

/// The state after registering devices `ds`, all of whose addresses parse.
pub open spec fn register_devices_spec(s: ReactiveView, ds: Seq<DeviceView>) -> ReactiveView
    decreases ds.len(),
{
    if ds.len() == 0 {
        s
    } else {
        let prev = register_devices_spec(s, ds.drop_last());
        let d = ds.last();
        let ip = parse_ip_spec(d.ip_address).unwrap();
        ReactiveView {
            store: add_speaker_spec(prev.store, registered_speaker(d, ip)),
            subscriptions: SubscriptionRefsView {
                speaker_ips: prev.subscriptions.speaker_ips.insert(normalize_speaker_id(d.id), ip),
                ..prev.subscriptions
            },
        }
    }
}

/// Whether the first `n` devices' addresses parse.
pub open spec fn first_addresses_parse(ds: Seq<DeviceView>, n: int) -> bool {
    forall|i: int| 0 <= i < n ==> (#[trigger] parse_ip_spec(ds[i].ip_address)) is Some
}

/// Whether a stream event's times fit once it becomes a decoder event.
pub open spec fn enriched_times_fit(e: EnrichedEvent) -> bool {
    match e.event_data {
        StreamEventData::AVTransportEvent(a) => forall|d: AVTransportData|
            transport_data_copies(d, a) ==> #[trigger] av_times_fit(d),
        _ => true,
    }
}

/// The pipeline with subscription bookkeeping: what a reactive manager keeps
/// besides its tasks and its event source.
#[derive(Debug)]
pub struct ReactiveCore {
    pipeline: Pipeline,
    subscriptions: SubscriptionRefs,
}

impl View for ReactiveCore {
    type V = ReactiveView;

    closed spec fn view(&self) -> ReactiveView {
        ReactiveView { store: self.pipeline.store_view(), subscriptions: self.subscriptions@ }
    }
}

impl ReactiveCore {
    /// The parts are well formed.
    pub closed spec fn wf(&self) -> bool {
        self.pipeline.wf() && self.subscriptions.wf()
    }

    /// The decoders events go through, in order.
    pub closed spec fn decoders(&self) -> Seq<crate::decoders::Decoder> {
        self.pipeline.decoders_view()
    }

    /// An empty store, the default decoders and no subscriptions.
    pub fn new() -> (r: ReactiveCore)
        ensures
            r.wf(),
            r@.store == empty_store(),
            r@.subscriptions.speaker_ips == Map::<Seq<char>, IpAddr>::empty(),
            r@.subscriptions.refs == Map::<SubscriptionKey, usize>::empty(),
            r.decoders() == seq![
                crate::decoders::Decoder::RenderingControl(crate::decoders::RenderingControlDecoder),
                crate::decoders::Decoder::AVTransport(crate::decoders::AVTransportDecoder),
                crate::decoders::Decoder::Topology(crate::decoders::TopologyDecoder),
            ],
    {
        ReactiveCore { pipeline: Pipeline::new(), subscriptions: SubscriptionRefs::new() }
    }

    /// The subscription bookkeeping.
    pub fn subscriptions(&self) -> (r: &SubscriptionRefs)
        ensures
            r@ == self@.subscriptions,
            self.wf() ==> r.wf(),
    {
        &self.subscriptions
    }

    /// Takes a watcher's reference on `key`, given the outcome of
    /// subscribing (which matters only when nobody held it).
    pub fn ensure_subscription(&mut self, key: &SubscriptionKey, subscribed: Result<(), String>) -> (r: Result<
        (),
        StateError,
    >)
        requires
            old(self).wf(),
            ref_count_spec(old(self)@.subscriptions.refs, *key) < usize::MAX,
        ensures
            final(self).wf(),
            final(self).decoders() == old(self).decoders(),
            final(self)@.store == old(self)@.store,
            final(self)@.subscriptions.speaker_ips == old(self)@.subscriptions.speaker_ips,
            match (ref_count_spec(old(self)@.subscriptions.refs, *key) == 0, subscribed) {
                (true, Err(cause)) => {
                    &&& r matches Err(StateError::SubscriptionFailed(msg))
                    &&& msg@ == subscribe_failure_text(key.service, cause@)
                    &&& final(self)@.subscriptions.refs == old(self)@.subscriptions.refs
                },
                _ => {
                    &&& r is Ok
                    &&& final(self)@.subscriptions.refs == acquired(old(self)@.subscriptions.refs, *key)
                },
            },
    {
        self.subscriptions.ensure_subscription(key, subscribed)
    }

    /// Drops a watcher's reference on `key`; reports whether it was the last.
    pub fn release_subscription(&mut self, key: &SubscriptionKey) -> (last: bool)
        requires
            old(self).wf(),
        ensures
            final(self).wf(),
            final(self).decoders() == old(self).decoders(),
            final(self)@.store == old(self)@.store,
            final(self)@.subscriptions.speaker_ips == old(self)@.subscriptions.speaker_ips,
            last == (ref_count_spec(old(self)@.subscriptions.refs, *key) == 1),
            final(self)@.subscriptions.refs == released(old(self)@.subscriptions.refs, *key),
    {
        self.subscriptions.release_subscription(key)
    }

    /// Registers devices the event source has accepted: each device's
    /// address is recorded and it becomes a speaker named by its device
    /// name. The first device whose address does not parse stops the
    /// registration with `InvalidIpAddress`; the devices before it stay.
    pub fn register_devices(&mut self, devices: Vec<Device>) -> (r: Result<(), StateError>)
        requires
            old(self).wf(),
        ensures
            final(self).wf(),
            final(self).decoders() == old(self).decoders(),
            r is Ok <==> first_addresses_parse(crate::manager::devices_view(devices@), devices@.len() as int),
            r is Ok ==> final(self)@ == register_devices_spec(old(self)@, crate::manager::devices_view(devices@)),
            r matches Err(e) ==> exists|k: int|
                0 <= k < devices@.len() && first_addresses_parse(crate::manager::devices_view(devices@), k)
                    && parse_ip_spec(#[trigger] devices@[k].ip_address@) is None
                    && (e matches StateError::InvalidIpAddress(s) && s@ == devices@[k].ip_address@)
                    && final(self)@ == register_devices_spec(
                    old(self)@,
                    crate::manager::devices_view(devices@).take(k),
                ),
    {
        let ghost ds = crate::manager::devices_view(devices@);
        let mut i: usize = 0;
        proof {
            assert(ds.take(0) =~= Seq::<DeviceView>::empty());
        }
        while i < devices.len()
            invariant
                self.wf(),
                self.decoders() == old(self).decoders(),
                i <= devices.len(),
                ds == crate::manager::devices_view(devices@),
                first_addresses_parse(ds, i as int),
                self@ == register_devices_spec(old(self)@, ds.take(i as int)),
            decreases devices.len() - i,
        {
            let device = &devices[i];
            assert(ds[i as int] == device@);
            let ip = match parse_ip_addr(device.ip_address.as_str()) {
                Some(ip) => ip,
                None => {
                    assert(parse_ip_spec(ds[i as int].ip_address) is None);
                    assert(parse_ip_spec(devices@[i as int].ip_address@) is None);
                    return Err(StateError::InvalidIpAddress(string_of(&chars_of(device.ip_address.as_str()))));
                },
            };
            let speaker_id = SpeakerId::new(device.id.as_str());
            self.subscriptions.register_speaker(speaker_id.view_clone(), ip);
            proof {
                reveal_strlit("unknown");
            }
            let speaker = Speaker {
                id: speaker_id,
                name: string_of(&chars_of(device.name.as_str())),
                room_name: string_of(&chars_of(device.name.as_str())),
                ip_address: ip,
                port: device.port,
                model_name: string_of(&chars_of(device.model_name.as_str())),
                software_version: string_of(&chars_of("unknown")),
                boot_seq: 0,
                satellites: Vec::new(),
            };
            assert(speaker@ == registered_speaker(ds[i as int], ip)) by {
                assert(seq_view(speaker.satellites@) =~= Seq::<Seq<char>>::empty());
            }
            self.pipeline.add_speaker(speaker);
            proof {
                assert(ds.take(i + 1).drop_last() =~= ds.take(i as int));
                assert(ds.take(i + 1).last() == ds[i as int]);
            }
            i = i + 1;
        }
        assert(ds.take(ds.len() as int) =~= ds);
        Ok(())
    }

    /// The subscription a watcher of property `P` on a speaker needs, or
    /// `SpeakerNotFound` for a speaker without a registered address.
    pub fn watch_key<P: SonosProperty>(&self, speaker_id: &SpeakerId) -> (r: Result<SubscriptionKey, StateError>)
        requires
            self.wf(),
        ensures
            self@.subscriptions.speaker_ips.contains_key(speaker_id@) ==> r == Ok::<SubscriptionKey, StateError>(
                SubscriptionKey {
                    speaker_ip: self@.subscriptions.speaker_ips[speaker_id@],
                    service: P::kind_spec().service_spec(),
                },
            ),
            !self@.subscriptions.speaker_ips.contains_key(speaker_id@) ==> (r matches Err(
                StateError::SpeakerNotFound(id),
            ) && id@ == speaker_id@),
    {
        match self.subscriptions.get_speaker_ip(speaker_id) {
            Some(ip) => Ok(SubscriptionKey { speaker_ip: ip, service: P::kind().service() }),
            None => Err(StateError::SpeakerNotFound(speaker_id.view_clone())),
        }
    }

    /// The current value of `P` for a speaker.
    pub fn get_property<P: SonosProperty>(&self, speaker_id: &SpeakerId) -> (r: Option<P>)
        requires
            self.wf(),
        ensures
            opt_view(r) == (match held(self@.store.speaker_props, speaker_id@, P::kind_spec()) {
                Some(v) => P::unwrap_spec(v),
                None => None,
            }),
    {
        self.pipeline.store().get::<P>(speaker_id)
    }

    /// Pushes a value fetched outside the event flow into the store.
    pub fn update_property<P: SonosProperty>(&mut self, speaker_id: &SpeakerId, value: P)
        requires
            old(self).wf(),
        ensures
            final(self).wf(),
            final(self).decoders() == old(self).decoders(),
            final(self)@ == (ReactiveView {
                store: set_speaker_spec(old(self)@.store, speaker_id@, P::wrap_spec(value@)),
                ..old(self)@
            }),
    {
        self.pipeline.set_property(speaker_id, value);
    }

    /// Feeds one stream event through the pipeline; returns how many updates
    /// it applied (none for an event without a decoder counterpart).
    pub fn process_enriched(&mut self, event: EnrichedEvent) -> (r: usize)
        requires
            old(self).wf(),
            enriched_times_fit(event),
        ensures
            final(self).wf(),
            final(self).decoders() == old(self).decoders(),
            final(self)@.subscriptions == old(self)@.subscriptions,
            exists|raw: Option<RawEvent>|
                converted(event, raw) && match raw {
                    None => r == 0 && final(self)@ == old(self)@,
                    Some(e) => exists|ls: Seq<Seq<SpeakerView>>|
                        #[trigger] crate::state_manager::listings_fit(
                            old(self).decoders(),
                            e,
                            old(self)@.store,
                            ls,
                        ) && ({
                            let out = crate::state_manager::run(
                                old(self).decoders(),
                                e,
                                old(self)@.store,
                                ls,
                            );
                            &&& final(self)@.store == out.0
                            &&& r == crate::state_manager::capped(out.1)
                        }),
                },
    {
        let ghost incoming = event;
        let raw = convert_enriched_to_raw_event(event);
        let ghost rawg = raw;
        let ghost before = self@;
        match raw {
            Some(e) => {
                proof {
                    let ev = e;
                    match ev.data {
                        EventData::AVTransport(d) => {
                            assert(incoming.event_data is AVTransportEvent);
                            match incoming.event_data {
                                StreamEventData::AVTransportEvent(a) => {
                                    assert(transport_data_copies(d, a));
                                },
                                _ => {},
                            }
                        },
                        _ => {},
                    }
                    assert(event_times_fit(e));
                }
                let ghost eg = e;
                let ghost ds = self.decoders();
                let n = self.pipeline.process(e);
                proof {
                    let ls = choose|ls: Seq<Seq<SpeakerView>>|
                        #[trigger] crate::state_manager::listings_fit(ds, eg, before.store, ls) && ({
                            let out = crate::state_manager::run(ds, eg, before.store, ls);
                            &&& self@.store == out.0
                            &&& n == crate::state_manager::capped(out.1)
                        });
                    assert(rawg == Some(eg));
                    assert(converted(incoming, rawg));
                    assert(crate::state_manager::listings_fit(ds, eg, before.store, ls));
                }
                n
            },
            None => {
                assert(converted(incoming, rawg));
                assert(self@ == before);
                0
            },
        }
    }

    /// Hands out every change the store reported, oldest first.
    pub fn take_changes(&mut self) -> (r: Vec<crate::change_stream::StateChange>)
        requires
            old(self).wf(),
        ensures
            final(self).wf(),
            final(self).decoders() == old(self).decoders(),
            seq_view(r@) == old(self)@.store.changes,
            final(self)@ == (ReactiveView {
                store: StateStoreView { changes: Seq::empty(), ..old(self)@.store },
                ..old(self)@
            }),
    {
        self.pipeline.take_changes()
    }
}

} // verus!
