//! The event pipeline: routes each event to the decoders of its service and
//! applies their updates to the observable store.

use vstd::prelude::*;
use crate::change_stream::StateChange;
use crate::decoders::{
    apply_all, apply_all_spec, decode_with, decoder_service, default_decoders, event_times_fit,
    listing_ok, Decoder,
    PropertyUpdateView, RawEvent,
};
use crate::property::{GroupInfoView, Service, Topology};
use crate::reactive_store::{
    add_group_spec, add_speaker_spec, empty_store, set_system_spec, StateStore, StateStoreView,
};
use crate::speaker::SpeakerView;
use crate::value::{PropertyValue, PropertyValueView};
use crate::viewed::{seq_view, ViewEq};

verus! {

/// The store and update count after decoders `ds` take their turns on `e`
/// in order, starting from `s0`, each decoder of the event's service
/// decoding against the store as the earlier ones left it and its updates
/// applied before the next; `ls` gives the topology decoder's listings.
pub open spec fn run(ds: Seq<Decoder>, e: RawEvent, s0: StateStoreView, ls: Seq<Seq<SpeakerView>>) -> (
    StateStoreView,
    int,
)
    decreases ds.len(),
{
    if ds.len() == 0 {
        (s0, 0)
    } else {
        let prev = run(ds.drop_last(), e, s0, ls.drop_last());
        if decoder_service(ds.last()) == e.service {
            let us = decode_with(ds.last(), e, prev.0, ls.last());
            (apply_all_spec(prev.0, us), prev.1 + us.len())
        } else {
            prev
        }
    }
}

/// Whether each listing in `ls` lists the speakers of the store as the
/// topology decoder finds it in a run of `ds`.
pub open spec fn listings_fit(ds: Seq<Decoder>, e: RawEvent, s0: StateStoreView, ls: Seq<Seq<SpeakerView>>) -> bool
    decreases ds.len(),
{
    ls.len() == ds.len() && (ds.len() == 0 || (listings_fit(ds.drop_last(), e, s0, ls.drop_last())
        && (decoder_service(ds.last()) == e.service ==> listing_ok(
        ds.last(),
        e,
        run(ds.drop_last(), e, s0, ls.drop_last()).0,
        ls.last(),
    ))))
}

/// `n`, or the largest `usize` when it does not fit.
pub open spec fn capped(n: int) -> int {
    if n <= usize::MAX {
        n
    } else {
        usize::MAX as int
    }
}

/// The store after adding speakers `sps` in order.
pub open spec fn add_speakers_spec(s: StateStoreView, sps: Seq<SpeakerView>) -> StateStoreView
    decreases sps.len(),
{
    if sps.len() == 0 {
        s
    } else {
        add_speaker_spec(add_speakers_spec(s, sps.drop_last()), sps.last())
    }
}

/// The store after adding groups `gs` in order.
pub open spec fn add_groups_spec(s: StateStoreView, gs: Seq<GroupInfoView>) -> StateStoreView
    decreases gs.len(),
{
    if gs.len() == 0 {
        s
    } else {
        add_group_spec(add_groups_spec(s, gs.drop_last()), gs.last())
    }
}

/// The event pipeline: a store and the decoders that feed it.
#[derive(Debug)]
pub struct StateManager {
    store: StateStore,
    decoders: Vec<Decoder>,
}

impl StateManager {
    /// The store is well formed.
    pub closed spec fn wf(&self) -> bool {
        self.store.wf()
    }

    /// The store's state.
    pub closed spec fn store_view(&self) -> StateStoreView {
        self.store@
    }

    /// The decoders, in the order they see each event.
    pub closed spec fn decoders_view(&self) -> Seq<Decoder> {
        self.decoders@
    }

    /// A pipeline with an empty store and the default decoders.
    pub fn new() -> (r: StateManager)
        ensures
            r.wf(),
            r.store_view() == empty_store(),
            r.decoders_view() == seq![
                Decoder::RenderingControl(crate::decoders::RenderingControlDecoder),
                Decoder::AVTransport(crate::decoders::AVTransportDecoder),
                Decoder::Topology(crate::decoders::TopologyDecoder),
            ],
    {
        StateManager { store: StateStore::new(), decoders: default_decoders() }
    }

    /// A pipeline with an empty store and the given decoders.
    pub fn with_decoders(decoders: Vec<Decoder>) -> (r: StateManager)
        ensures
            r.wf(),
            r.store_view() == empty_store(),
            r.decoders_view() == decoders@,
    {
        StateManager { store: StateStore::new(), decoders }
    }

    /// A pipeline over an existing store, with the default decoders.
    pub fn with_store(store: StateStore) -> (r: StateManager)
        requires
            store.wf(),
        ensures
            r.wf(),
            r.store_view() == store@,
            r.decoders_view() == seq![
                Decoder::RenderingControl(crate::decoders::RenderingControlDecoder),
                Decoder::AVTransport(crate::decoders::AVTransportDecoder),
                Decoder::Topology(crate::decoders::TopologyDecoder),
            ],
    {
        StateManager { store, decoders: default_decoders() }
    }

    /// Loads a topology: every speaker, then every group, then the topology
    /// itself as the system value.
    pub fn initialize(&mut self, topology: Topology)
        requires
            old(self).wf(),
        ensures
            final(self).wf(),
            final(self).decoders_view() == old(self).decoders_view(),
            final(self).store_view() == set_system_spec(
                add_groups_spec(add_speakers_spec(old(self).store_view(), topology@.speakers), topology@.groups),
                PropertyValueView::Topology(topology@),
            ),
    {
        let ghost t = topology@;
        let ghost s0 = self.store@;
        let mut i: usize = 0;
        assert(t.speakers.take(0) =~= Seq::<SpeakerView>::empty());
        while i < topology.speakers.len()
            invariant
                self.store.wf(),
                self.decoders == old(self).decoders,
                i <= topology.speakers.len(),
                t == topology@,
                seq_view(topology.speakers@) == t.speakers,
                self.store@ == add_speakers_spec(s0, t.speakers.take(i as int)),
            decreases topology.speakers.len() - i,
        {
            self.store.add_speaker(topology.speakers[i].view_clone());
            proof {
                assert(t.speakers.take(i + 1).drop_last() =~= t.speakers.take(i as int));
                assert(t.speakers[i as int] == topology.speakers@[i as int]@);
            }
            i = i + 1;
        }
        assert(t.speakers.take(t.speakers.len() as int) =~= t.speakers);
        let ghost s1 = self.store@;
        let mut j: usize = 0;
        assert(t.groups.take(0) =~= Seq::<GroupInfoView>::empty());
        while j < topology.groups.len()
            invariant
                self.store.wf(),
                self.decoders == old(self).decoders,
                j <= topology.groups.len(),
                t == topology@,
                seq_view(topology.groups@) == t.groups,
                self.store@ == add_groups_spec(s1, t.groups.take(j as int)),
            decreases topology.groups.len() - j,
        {
            self.store.add_group(topology.groups[j].view_clone());
            proof {
                assert(t.groups.take(j + 1).drop_last() =~= t.groups.take(j as int));
                assert(t.groups[j as int] == topology.groups@[j as int]@);
            }
            j = j + 1;
        }
        assert(t.groups.take(t.groups.len() as int) =~= t.groups);
        self.store.set_system_value(PropertyValue::Topology(topology));
    }

    /// Hands an event to every decoder of its service, in order, applying
    /// each decoder's updates before the next decodes; returns how many
    /// updates were applied (capped at the largest `usize`).
    pub fn process(&mut self, event: RawEvent) -> (r: usize)
        requires
            old(self).wf(),
            event_times_fit(event),
        ensures
            final(self).wf(),
            final(self).decoders_view() == old(self).decoders_view(),
            exists|ls: Seq<Seq<SpeakerView>>|
                #[trigger] listings_fit(old(self).decoders_view(), event, old(self).store_view(), ls) && ({
                    let out = run(old(self).decoders_view(), event, old(self).store_view(), ls);
                    &&& final(self).store_view() == out.0
                    &&& r == capped(out.1)
                }),
    {
        let ghost ds = self.decoders@;
        let ghost s0 = self.store@;
        let ghost mut ls: Seq<Seq<SpeakerView>> = Seq::empty();
        let mut count: usize = 0;
        let mut i: usize = 0;
        proof {
            assert(ds.take(0) =~= Seq::<Decoder>::empty());
        }
        while i < self.decoders.len()
            invariant
                self.store.wf(),
                self.decoders@ == ds,
                i <= ds.len(),
                event_times_fit(event),
                listings_fit(ds.take(i as int), event, s0, ls),
                run(ds.take(i as int), event, s0, ls).0 == self.store@,
                run(ds.take(i as int), event, s0, ls).1 >= 0,
                count == capped(run(ds.take(i as int), event, s0, ls).1),
            decreases ds.len() - i,
        {
            let ghost mid = self.store@;
            let ghost mut l: Seq<SpeakerView> = Seq::empty();
            let d = self.decoders[i];
            let services = d.services();
            if services[0] == event.service {
                let updates = d.decode(&event, &self.store);
                proof {
                    l = choose|listing: Seq<SpeakerView>|
                        listing_ok(d, event, mid, listing) && seq_view(updates@) == decode_with(d, event, mid, listing);
                }
                let len = updates.len();
                apply_all(updates, &mut self.store);
                count = count.saturating_add(len);
            }
            proof {
                let t = ds.take(i + 1);
                assert(t.drop_last() =~= ds.take(i as int));
                assert(t.last() == ds[i as int]);
                assert(decoder_service(d) == services@[0]);
                let nls = ls.push(l);
                assert(nls.drop_last() =~= ls);
                assert(nls.last() == l);
                ls = nls;
            }
            i = i + 1;
        }
        assert(ds.take(ds.len() as int) =~= ds);
        assert(listings_fit(ds, event, s0, ls));
        assert(ds == old(self).decoders_view());
        assert(s0 == old(self).store_view());
        assert(self.store@ == run(ds, event, s0, ls).0);
        count
    }

    /// Adds (or replaces) a speaker in the store.
    pub fn add_speaker(&mut self, speaker: crate::speaker::Speaker)
        requires
            old(self).wf(),
        ensures
            final(self).wf(),
            final(self).decoders_view() == old(self).decoders_view(),
            final(self).store_view() == crate::reactive_store::add_speaker_spec(old(self).store_view(), speaker@),
    {
        self.store.add_speaker(speaker);
    }

    /// Sets a speaker property in the store.
    pub fn set_property<P: crate::value::SonosProperty>(&mut self, speaker_id: &crate::ids::SpeakerId, value: P)
        requires
            old(self).wf(),
        ensures
            final(self).wf(),
            final(self).decoders_view() == old(self).decoders_view(),
            final(self).store_view() == crate::reactive_store::set_speaker_spec(
                old(self).store_view(),
                speaker_id@,
                P::wrap_spec(value@),
            ),
    {
        self.store.set(speaker_id, value);
    }

    /// The store.
    pub fn store(&self) -> (r: &StateStore)
        ensures
            r@ == self.store_view(),
            self.wf() ==> r.wf(),
    {
        &self.store
    }

    /// The store, giving up the pipeline.
    pub fn into_store(self) -> (r: StateStore)
        ensures
            r@ == self.store_view(),
            self.wf() ==> r.wf(),
    {
        self.store
    }

    /// Hands out every change the store reported, oldest first.
    pub fn take_changes(&mut self) -> (r: Vec<StateChange>)
        requires
            old(self).wf(),
        ensures
            final(self).wf(),
            final(self).decoders_view() == old(self).decoders_view(),
            seq_view(r@) == old(self).store_view().changes,
            final(self).store_view() == (StateStoreView { changes: Seq::empty(), ..old(self).store_view() }),
    {
        self.store.take_changes()
    }

    /// The services worth subscribing to.
    pub fn active_services(&self) -> (r: Vec<Service>)
        requires
            self.wf(),
        ensures
            r@ == (if self.store_view().speakers.dom().len() == 0 {
                Seq::<Service>::empty()
            } else {
                seq![Service::RenderingControl, Service::AVTransport, Service::ZoneGroupTopology]
            }),
    {
        self.store.active_services()
    }

    /// Whether any speaker is known.
    pub fn is_initialized(&self) -> (r: bool)
        requires
            self.wf(),
        ensures
            r == (self.store_view().speakers.dom().len() != 0),
    {
        !self.store.is_empty()
    }

    /// The number of speakers.
    pub fn speaker_count(&self) -> (r: usize)
        requires
            self.wf(),
        ensures
            r == self.store_view().speakers.dom().len(),
    {
        self.store.speaker_count()
    }

    /// The number of groups.
    pub fn group_count(&self) -> (r: usize)
        requires
            self.wf(),
        ensures
            r == self.store_view().groups.dom().len(),
    {
        self.store.group_count()
    }
}

} // verus!
