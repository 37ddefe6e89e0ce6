//! A state manager over the state cache: it loads an initial topology,
//! processes events into cache updates, and queues the changes reported.

use vstd::prelude::*;
use crate::cache::{CacheView, StateCache};
use crate::events::StateEvent;
use crate::model::{changes_list_view, Group, StateChange, StateChangeView};
use crate::speaker::Speaker;
use crate::processor::{address_map_of, payload_times_fit, process_event_spec, ProcessorView, StateProcessor};

verus! {

/// The cache and the changes of a processing step.
pub open spec fn cache_and_changes(out: (ProcessorView, Seq<StateChangeView>)) -> (CacheView, Seq<StateChangeView>) {
    (out.0.cache, out.1)
}

/// Configuration of a [`StateManager`].
#[derive(Debug, Clone, Copy)]
pub struct StateManagerConfig {
    /// Number of state change events to buffer (channel capacity)
    pub change_buffer_size: usize,
}

impl Default for StateManagerConfig {
    /// A buffer of 1000 changes.
    fn default() -> (r: StateManagerConfig)
        ensures
            r.change_buffer_size == 1000,
    {
        StateManagerConfig { change_buffer_size: 1000 }
    }
}

/// Coordinates initialization, event processing and change emission over a
/// state cache.
#[derive(Debug)]
pub struct StateManager {
    cache: StateCache,
    pending: Vec<StateChange>,
    config: StateManagerConfig,
}

impl StateManager {
    /// The cache is well formed.
    pub closed spec fn wf(&self) -> bool {
        self.cache.wf()
    }

    /// The cached state.
    pub closed spec fn cache_view(&self) -> CacheView {
        self.cache@
    }

    /// The configured change buffer size.
    pub closed spec fn buffer_size_spec(&self) -> usize {
        self.config.change_buffer_size
    }

    /// The changes emitted and not yet taken, oldest first.
    pub closed spec fn pending_view(&self) -> Seq<StateChangeView> {
        changes_list_view(self.pending@)
    }

    /// A manager with an empty cache and nothing emitted.
    pub fn new(config: StateManagerConfig) -> (r: StateManager)
        ensures
            r.wf(),
            r.cache_view().speakers.dom().len() == 0,
            r.cache_view().groups.len() == 0,
            r.pending_view().len() == 0,
            r.buffer_size_spec() == config.change_buffer_size,
    {
        let r = StateManager { cache: StateCache::new(), pending: Vec::new(), config };
        assert(r.pending_view() =~= Seq::<StateChangeView>::empty());
        r
    }

    /// Loads a fetched topology into the cache and emits `StateInitialized`
    /// with its speaker and group counts.
    pub fn initialize(&mut self, speakers: Vec<Speaker>, groups: Vec<Group>)
        requires
            old(self).wf(),
        ensures
            final(self).wf(),
            final(self).pending_view() == old(self).pending_view().push(
                StateChangeView::StateInitialized { speaker_count: speakers@.len() as usize, group_count: groups@.len() as usize },
            ),
    {
        let speaker_count = speakers.len();
        let group_count = groups.len();
        self.cache.initialize(speakers, groups);
        let ghost before = changes_list_view(self.pending@);
        self.pending.push(StateChange::StateInitialized { speaker_count, group_count });
        proof {
            assert(changes_list_view(self.pending@) =~= before.push(
                StateChangeView::StateInitialized { speaker_count, group_count },
            ));
        }
    }

    /// Processes one event right away: the speaker addresses are rebuilt
    /// from the cache, then the event is applied and its changes returned.
    pub fn process_event(&mut self, event: StateEvent) -> (r: Vec<StateChange>)
        requires
            old(self).wf(),
            payload_times_fit(event.payload),
        ensures
            final(self).wf(),
            final(self).pending_view() == old(self).pending_view(),
            exists|ips: Map<crate::net::IpAddr, Seq<char>>|
                address_map_of(old(self).cache_view().speakers, ips) && (final(self).cache_view(), changes_list_view(r@))
                    == #[trigger] cache_and_changes(process_event_spec(ProcessorView { cache: old(self).cache_view(), ip_to_speaker: ips }, event)),
    {
        let mut cache = StateCache::new();
        std::mem::swap(&mut cache, &mut self.cache);
        let mut processor = StateProcessor::new(cache);
        processor.rebuild_ip_mapping();
        let ghost ips = processor@.ip_to_speaker;
        let ghost p0 = processor@;
        let ghost ev = event;
        let changes = processor.process_event(event);
        let ghost p1 = processor@;
        self.cache = processor.into_cache();
        proof {
            assert(p0 == ProcessorView { cache: old(self).cache_view(), ip_to_speaker: ips });
            assert((p1, changes_list_view(changes@)) == process_event_spec(p0, ev));
            assert((self.cache_view(), changes_list_view(changes@)) == cache_and_changes(process_event_spec(p0, ev)));
            assert(address_map_of(old(self).cache_view().speakers, ips));
        }
        changes
    }

    /// Takes the changes emitted so far, oldest first.
    pub fn take_changes(&mut self) -> (r: Vec<StateChange>)
        requires
            old(self).wf(),
        ensures
            final(self).wf(),
            changes_list_view(r@) == old(self).pending_view(),
            final(self).pending_view().len() == 0,
            final(self).cache_view() == old(self).cache_view(),
    {
        let mut out: Vec<StateChange> = Vec::new();
        std::mem::swap(&mut out, &mut self.pending);
        proof {
            assert(changes_list_view(self.pending@) =~= Seq::<StateChangeView>::empty());
        }
        out
    }

    /// The underlying cache, for direct queries.
    pub fn cache(&self) -> (r: &StateCache)
        ensures
            r@ == self.cache_view(),
    {
        &self.cache
    }

    /// The configuration this manager was made with.
    pub fn config(&self) -> (r: StateManagerConfig)
        ensures
            r.change_buffer_size == self.buffer_size_spec(),
    {
        self.config
    }
}

} // verus!
