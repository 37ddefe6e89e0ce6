//! Bookkeeping of cached property watches with delayed cleanup.
//!
//! A watch stays cached after use; a cleanup timer, once scheduled, removes
//! it when it fires unless a later use cancels the timer first. The timers
//! themselves run outside: they are known here by the number the caller gave
//! them, and these functions say which timer to cancel and which watches a
//! firing timer removes.

use vstd::prelude::*;
use crate::ids::SpeakerId;
use crate::table::Table;
use crate::text::str_eq;
use crate::viewed::{seq_view, ViewEq};

verus! {

/// The cleanup delay used unless another is given, in milliseconds.
pub const DEFAULT_CLEANUP_TIMEOUT_MS: u64 = 5000;

/// A cached watch: a speaker and a property key.
#[derive(Debug)]
pub struct WatchKey {
    pub speaker_id: SpeakerId,
    pub property_key: &'static str,
}

impl View for WatchKey {
    type V = (Seq<char>, Seq<char>);

    open spec fn view(&self) -> (Seq<char>, Seq<char>) {
        (self.speaker_id@, self.property_key@)
    }
}

impl ViewEq for WatchKey {
    fn view_eq(&self, other: &Self) -> (r: bool) {
        self.speaker_id.view_eq(&other.speaker_id) && str_eq(self.property_key, other.property_key)
    }

    fn view_clone(&self) -> (r: Self) {
        WatchKey { speaker_id: self.speaker_id.view_clone(), property_key: self.property_key }
    }
}

/// What is kept for one cached watch.
#[derive(Debug, Clone, Copy)]
pub struct CachedWatch {
    /// The cleanup timer that will remove the watch, if one is pending.
    pub cleanup: Option<u64>,
    /// When the watch was last used (clock ticks).
    pub last_accessed: u64,
}

impl View for CachedWatch {
    type V = CachedWatch;

    open spec fn view(&self) -> CachedWatch {
        *self
    }
}

impl ViewEq for CachedWatch {
    fn view_eq(&self, other: &Self) -> (r: bool) {
        let same_cleanup = match (self.cleanup, other.cleanup) {
            (Some(a), Some(b)) => a == b,
            (None, None) => true,
            _ => false,
        };
        same_cleanup && self.last_accessed == other.last_accessed
    }

    fn view_clone(&self) -> (r: Self) {
        *self
    }
}

/// The cached watches, by key.
pub type WatchMapView = Map<(Seq<char>, Seq<char>), CachedWatch>;

/// What a lookup found.
#[derive(Debug, Clone, Copy, PartialEq, Eq)]
pub enum CacheLookup {
    /// The watch was cached; the timer to cancel, if one was pending.
    Hit(Option<u64>),
    /// The watch must be made.
    Miss,
}

/// Counts describing the cache.
#[derive(Debug, Clone, Copy)]
pub struct WatchCacheStats {
    pub total_watches: usize,
    pub speakers_cached: usize,
    pub pending_cleanups: usize,
}

/// The speakers with a cached watch.
pub open spec fn cached_speakers(m: WatchMapView) -> Set<Seq<char>> {
    m.dom().map(|k: (Seq<char>, Seq<char>)| k.0)
}

/// The watches with a pending cleanup.
pub open spec fn pending(m: WatchMapView) -> Set<(Seq<char>, Seq<char>)> {
    m.dom().filter(|k: (Seq<char>, Seq<char>)| m[k].cleanup is Some)
}

/// The watches after a timer is scheduled for a speaker: each of its
/// watches without a pending timer gets this one.
pub open spec fn attach_speaker_spec(m: WatchMapView, speaker: Seq<char>, timer: u64) -> WatchMapView {
    Map::new(
        |k: (Seq<char>, Seq<char>)| m.contains_key(k),
        |k: (Seq<char>, Seq<char>)|
            if k.0 == speaker && m[k].cleanup is None {
                CachedWatch { cleanup: Some(timer), ..m[k] }
            } else {
                m[k]
            },
    )
}

/// The watches after a speaker's cleanup timer fires: all of its watches go.
pub open spec fn expire_speaker_spec(m: WatchMapView, speaker: Seq<char>) -> WatchMapView {
    m.restrict(m.dom().filter(|k: (Seq<char>, Seq<char>)| k.0 != speaker))
}

/// Cached watches with their pending timers.
#[derive(Debug)]
pub struct WatchCache {
    watches: Table<WatchKey, CachedWatch>,
    cleanup_timeout_ms: u64,
}

impl WatchCache {
    /// The table is well formed.
    pub closed spec fn wf(&self) -> bool {
        self.watches.wf()
    }

    /// The cached watches.
    pub closed spec fn watches_view(&self) -> WatchMapView {
        self.watches@
    }

    /// The cleanup delay, in milliseconds.
    pub closed spec fn timeout_spec(&self) -> u64 {
        self.cleanup_timeout_ms
    }

    /// An empty cache with the given cleanup delay.
    pub fn new(cleanup_timeout_ms: u64) -> (r: WatchCache)
        ensures
            r.wf(),
            r.watches_view() == WatchMapView::empty(),
            r.timeout_spec() == cleanup_timeout_ms,
    {
        WatchCache { watches: Table::new(), cleanup_timeout_ms }
    }

    /// An empty cache with the default delay.
    pub fn with_default_timeout() -> (r: WatchCache)
        ensures
            r.wf(),
            r.watches_view() == WatchMapView::empty(),
            r.timeout_spec() == DEFAULT_CLEANUP_TIMEOUT_MS,
    {
        WatchCache::new(DEFAULT_CLEANUP_TIMEOUT_MS)
    }

    /// The cleanup delay, in milliseconds.
    pub fn cleanup_timeout_ms(&self) -> (r: u64)
        ensures
            r == self.timeout_spec(),
    {
        self.cleanup_timeout_ms
    }

    /// Looks a watch up at time `now`. A hit marks the watch used and takes
    /// its pending timer, which the caller cancels; a miss changes nothing.
    pub fn lookup(&mut self, key: &WatchKey, now: u64) -> (r: CacheLookup)
        requires
            old(self).wf(),
        ensures
            final(self).wf(),
            final(self).timeout_spec() == old(self).timeout_spec(),
            old(self).watches_view().contains_key(key@) ==> {
                &&& r == CacheLookup::Hit(old(self).watches_view()[key@].cleanup)
                &&& final(self).watches_view() == old(self).watches_view().insert(
                    key@,
                    CachedWatch { cleanup: None, last_accessed: now },
                )
            },
            !old(self).watches_view().contains_key(key@) ==> r == CacheLookup::Miss
                && final(self).watches_view() == old(self).watches_view(),
    {
        match self.watches.get(key) {
            Some(w) => {
                self.watches.insert(key.view_clone(), CachedWatch { cleanup: None, last_accessed: now });
                CacheLookup::Hit(w.cleanup)
            },
            None => CacheLookup::Miss,
        }
    }

    /// Caches a newly made watch, used at time `now`.
    pub fn insert(&mut self, key: WatchKey, now: u64)
        requires
            old(self).wf(),
        ensures
            final(self).wf(),
            final(self).timeout_spec() == old(self).timeout_spec(),
            final(self).watches_view() == old(self).watches_view().insert(
                key@,
                CachedWatch { cleanup: None, last_accessed: now },
            ),
    {
        self.watches.insert(key, CachedWatch { cleanup: None, last_accessed: now });
    }

    /// Whether a watch is cached.
    pub fn has_watch(&self, speaker_id: &SpeakerId, property_key: &'static str) -> (r: bool)
        requires
            self.wf(),
        ensures
            r == self.watches_view().contains_key((speaker_id@, property_key@)),
    {
        self.watches.contains_key(&WatchKey { speaker_id: speaker_id.view_clone(), property_key })
    }

    /// Gives timer `timer`, scheduled for a speaker, to each of its watches
    /// that has no pending timer.
    pub fn attach_speaker_cleanup(&mut self, speaker_id: &SpeakerId, timer: u64)
        requires
            old(self).wf(),
        ensures
            final(self).wf(),
            final(self).timeout_spec() == old(self).timeout_spec(),
            final(self).watches_view() == attach_speaker_spec(old(self).watches_view(), speaker_id@, timer),
    {
        let keys = self.watches.keys();
        proof {
            self.watches.lemma_key_seq();
        }
        let ghost ks = self.watches.key_seq();
        let ghost m0 = self.watches@;
        let mut i: usize = 0;
        while i < keys.len()
            invariant
                self.wf(),
                self.cleanup_timeout_ms == old(self).cleanup_timeout_ms,
                i <= keys.len(),
                seq_view(keys@) == ks,
                ks.to_set() == m0.dom(),
                ks.no_duplicates(),
                m0 == old(self).watches_view(),
                self.watches@.dom() == m0.dom(),
                forall|k: (Seq<char>, Seq<char>)| #[trigger] self.watches@.contains_key(k) ==> (if ks.take(
                    i as int,
                ).contains(k) {
                    self.watches@[k] == attach_speaker_spec(m0, speaker_id@, timer)[k]
                } else {
                    self.watches@[k] == m0[k]
                }),
            decreases keys.len() - i,
        {
            let key = keys[i].view_clone();
            let ghost kv = ks[i as int];
            let ghost before = self.watches@;
            assert(key@ == kv);
            assert(ks.to_set().contains(kv));
            let w = self.watches.get(&key).unwrap();
            if key.speaker_id.view_eq(speaker_id) && w.cleanup.is_none() {
                self.watches.insert(key, CachedWatch { cleanup: Some(timer), ..w });
            }
            proof {
                let t1 = ks.take(i + 1);
                let t0 = ks.take(i as int);
                assert(t1 =~= t0.push(kv));
                assert(!t0.contains(kv)) by {
                    if t0.contains(kv) {
                        let j = choose|j: int| 0 <= j < t0.len() && #[trigger] t0[j] == kv;
                        assert(ks[j] == ks[i as int]);
                    }
                }
                assert(self.watches@.dom() =~= m0.dom());
                assert forall|k: (Seq<char>, Seq<char>)| #[trigger] self.watches@.contains_key(k) implies (if t1.contains(k) {
                    self.watches@[k] == attach_speaker_spec(m0, speaker_id@, timer)[k]
                } else {
                    self.watches@[k] == m0[k]
                }) by {
                    assert(before.contains_key(k));
                    if k == kv {
                        assert(t1[i as int] == kv);
                        assert(before[kv] == m0[kv]);
                    } else {
                        assert(self.watches@[k] == before[k]);
                        assert forall|x: (Seq<char>, Seq<char>)| x != kv implies t1.contains(x) == t0.contains(x) by {
                            if t1.contains(x) {
                                let j = choose|j: int| 0 <= j < t1.len() && #[trigger] t1[j] == x;
                                assert(j != i);
                                assert(t0[j] == x);
                            }
                            if t0.contains(x) {
                                let j = choose|j: int| 0 <= j < t0.len() && #[trigger] t0[j] == x;
                                assert(t1[j] == x);
                            }
                        }
                    }
                }
            }
            i = i + 1;
        }
        proof {
            assert(ks.take(ks.len() as int) =~= ks);
            assert(self.watches@ =~= attach_speaker_spec(m0, speaker_id@, timer));
        }
    }

    /// Removes every watch of a speaker, whose cleanup timer fired; returns
    /// the number removed.
    pub fn expire_speaker(&mut self, speaker_id: &SpeakerId) -> (removed: usize)
        requires
            old(self).wf(),
        ensures
            final(self).wf(),
            final(self).timeout_spec() == old(self).timeout_spec(),
            final(self).watches_view() == expire_speaker_spec(old(self).watches_view(), speaker_id@),
            removed == old(self).watches_view().dom().len() - final(self).watches_view().dom().len(),
    {
        let before_count = self.watches.len();
        let keys = self.watches.keys();
        proof {
            self.watches.lemma_key_seq();
        }
        let ghost ks = self.watches.key_seq();
        let ghost m0 = self.watches@;
        let mut i: usize = 0;
        while i < keys.len()
            invariant
                self.wf(),
                self.cleanup_timeout_ms == old(self).cleanup_timeout_ms,
                i <= keys.len(),
                seq_view(keys@) == ks,
                ks.to_set() == m0.dom(),
                m0 == old(self).watches_view(),
                forall|k: (Seq<char>, Seq<char>)| #[trigger] self.watches@.contains_key(k) == (m0.contains_key(k) && !(
                ks.take(i as int).contains(k) && k.0 == speaker_id@)),
                forall|k: (Seq<char>, Seq<char>)| #[trigger] self.watches@.contains_key(k) ==> self.watches@[k] == m0[k],
            decreases keys.len() - i,
        {
            let key = keys[i].view_clone();
            let ghost kv = ks[i as int];
            assert(key@ == kv);
            if key.speaker_id.view_eq(speaker_id) {
                self.watches.remove(&key);
            }
            proof {
                let t1 = ks.take(i + 1);
                let t0 = ks.take(i as int);
                assert(t1 =~= t0.push(kv));
                assert forall|x: (Seq<char>, Seq<char>)| t1.contains(x) == (t0.contains(x) || x == kv) by {
                    if t1.contains(x) {
                        let j = choose|j: int| 0 <= j < t1.len() && #[trigger] t1[j] == x;
                        if j < i {
                            assert(t0[j] == x);
                        }
                    }
                    if t0.contains(x) {
                        let j = choose|j: int| 0 <= j < t0.len() && #[trigger] t0[j] == x;
                        assert(t1[j] == x);
                    }
                    if x == kv {
                        assert(t1[i as int] == x);
                    }
                }
            }
            i = i + 1;
        }
        proof {
            assert(ks.take(ks.len() as int) =~= ks);
            assert forall|k: (Seq<char>, Seq<char>)| ks.contains(k) == m0.contains_key(k) by {
                assert(ks.to_set().contains(k) == ks.contains(k));
            }
            assert(self.watches@ =~= expire_speaker_spec(m0, speaker_id@));
        }
        let after_count = self.watches.len();
        proof {
            assert(self.watches@.dom().subset_of(m0.dom()));
            vstd::set_lib::lemma_len_subset(self.watches@.dom(), m0.dom());
        }
        before_count - after_count
    }

    /// Gives timer `timer` to one watch, if cached.
    pub fn attach_property_cleanup(&mut self, key: &WatchKey, timer: u64)
        requires
            old(self).wf(),
        ensures
            final(self).wf(),
            final(self).timeout_spec() == old(self).timeout_spec(),
            final(self).watches_view() == (if old(self).watches_view().contains_key(key@) {
                old(self).watches_view().insert(
                    key@,
                    CachedWatch { cleanup: Some(timer), ..old(self).watches_view()[key@] },
                )
            } else {
                old(self).watches_view()
            }),
    {
        if let Some(w) = self.watches.get(key) {
            self.watches.insert(key.view_clone(), CachedWatch { cleanup: Some(timer), ..w });
        }
    }

    /// Removes one watch, whose cleanup timer fired; reports whether it was
    /// cached.
    pub fn expire_property(&mut self, key: &WatchKey) -> (r: bool)
        requires
            old(self).wf(),
        ensures
            final(self).wf(),
            final(self).timeout_spec() == old(self).timeout_spec(),
            r == old(self).watches_view().contains_key(key@),
            final(self).watches_view() == old(self).watches_view().remove(key@),
    {
        self.watches.remove(key).is_some()
    }

    /// The number of watches, of speakers with one, and of pending cleanups.
    pub fn stats(&self) -> (r: WatchCacheStats)
        requires
            self.wf(),
        ensures
            r.total_watches == self.watches_view().dom().len(),
            r.speakers_cached == cached_speakers(self.watches_view()).len(),
            r.pending_cleanups == pending(self.watches_view()).len(),
    {
        let keys = self.watches.keys();
        proof {
            self.watches.lemma_key_seq();
        }
        let ghost ks = self.watches.key_seq();
        let ghost m = self.watches@;
        let mut speakers: Vec<SpeakerId> = Vec::new();
        let mut pend: Vec<WatchKey> = Vec::new();
        let mut i: usize = 0;
        while i < keys.len()
            invariant
                self.wf(),
                i <= keys.len(),
                seq_view(keys@) == ks,
                ks.to_set() == m.dom(),
                ks.no_duplicates(),
                m == self.watches@,
                seq_view(speakers@).no_duplicates(),
                seq_view(speakers@).to_set() == ks.take(i as int).to_set().map(
                    |k: (Seq<char>, Seq<char>)| k.0,
                ),
                seq_view(pend@).no_duplicates(),
                seq_view(pend@).to_set() == ks.take(i as int).to_set().filter(
                    |k: (Seq<char>, Seq<char>)| m[k].cleanup is Some,
                ),
            decreases keys.len() - i,
        {
            let key = keys[i].view_clone();
            let ghost kv = ks[i as int];
            assert(key@ == kv);
            assert(ks.to_set().contains(kv));
            let ghost t0 = ks.take(i as int);
            let ghost t1 = ks.take(i + 1);
            proof {
                assert(t1 =~= t0.push(kv));
                t0.lemma_push_to_set_commute(kv);
                assert(!t0.contains(kv)) by {
                    if t0.contains(kv) {
                        let j = choose|j: int| 0 <= j < t0.len() && #[trigger] t0[j] == kv;
                        assert(ks[j] == ks[i as int]);
                    }
                }
            }
            let mut seen = false;
            let mut j: usize = 0;
            while j < speakers.len()
                invariant
                    j <= speakers.len(),
                    !seen ==> forall|a: int| 0 <= a < j ==> #[trigger] speakers@[a]@ != kv.0,
                    seen ==> seq_view(speakers@).contains(kv.0),
                    key@ == kv,
                decreases speakers.len() - j,
            {
                if speakers[j].view_eq(&key.speaker_id) {
                    seen = true;
                    assert(seq_view(speakers@)[j as int] == kv.0);
                }
                j = j + 1;
            }
            let ghost sb = seq_view(speakers@);
            if !seen {
                speakers.push(key.speaker_id.view_clone());
                proof {
                    assert(seq_view(speakers@) =~= sb.push(kv.0));
                    assert(!sb.contains(kv.0)) by {
                        if sb.contains(kv.0) {
                            let a = choose|a: int| 0 <= a < sb.len() && #[trigger] sb[a] == kv.0;
                            assert(speakers@[a]@ == kv.0);
                        }
                    }
                    sb.lemma_push_to_set_commute(kv.0);
                }
            }
            proof {
                assert(seq_view(speakers@).to_set() =~= t1.to_set().map(|k: (Seq<char>, Seq<char>)| k.0)) by {
                    assert forall|x: Seq<char>| seq_view(speakers@).to_set().contains(x) <==> t1.to_set().map(
                        |k: (Seq<char>, Seq<char>)| k.0,
                    ).contains(x) by {
                        if t1.to_set().map(|k: (Seq<char>, Seq<char>)| k.0).contains(x) {
                            let k = choose|k: (Seq<char>, Seq<char>)| t1.to_set().contains(k) && k.0 == x;
                            if k != kv {
                                assert(t0.to_set().contains(k));
                                assert(t0.to_set().map(|k: (Seq<char>, Seq<char>)| k.0).contains(x));
                            }
                        }
                        if seq_view(speakers@).to_set().contains(x) && x != kv.0 {
                            assert(sb.to_set().contains(x));
                            let k = choose|k: (Seq<char>, Seq<char>)| t0.to_set().contains(k) && k.0 == x;
                            assert(t1.to_set().contains(k));
                        }
                        if x == kv.0 {
                            assert(t1.to_set().contains(kv));
                        }
                    }
                }
            }
            let w = self.watches.get(&key).unwrap();
            let ghost pb = seq_view(pend@);
            if w.cleanup.is_some() {
                pend.push(key);
                proof {
                    assert(seq_view(pend@) =~= pb.push(kv));
                    assert(!pb.contains(kv)) by {
                        if pb.contains(kv) {
                            assert(pb.to_set().contains(kv));
                        }
                    }
                    pb.lemma_push_to_set_commute(kv);
                }
            }
            proof {
                assert(seq_view(pend@).to_set() =~= t1.to_set().filter(
                    |k: (Seq<char>, Seq<char>)| m[k].cleanup is Some,
                ));
            }
            i = i + 1;
        }
        proof {
            assert(ks.take(ks.len() as int) =~= ks);
            seq_view(speakers@).unique_seq_to_set();
            seq_view(pend@).unique_seq_to_set();
            assert(ks.to_set().map(|k: (Seq<char>, Seq<char>)| k.0) =~= cached_speakers(m));
            assert(ks.to_set().filter(|k: (Seq<char>, Seq<char>)| m[k].cleanup is Some) =~= pending(m));
        }
        WatchCacheStats { total_watches: self.watches.len(), speakers_cached: speakers.len(), pending_cleanups: pend.len() }
    }

    /// Forgets every watch; returns the pending timers, which the caller
    /// cancels.
    pub fn clear(&mut self) -> (timers: Vec<u64>)
        requires
            old(self).wf(),
        ensures
            final(self).wf(),
            final(self).timeout_spec() == old(self).timeout_spec(),
            final(self).watches_view() == WatchMapView::empty(),
            forall|t: u64| timers@.contains(t) <==> exists|k: (Seq<char>, Seq<char>)|
                #[trigger] old(self).watches_view().contains_key(k) && old(self).watches_view()[k].cleanup
                    == Some(t),
    {
        let values = self.watches.values();
        proof {
            self.watches.lemma_key_seq();
        }
        let ghost ks = self.watches.key_seq();
        let ghost vs = self.watches.value_seq();
        let ghost m = self.watches@;
        let mut timers: Vec<u64> = Vec::new();
        let mut i: usize = 0;
        while i < values.len()
            invariant
                i <= values.len(),
                seq_view(values@) == vs,
                vs.len() == ks.len(),
                ks.to_set() == m.dom(),
                forall|a: int| 0 <= a < ks.len() ==> m[#[trigger] ks[a]] == vs[a],
                forall|t: u64| timers@.contains(t) <==> exists|a: int| 0 <= a < i && #[trigger] vs[a].cleanup == Some(t),
            decreases values.len() - i,
        {
            let ghost tb = timers@;
            assert(values@[i as int]@ == vs[i as int]);
            if let Some(t) = values[i].cleanup {
                timers.push(t);
                proof {
                    assert forall|x: u64| timers@.contains(x) <==> exists|a: int| 0 <= a < i + 1 && #[trigger] vs[a].cleanup == Some(x) by {
                        if timers@.contains(x) {
                            let b = choose|b: int| 0 <= b < timers@.len() && timers@[b] == x;
                            if b < tb.len() {
                                assert(tb.contains(x));
                            } else {
                                assert(vs[i as int].cleanup == Some(x));
                            }
                        }
                        if exists|a: int| 0 <= a < i + 1 && #[trigger] vs[a].cleanup == Some(x) {
                            let a = choose|a: int| 0 <= a < i + 1 && #[trigger] vs[a].cleanup == Some(x);
                            if a < i {
                                assert(tb.contains(x));
                                let b = choose|b: int| 0 <= b < tb.len() && tb[b] == x;
                                assert(timers@[b] == x);
                            } else {
                                assert(timers@[tb.len() as int] == x);
                            }
                        }
                    }
                }
            } else {
                proof {
                    assert forall|x: u64| timers@.contains(x) <==> exists|a: int| 0 <= a < i + 1 && #[trigger] vs[a].cleanup == Some(x) by {
                        if exists|a: int| 0 <= a < i + 1 && #[trigger] vs[a].cleanup == Some(x) {
                            let a = choose|a: int| 0 <= a < i + 1 && #[trigger] vs[a].cleanup == Some(x);
                            assert(a != i);
                        }
                    }
                }
            }
            i = i + 1;
        }
        proof {
            assert forall|t: u64| timers@.contains(t) <==> exists|k: (Seq<char>, Seq<char>)|
                #[trigger] m.contains_key(k) && m[k].cleanup == Some(t) by {
                if timers@.contains(t) {
                    let a = choose|a: int| 0 <= a < vs.len() && #[trigger] vs[a].cleanup == Some(t);
                    assert(ks.to_set().contains(ks[a]));
                    assert(m[ks[a]] == vs[a]);
                }
                if exists|k: (Seq<char>, Seq<char>)| #[trigger] m.contains_key(k) && m[k].cleanup == Some(t) {
                    let k = choose|k: (Seq<char>, Seq<char>)| #[trigger] m.contains_key(k) && m[k].cleanup == Some(t);
                    assert(ks.to_set().contains(k));
                    let a = choose|a: int| 0 <= a < ks.len() && ks[a] == k;
                    assert(m[ks[a]] == vs[a]);
                    assert(vs[a].cleanup == Some(t));
                }
            }
        }
        self.watches.clear();
        timers
    }
}

} // verus!
