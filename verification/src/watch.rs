//! Watch bookkeeping: which `(speaker, property key)` pairs are watched.
//!
//! A watch is a hold, not a flag. Direct holds are counted, one per
//! `register_watch`, and released one at a time. The subscription hold is a
//! single flag covering every subscription-backed watcher of the pair, and is
//! cleared in bulk when the subscription is torn down. A pair is watched while
//! either kind of hold remains; its entry disappears when none does.

use vstd::prelude::*;
use crate::ids::SpeakerId;
use crate::net::IpAddr;
use crate::property::Service;
use crate::table::Table;
use crate::text::{chars_of, string_of};
use crate::viewed::{seq_view, ViewEq};

verus! {

/// The holds on one watched `(speaker_id, property_key)` pair.
#[derive(Debug, Clone, Copy, PartialEq, Eq, Structural)]
pub struct WatchHolds {
    /// Whether any subscription-backed watcher holds this pair.
    pub subscription: bool,
    /// Number of outstanding direct holds.
    pub direct: usize,
}

impl View for WatchHolds {
    type V = WatchHolds;

    open spec fn view(&self) -> WatchHolds {
        *self
    }
}

impl ViewEq for WatchHolds {
    fn view_eq(&self, other: &Self) -> (r: bool) {
        self.subscription == other.subscription && self.direct == other.direct
    }

    fn view_clone(&self) -> (r: Self) {
        *self
    }
}

impl WatchHolds {
    /// Whether any hold remains.
    pub open spec fn held(self) -> bool {
        self.subscription || self.direct > 0
    }

    /// Whether any hold remains (executable).
    pub fn is_held(&self) -> (r: bool)
        ensures
            r == self.held(),
    {
        self.subscription || self.direct > 0
    }
}

/// The key of a watched pair: a speaker and a property key.
#[derive(Debug)]
pub struct WatchKey {
    pub speaker_id: SpeakerId,
    pub property_key: String,
}

impl View for WatchKey {
    type V = (Seq<char>, Seq<char>);

    open spec fn view(&self) -> (Seq<char>, Seq<char>) {
        (self.speaker_id@, self.property_key@)
    }
}

impl ViewEq for WatchKey {
    fn view_eq(&self, other: &Self) -> (r: bool) {
        self.speaker_id.view_eq(&other.speaker_id) && self.property_key == other.property_key
    }

    fn view_clone(&self) -> (r: Self) {
        WatchKey {
            speaker_id: self.speaker_id.view_clone(),
            property_key: self.property_key.clone(),
        }
    }
}

impl WatchKey {
    /// The key for `speaker_id` and `property_key`.
    pub fn new(speaker_id: &SpeakerId, property_key: &str) -> (r: WatchKey)
        ensures
            r@ == (speaker_id@, property_key@),
    {
        let v = chars_of(property_key);
        WatchKey { speaker_id: speaker_id.view_clone(), property_key: string_of(&v) }
    }
}

/// The abstract watch state: holds per pair.
pub type WatchMap = Map<(Seq<char>, Seq<char>), WatchHolds>;

/// Every entry of a watch map still has a hold on it.
pub open spec fn all_held(m: WatchMap) -> bool {
    forall|k: (Seq<char>, Seq<char>)| #[trigger] m.contains_key(k) ==> m[k].held()
}

/// The holds on `k` in `m` (no holds if absent).
pub open spec fn holds_of(m: WatchMap, k: (Seq<char>, Seq<char>)) -> WatchHolds {
    if m.contains_key(k) {
        m[k]
    } else {
        WatchHolds { subscription: false, direct: 0 }
    }
}

/// `m` with `h` recorded for `k`, or `k` dropped if `h` holds nothing.
pub open spec fn put_holds(m: WatchMap, k: (Seq<char>, Seq<char>), h: WatchHolds) -> WatchMap {
    if h.held() {
        m.insert(k, h)
    } else {
        m.remove(k)
    }
}

/// `m` after one more direct hold on `k`.
pub open spec fn retain_direct_spec(m: WatchMap, k: (Seq<char>, Seq<char>)) -> WatchMap {
    let h = holds_of(m, k);
    put_holds(m, k, WatchHolds { direct: (h.direct + 1) as usize, ..h })
}

/// `m` after a subscription hold on `k`.
pub open spec fn retain_subscription_spec(m: WatchMap, k: (Seq<char>, Seq<char>)) -> WatchMap {
    let h = holds_of(m, k);
    put_holds(m, k, WatchHolds { subscription: true, ..h })
}

/// `m` after releasing one direct hold on `k`; releasing a pair that is not
/// held changes nothing, and the count never goes below zero.
pub open spec fn release_direct_spec(m: WatchMap, k: (Seq<char>, Seq<char>)) -> WatchMap {
    if m.contains_key(k) {
        let h = m[k];
        put_holds(
            m,
            k,
            WatchHolds { direct: if h.direct > 0 { (h.direct - 1) as usize } else { 0 }, ..h },
        )
    } else {
        m
    }
}

/// `m` after clearing the subscription hold on `k`, keeping direct holds.
pub open spec fn release_subscription_spec(m: WatchMap, k: (Seq<char>, Seq<char>)) -> WatchMap {
    if m.contains_key(k) {
        put_holds(m, k, WatchHolds { subscription: false, ..m[k] })
    } else {
        m
    }
}

/// Watch holds per `(speaker_id, property_key)` pair.
#[derive(Debug)]
pub struct WatchCounts {
    table: Table<WatchKey, WatchHolds>,
}

impl View for WatchCounts {
    type V = WatchMap;

    closed spec fn view(&self) -> WatchMap {
        self.table@
    }
}

impl WatchCounts {
    /// The table is well formed and every entry is held.
    pub closed spec fn wf(&self) -> bool {
        self.table.wf() && all_held(self.table@)
    }

    /// Every watched pair of a well-formed map has a hold on it.
    pub proof fn lemma_wf_all_held(&self)
        requires
            self.wf(),
        ensures
            all_held(self@),
    {
    }

    /// No pair is watched.
    pub fn new() -> (r: WatchCounts)
        ensures
            r.wf(),
            r@ == WatchMap::empty(),
    {
        WatchCounts { table: Table::new() }
    }

    /// Whether `(speaker_id, key)` currently has any hold on it.
    pub fn is_pair_watched(&self, speaker_id: &SpeakerId, key: &str) -> (r: bool)
        requires
            self.wf(),
        ensures
            r == self@.contains_key((speaker_id@, key@)),
    {
        let k = WatchKey::new(speaker_id, key);
        self.table.contains_key(&k)
    }

    /// The holds on `(speaker_id, key)`.
    pub fn holds(&self, speaker_id: &SpeakerId, key: &str) -> (r: WatchHolds)
        requires
            self.wf(),
        ensures
            r == holds_of(self@, (speaker_id@, key@)),
    {
        let k = WatchKey::new(speaker_id, key);
        match self.table.get(&k) {
            Some(h) => h,
            None => WatchHolds { subscription: false, direct: 0 },
        }
    }

    /// Records `h` for `k`, dropping the entry when `h` holds nothing.
    fn put(&mut self, k: WatchKey, h: WatchHolds)
        requires
            old(self).wf(),
        ensures
            final(self).wf(),
            final(self)@ == put_holds(old(self)@, k@, h),
    {
        if h.is_held() {
            self.table.insert(k, h);
        } else {
            self.table.remove(&k);
        }
    }

    /// Adds one direct hold on `(speaker_id, key)`.
    pub fn retain_direct_watch(&mut self, speaker_id: &SpeakerId, key: &str)
        requires
            old(self).wf(),
            holds_of(old(self)@, (speaker_id@, key@)).direct < usize::MAX,
        ensures
            final(self).wf(),
            final(self)@ == retain_direct_spec(old(self)@, (speaker_id@, key@)),
    {
        let h = self.holds(speaker_id, key);
        let k = WatchKey::new(speaker_id, key);
        self.put(k, WatchHolds { subscription: h.subscription, direct: h.direct + 1 });
    }

    /// Marks `(speaker_id, key)` as held by a subscription.
    pub fn retain_subscription_watch(&mut self, speaker_id: &SpeakerId, key: &str)
        requires
            old(self).wf(),
        ensures
            final(self).wf(),
            final(self)@ == retain_subscription_spec(old(self)@, (speaker_id@, key@)),
    {
        let h = self.holds(speaker_id, key);
        let k = WatchKey::new(speaker_id, key);
        self.put(k, WatchHolds { subscription: true, direct: h.direct });
    }

    /// Releases one direct hold, dropping the entry once no holds remain.
    pub fn release_direct_watch(&mut self, speaker_id: &SpeakerId, key: &str)
        requires
            old(self).wf(),
        ensures
            final(self).wf(),
            final(self)@ == release_direct_spec(old(self)@, (speaker_id@, key@)),
    {
        if self.is_pair_watched(speaker_id, key) {
            let h = self.holds(speaker_id, key);
            let k = WatchKey::new(speaker_id, key);
            let d = if h.direct > 0 {
                h.direct - 1
            } else {
                0
            };
            self.put(k, WatchHolds { subscription: h.subscription, direct: d });
        }
    }

    /// Clears the subscription hold, keeping direct holds.
    pub fn release_subscription_watch(&mut self, speaker_id: &SpeakerId, key: &str)
        requires
            old(self).wf(),
        ensures
            final(self).wf(),
            final(self)@ == release_subscription_spec(old(self)@, (speaker_id@, key@)),
    {
        if self.is_pair_watched(speaker_id, key) {
            let h = self.holds(speaker_id, key);
            let k = WatchKey::new(speaker_id, key);
            self.put(k, WatchHolds { subscription: false, direct: h.direct });
        }
    }

    /// The number of watched pairs.
    pub fn len(&self) -> (r: usize)
        requires
            self.wf(),
        ensures
            r == self@.dom().len(),
    {
        self.table.len()
    }
}

// ---------------------------------------------------------------------------
// Laws of the watch bookkeeping
// ---------------------------------------------------------------------------

/// One register followed by one unregister of the same pair leaves the watch
/// state exactly as it was: a watcher going away removes only its own hold.
pub proof fn lemma_retain_then_release_direct(m: WatchMap, k: (Seq<char>, Seq<char>))
    requires
        all_held(m),
        holds_of(m, k).direct < usize::MAX,
    ensures
        release_direct_spec(retain_direct_spec(m, k), k) == m,
{
    let h = holds_of(m, k);
    let m1 = retain_direct_spec(m, k);
    assert(m1.contains_key(k));
    if m.contains_key(k) {
        assert(release_direct_spec(m1, k) =~= m);
    } else {
        assert(release_direct_spec(m1, k) =~= m);
    }
}

/// While a pair has more direct holds than are released, it stays watched.
pub proof fn lemma_release_direct_keeps_other_holds(m: WatchMap, k: (Seq<char>, Seq<char>))
    requires
        all_held(m),
        holds_of(m, k).direct >= 2 || (holds_of(m, k).subscription && m.contains_key(k)),
    ensures
        release_direct_spec(m, k).contains_key(k),
{
}

/// Clearing a pair's subscription hold never touches its direct holds, and the
/// pair stays watched exactly when direct holds remain.
pub proof fn lemma_release_subscription_keeps_direct(m: WatchMap, k: (Seq<char>, Seq<char>))
    requires
        all_held(m),
    ensures
        holds_of(release_subscription_spec(m, k), k).direct == holds_of(m, k).direct,
        release_subscription_spec(m, k).contains_key(k) <==> holds_of(m, k).direct > 0,
        !holds_of(release_subscription_spec(m, k), k).subscription,
{
}

/// Dropping the subscription-backed watches a service delivered to a
/// speaker keeps every direct hold: each of that speaker's keys for the
/// service loses only its subscription hold and stays watched exactly when
/// direct holds remain, and every other pair is left as it was.
pub proof fn lemma_service_release_keeps_direct(
    m: WatchMap,
    sid: Seq<char>,
    keys: Set<Seq<char>>,
    k: (Seq<char>, Seq<char>),
)
    requires
        all_held(m),
    ensures
        holds_of(release_service_spec(m, sid, keys), k).direct == holds_of(m, k).direct,
        k.0 == sid && keys.contains(k.1) ==> {
            &&& !holds_of(release_service_spec(m, sid, keys), k).subscription
            &&& release_service_spec(m, sid, keys).contains_key(k) <==> holds_of(m, k).direct > 0
        },
        !(k.0 == sid && keys.contains(k.1)) ==> holds_of(release_service_spec(m, sid, keys), k)
            == holds_of(m, k) && (release_service_spec(m, sid, keys).contains_key(k)
            <==> m.contains_key(k)),
        all_held(release_service_spec(m, sid, keys)),
{
    assert(m.contains_key(k) ==> m[k].held());
    assert forall|j: (Seq<char>, Seq<char>)| #[trigger] release_service_spec(m, sid, keys).contains_key(j) implies release_service_spec(
        m,
        sid,
        keys,
    )[j].held() by {
        assert(m[j].held());
    }
}

/// A watch operation on one pair leaves every other pair as it was.
pub proof fn lemma_watch_ops_are_local(
    m: WatchMap,
    k: (Seq<char>, Seq<char>),
    other: (Seq<char>, Seq<char>),
)
    requires
        k != other,
    ensures
        holds_of(retain_direct_spec(m, k), other) == holds_of(m, other),
        holds_of(release_direct_spec(m, k), other) == holds_of(m, other),
        holds_of(retain_subscription_spec(m, k), other) == holds_of(m, other),
        holds_of(release_subscription_spec(m, k), other) == holds_of(m, other),
{
}

// ---------------------------------------------------------------------------
// Subscription teardown
// ---------------------------------------------------------------------------

/// `m` after clearing the subscription hold of every pair of speaker `sid`
/// whose key is in `keys`.
pub open spec fn release_service_spec(m: WatchMap, sid: Seq<char>, keys: Set<Seq<char>>) -> WatchMap {
    Map::new(
        |k: (Seq<char>, Seq<char>)|
            m.contains_key(k) && (!(k.0 == sid && keys.contains(k.1)) || m[k].direct > 0),
        |k: (Seq<char>, Seq<char>)|
            if k.0 == sid && keys.contains(k.1) {
                WatchHolds { subscription: false, ..m[k] }
            } else {
                m[k]
            },
    )
}

/// The map from property keys to the service each was subscribed through.
#[derive(Debug)]
pub struct KeyServices {
    table: Table<String, Service>,
}

impl View for KeyServices {
    type V = Map<Seq<char>, Service>;

    closed spec fn view(&self) -> Map<Seq<char>, Service> {
        self.table@
    }
}

impl KeyServices {
    pub closed spec fn wf(&self) -> bool {
        self.table.wf()
    }

    /// The keys mapped to `service`.
    pub open spec fn keys_of(m: Map<Seq<char>, Service>, service: Service) -> Set<Seq<char>> {
        Set::new(|k: Seq<char>| m.contains_key(k) && m[k] == service)
    }

    pub fn new() -> (r: KeyServices)
        ensures
            r.wf(),
            r@ == Map::<Seq<char>, Service>::empty(),
    {
        KeyServices { table: Table::new() }
    }

    /// Records that `key` is delivered through `service`.
    pub fn insert(&mut self, key: &str, service: Service)
        requires
            old(self).wf(),
        ensures
            final(self).wf(),
            final(self)@ == old(self)@.insert(key@, service),
    {
        let v = chars_of(key);
        self.table.insert(string_of(&v), service);
    }

    /// The keys recorded for `service`, each once.
    pub fn keys_for(&self, service: Service) -> (r: Vec<String>)
        requires
            self.wf(),
        ensures
            seq_view(r@).to_set() == Self::keys_of(self@, service),
            seq_view(r@).no_duplicates(),
    {
        let keys = self.table.keys();
        let vals = self.table.values();
        proof {
            self.table.lemma_key_seq();
        }
        let ghost ks = self.table.key_seq();
        let ghost vs = self.table.value_seq();
        let mut out: Vec<String> = Vec::new();
        let mut i: usize = 0;
        while i < keys.len()
            invariant
                seq_view(keys@) == ks,
                seq_view(vals@) == vs,
                ks.len() == vs.len(),
                i <= keys.len(),
                seq_view(out@) == matching_keys(ks, vs, service, i as int),
            decreases keys.len() - i,
        {
            assert(seq_view(keys@)[i as int] == keys@[i as int]@);
            assert(seq_view(vals@)[i as int] == vals@[i as int]@);
            let ghost before = seq_view(out@);
            if vals[i] == service {
                out.push(keys[i].clone());
                assert(seq_view(out@) =~= before.push(keys@[i as int]@));
            }
            i = i + 1;
        }
        proof {
            lemma_matching_keys(ks, vs, service, ks.len() as int);
            assert forall|x: Seq<char>| seq_view(out@).to_set().contains(x) <==> Self::keys_of(
                self@,
                service,
            ).contains(x) by {
                if Self::keys_of(self@, service).contains(x) {
                    assert(ks.to_set().contains(x));
                    let j = choose|j: int| 0 <= j < ks.len() && ks[j] == x;
                    assert(self@[ks[j]] == vs[j]);
                }
                if seq_view(out@).contains(x) {
                    let j = choose|j: int| 0 <= j < ks.len() && ks[j] == x && vs[j] == service;
                    assert(self@[ks[j]] == vs[j]);
                    assert(ks.to_set().contains(x));
                }
            }
            assert(seq_view(out@).to_set() =~= Self::keys_of(self@, service));
        }
        out
    }
}

/// The keys among the first `n` of `ks` whose value in `vs` is `service`.
pub open spec fn matching_keys(
    ks: Seq<Seq<char>>,
    vs: Seq<Service>,
    service: Service,
    n: int,
) -> Seq<Seq<char>>
    decreases n,
{
    if n <= 0 {
        Seq::<Seq<char>>::empty()
    } else if vs[n - 1] == service {
        matching_keys(ks, vs, service, n - 1).push(ks[n - 1])
    } else {
        matching_keys(ks, vs, service, n - 1)
    }
}

/// What `matching_keys` contains, and that it repeats nothing.
proof fn lemma_matching_keys(ks: Seq<Seq<char>>, vs: Seq<Service>, service: Service, n: int)
    requires
        0 <= n <= ks.len(),
        ks.len() == vs.len(),
        ks.no_duplicates(),
    ensures
        forall|x: Seq<char>|
            #[trigger] matching_keys(ks, vs, service, n).contains(x) <==> exists|j: int|
                0 <= j < n && ks[j] == x && vs[j] == service,
        matching_keys(ks, vs, service, n).no_duplicates(),
    decreases n,
{
    if n > 0 {
        lemma_matching_keys(ks, vs, service, n - 1);
        let prev = matching_keys(ks, vs, service, n - 1);
        let cur = matching_keys(ks, vs, service, n);
        assert forall|x: Seq<char>| #[trigger] cur.contains(x) <==> exists|j: int|
            0 <= j < n && ks[j] == x && vs[j] == service by {
            if cur.contains(x) {
                if prev.contains(x) {
                    let j = choose|j: int| 0 <= j < n - 1 && ks[j] == x && vs[j] == service;
                    assert(0 <= j < n && ks[j] == x && vs[j] == service);
                } else {
                    let k = choose|k: int| 0 <= k < cur.len() && cur[k] == x;
                    assert(k == prev.len());
                    assert(0 <= n - 1 < n && ks[n - 1] == x && vs[n - 1] == service);
                }
            }
            if exists|j: int| 0 <= j < n && ks[j] == x && vs[j] == service {
                let j = choose|j: int| 0 <= j < n && ks[j] == x && vs[j] == service;
                if j < n - 1 {
                    assert(prev.contains(x));
                    let k = choose|k: int| 0 <= k < prev.len() && prev[k] == x;
                    assert(cur[k] == x);
                } else {
                    assert(cur[cur.len() - 1] == x);
                }
            }
        }
        if vs[n - 1] == service {
            assert forall|a: int, b: int| 0 <= a < cur.len() && 0 <= b < cur.len() && a != b
                implies cur[a] != cur[b] by {
                if a == prev.len() || b == prev.len() {
                    let o = if a == prev.len() {
                        b
                    } else {
                        a
                    };
                    assert(prev.contains(cur[o]));
                    let j = choose|j: int| 0 <= j < n - 1 && ks[j] == cur[o] && vs[j] == service;
                    assert(ks[j] != ks[n - 1]);
                }
            }
        }
    }
}

/// Releasing the subscription holds of a set of keys one key at a time.
proof fn lemma_release_service_step(
    m: WatchMap,
    sid: Seq<char>,
    done: Set<Seq<char>>,
    key: Seq<char>,
)
    requires
        all_held(m),
    ensures
        release_subscription_spec(release_service_spec(m, sid, done), (sid, key))
            == release_service_spec(m, sid, done.insert(key)),
{
    let a = release_subscription_spec(release_service_spec(m, sid, done), (sid, key));
    let b = release_service_spec(m, sid, done.insert(key));
    assert(a =~= b);
}

impl WatchCounts {
    /// Clears the subscription hold of every watched pair of `speaker_id`
    /// whose key is among `keys`, keeping direct holds.
    pub fn release_subscription_keys(&mut self, speaker_id: &SpeakerId, keys: &Vec<String>)
        requires
            old(self).wf(),
        ensures
            final(self).wf(),
            final(self)@ == release_service_spec(old(self)@, speaker_id@, seq_view(keys@).to_set()),
    {
        let ghost m = self@;
        proof {
            assert(release_service_spec(m, speaker_id@, Set::empty()) =~= m);
        }
        let mut i: usize = 0;
        while i < keys.len()
            invariant
                self.wf(),
                all_held(m),
                i <= keys.len(),
                self@ == release_service_spec(m, speaker_id@, seq_view(keys@).take(i as int).to_set()),
            decreases keys.len() - i,
        {
            let ghost done = seq_view(keys@).take(i as int).to_set();
            self.release_subscription_watch(speaker_id, keys[i].as_str());
            proof {
                lemma_release_service_step(m, speaker_id@, done, keys@[i as int]@);
                assert(seq_view(keys@).take(i + 1).to_set() =~= done.insert(keys@[i as int]@)) by {
                    assert(seq_view(keys@).take(i + 1) =~= seq_view(keys@).take(i as int).push(
                        keys@[i as int]@,
                    ));
                    seq_view(keys@).take(i as int).lemma_push_to_set_commute(keys@[i as int]@);
                }
            }
            i = i + 1;
        }
        assert(seq_view(keys@).take(keys@.len() as int) =~= seq_view(keys@));
    }
}

/// The reverse map from speaker IP address to speaker ID.
pub type IpMap = Table<IpAddr, SpeakerId>;

/// The watch registry the event manager reports subscription teardowns to.
///
/// Registering a watch marks the pair as subscription-held and records the
/// service the key is delivered through; tearing down a service on a speaker
/// clears the subscription hold of that speaker's keys of that service.
pub fn unregister_watches_for_service(
    watched: &mut WatchCounts,
    ip_to_speaker: &IpMap,
    key_to_service: &KeyServices,
    ip: IpAddr,
    service: Service,
)
    requires
        old(watched).wf(),
        ip_to_speaker.wf(),
        key_to_service.wf(),
    ensures
        final(watched).wf(),
        !ip_to_speaker@.contains_key(ip) ==> final(watched)@ == old(watched)@,
        ip_to_speaker@.contains_key(ip) ==> final(watched)@ == release_service_spec(
            old(watched)@,
            ip_to_speaker@[ip],
            KeyServices::keys_of(key_to_service@, service),
        ),
{
    match ip_to_speaker.get(&ip) {
        Some(speaker_id) => {
            let keys = key_to_service.keys_for(service);
            watched.release_subscription_keys(&speaker_id, &keys);
        },
        None => {},
    }
}

/// Registers a subscription-backed watch on `(speaker_id, key)`, recording the
/// service the key is delivered through.
pub fn register_subscription_watch(
    watched: &mut WatchCounts,
    key_to_service: &mut KeyServices,
    speaker_id: &SpeakerId,
    key: &str,
    service: Service,
)
    requires
        old(watched).wf(),
        old(key_to_service).wf(),
    ensures
        final(watched).wf(),
        final(key_to_service).wf(),
        final(watched)@ == retain_subscription_spec(old(watched)@, (speaker_id@, key@)),
        final(key_to_service)@ == old(key_to_service)@.insert(key@, service),
{
    watched.retain_subscription_watch(speaker_id, key);
    key_to_service.insert(key, service);
}

} // verus!
