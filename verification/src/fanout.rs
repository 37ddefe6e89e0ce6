//! Change events and their fan-out to independent subscribers.
//!
//! Every subscriber owns a queue and receives every event sent after it
//! subscribed, in send order; nothing is dropped and subscribers never compete.

use vstd::prelude::*;
use crate::decoder::PropertyChange;
use crate::ids::SpeakerId;
use crate::property::{PropertyKind, Service};
use crate::stamp::{ChangeSource, WriteStamp};
use crate::value::PropertyValueView;
use crate::viewed::ViewEq;

verus! {

/// A change event emitted when a watched property changes.
#[derive(Debug)]
pub struct ChangeEvent {
    /// Speaker or entity that changed
    pub speaker_id: SpeakerId,
    /// The new value, typed
    pub change: PropertyChange,
    /// What produced this value
    pub source: ChangeSource,
    /// When the change was observed (clock ticks)
    pub timestamp: u64,
}

/// The abstract content of a [`ChangeEvent`].
pub struct ChangeEventView {
    pub speaker_id: Seq<char>,
    pub change: PropertyValueView,
    pub source: ChangeSource,
    pub timestamp: u64,
}

/// The event announcing `change` on `speaker_id`, observed as `stamp` says.
pub open spec fn event_view(speaker_id: Seq<char>, change: PropertyValueView, stamp: WriteStamp) -> ChangeEventView {
    ChangeEventView { speaker_id, change, source: stamp.source, timestamp: stamp.observed_at }
}

impl View for ChangeEvent {
    type V = ChangeEventView;

    open spec fn view(&self) -> ChangeEventView {
        ChangeEventView {
            speaker_id: self.speaker_id@,
            change: self.change@,
            source: self.source,
            timestamp: self.timestamp,
        }
    }
}

impl ViewEq for ChangeEvent {
    fn view_eq(&self, other: &Self) -> (r: bool) {
        self.speaker_id.view_eq(&other.speaker_id) && self.change.view_eq(&other.change)
            && self.source == other.source && self.timestamp == other.timestamp
    }

    fn view_clone(&self) -> (r: Self) {
        ChangeEvent {
            speaker_id: self.speaker_id.view_clone(),
            change: self.change.view_clone(),
            source: self.source,
            timestamp: self.timestamp,
        }
    }
}

impl Clone for ChangeEvent {
    fn clone(&self) -> (r: Self)
        ensures
            r@ == self@,
    {
        self.view_clone()
    }
}

impl ChangeEvent {
    /// The event for `change` on `speaker_id`, with the stamp's provenance.
    pub fn new(speaker_id: SpeakerId, change: PropertyChange, stamp: WriteStamp) -> (r: ChangeEvent)
        ensures
            r@ == event_view(speaker_id@, change@, stamp),
    {
        ChangeEvent { speaker_id, change, source: stamp.source, timestamp: stamp.observed_at }
    }

    /// The key of the property that changed.
    pub fn property_key(&self) -> (r: &'static str)
        ensures
            r@ == self.change@.kind().key_spec(),
    {
        self.change.key()
    }

    /// The UPnP service the changed property belongs to.
    pub fn service(&self) -> (r: Service)
        ensures
            r == self.change@.kind().service_spec(),
    {
        self.change.service()
    }
}

/// One subscriber: its id and the events waiting for it.
#[derive(Debug)]
pub struct Subscriber {
    pub id: u64,
    pub queue: Vec<ChangeEvent>,
}

/// The views of a queue of events.
pub open spec fn queue_view(q: Seq<ChangeEvent>) -> Seq<ChangeEventView> {
    q.map_values(|e: ChangeEvent| e@)
}

/// The abstract state of a fan-out: the next id to hand out, and each live
/// subscriber's id and pending events, in subscription order.
pub struct FanoutView {
    pub next_id: u64,
    pub subscribers: Seq<(u64, Seq<ChangeEventView>)>,
}

/// The fan-out after `events` are delivered, in order, to every subscriber.
pub open spec fn deliver_all(f: FanoutView, events: Seq<ChangeEventView>) -> FanoutView {
    FanoutView {
        next_id: f.next_id,
        subscribers: f.subscribers.map_values(
            |s: (u64, Seq<ChangeEventView>)| (s.0, s.1 + events),
        ),
    }
}

/// Broadcasts each event to every live subscriber.
#[derive(Debug)]
pub struct EventFanout {
    next_id: u64,
    subscribers: Vec<Subscriber>,
}

impl View for EventFanout {
    type V = FanoutView;

    closed spec fn view(&self) -> FanoutView {
        FanoutView {
            next_id: self.next_id,
            subscribers: self.subscribers@.map_values(|s: Subscriber| (s.id, queue_view(s.queue@))),
        }
    }
}

/// Subscriber ids are distinct and below the next id to hand out.
pub open spec fn fanout_wf(f: FanoutView) -> bool {
    ids_below(f.subscribers, f.next_id) && ids_distinct(f.subscribers)
}

/// Every id in `s` is below `bound`.
pub open spec fn ids_below(s: Seq<(u64, Seq<ChangeEventView>)>, bound: u64) -> bool {
    forall|i: int| 0 <= i < s.len() ==> #[trigger] s[i].0 < bound
}

/// The ids in `s` are pairwise distinct.
pub open spec fn ids_distinct(s: Seq<(u64, Seq<ChangeEventView>)>) -> bool {
    forall|i: int, j: int| 0 <= i < s.len() && 0 <= j < s.len() && i != j ==> s[i].0 != s[j].0
}

/// Whether subscriber `id` is live.
pub open spec fn has_subscriber(f: FanoutView, id: u64) -> bool {
    exists|i: int| 0 <= i < f.subscribers.len() && f.subscribers[i].0 == id
}

/// The pending events of subscriber `id` (empty if it is not live).
pub open spec fn pending(f: FanoutView, id: u64) -> Seq<ChangeEventView> {
    if has_subscriber(f, id) {
        f.subscribers[choose|i: int| 0 <= i < f.subscribers.len() && f.subscribers[i].0 == id].1
    } else {
        Seq::empty()
    }
}

/// With distinct ids, the position of a live subscriber is unique.
pub proof fn lemma_pending_at(f: FanoutView, i: int)
    requires
        fanout_wf(f),
        0 <= i < f.subscribers.len(),
    ensures
        has_subscriber(f, f.subscribers[i].0),
        pending(f, f.subscribers[i].0) == f.subscribers[i].1,
{
    let id = f.subscribers[i].0;
    assert(0 <= i < f.subscribers.len() && f.subscribers[i].0 == id);
    let j = choose|j: int| 0 <= j < f.subscribers.len() && f.subscribers[j].0 == id;
    assert(i == j);
}

impl EventFanout {
    pub closed spec fn wf(&self) -> bool {
        fanout_wf(self@)
    }

    /// The subscriber ids of a well-formed fan-out are distinct and below the
    /// next id.
    pub proof fn lemma_wf_view(&self)
        requires
            self.wf(),
        ensures
            fanout_wf(self@),
    {
    }

    /// A fan-out with no subscribers.
    pub fn new() -> (r: EventFanout)
        ensures
            r.wf(),
            r@.next_id == 0,
            r@.subscribers.len() == 0,
    {
        let r = EventFanout { next_id: 0, subscribers: Vec::new() };
        assert(r@.subscribers =~= Seq::<(u64, Seq<ChangeEventView>)>::empty());
        r
    }

    /// Registers a new subscriber with an empty queue, returning its id.
    pub fn subscribe(&mut self) -> (id: u64)
        requires
            old(self).wf(),
            old(self)@.next_id < u64::MAX,
        ensures
            final(self).wf(),
            id == old(self)@.next_id,
            final(self)@.next_id == old(self)@.next_id + 1,
            final(self)@.subscribers == old(self)@.subscribers.push((id, Seq::<ChangeEventView>::empty())),
    {
        let id = self.next_id;
        self.next_id = self.next_id + 1;
        let ghost before = self.subscribers@;
        self.subscribers.push(Subscriber { id, queue: Vec::new() });
        proof {
            assert(queue_view(Seq::<ChangeEvent>::empty()) =~= Seq::<ChangeEventView>::empty());
            assert(self@.subscribers =~= old(self)@.subscribers.push((id, Seq::<ChangeEventView>::empty())));
        }
        id
    }

    /// Drops subscriber `id`; other subscribers keep their queues and order.
    pub fn unsubscribe(&mut self, id: u64)
        requires
            old(self).wf(),
        ensures
            final(self).wf(),
            final(self)@.next_id == old(self)@.next_id,
            final(self)@.subscribers == old(self)@.subscribers.filter(
                |s: (u64, Seq<ChangeEventView>)| s.0 != id,
            ),
    {
        let ghost old_subs = self@.subscribers;
        let ghost bound = self@.next_id;
        let mut kept: Vec<Subscriber> = Vec::new();
        let mut taken: Vec<Subscriber> = Vec::new();
        std::mem::swap(&mut taken, &mut self.subscribers);
        let ghost tv = taken@;
        let n = taken.len();
        let mut rest = taken;
        let mut idx: usize = 0;
        proof {
            assert(old_subs.take(0).filter(|s: (u64, Seq<ChangeEventView>)| s.0 != id) =~= Seq::<(u64, Seq<ChangeEventView>)>::empty());
        }
        while rest.len() > 0
            invariant
                rest@.len() + idx == n,
                n == tv.len(),
                rest@ == tv.skip(idx as int),
                old_subs == tv.map_values(|s: Subscriber| (s.id, queue_view(s.queue@))),
                ids_below(old_subs, bound),
                ids_distinct(old_subs),
                kept@.map_values(|s: Subscriber| (s.id, queue_view(s.queue@))) == old_subs.take(
                    idx as int,
                ).filter(|s: (u64, Seq<ChangeEventView>)| s.0 != id),
                ids_below(kept@.map_values(|s: Subscriber| (s.id, queue_view(s.queue@))), bound),
                ids_distinct(kept@.map_values(|s: Subscriber| (s.id, queue_view(s.queue@)))),
                forall|k: int| 0 <= k < kept@.len() ==> exists|j: int| 0 <= j < idx && old_subs[j].0 == #[trigger] kept@[k].id,
            decreases rest@.len(),
        {
            let s = rest.remove(0);
            proof {
                assert(old_subs.take(idx + 1) =~= old_subs.take(idx as int).push(old_subs[idx as int]));
                assert(old_subs[idx as int] == (s.id, queue_view(s.queue@)));
                assert(rest@ =~= tv.skip(idx + 1));
                old_subs.take(idx as int).lemma_filter_push(old_subs[idx as int], |s: (u64, Seq<ChangeEventView>)| s.0 != id);
            }
            let ghost kb = kept@.map_values(|s: Subscriber| (s.id, queue_view(s.queue@)));
            let ghost kold = kept@;
            if s.id != id {
                kept.push(s);
                proof {
                    let kv = kept@.map_values(|s: Subscriber| (s.id, queue_view(s.queue@)));
                    assert(kv =~= kb.push(old_subs[idx as int]));
                    assert(old_subs[idx as int].0 < bound);
                    assert forall|a: int, b: int| 0 <= a < kv.len() && 0 <= b < kv.len() && a != b implies kv[a].0 != kv[b].0 by {
                        if a == kb.len() || b == kb.len() {
                            let o = if a == kb.len() { b } else { a };
                            assert(kept@[o] == kold[o]);
                            let j = choose|j: int| 0 <= j < idx && old_subs[j].0 == kold[o].id;
                            assert(j != idx);
                        } else {
                            assert(kv[a] == kb[a]);
                            assert(kv[b] == kb[b]);
                        }
                    }
                    assert forall|a: int| 0 <= a < kv.len() implies #[trigger] kv[a].0 < bound by {
                        if a < kb.len() {
                            assert(kv[a] == kb[a]);
                        }
                    }
                    assert forall|k: int| 0 <= k < kept@.len() implies exists|j: int| 0 <= j < idx + 1 && old_subs[j].0 == #[trigger] kept@[k].id by {
                        if k < kold.len() {
                            assert(kept@[k] == kold[k]);
                            let j = choose|j: int| 0 <= j < idx && old_subs[j].0 == kold[k].id;
                            assert(0 <= j < idx + 1 && old_subs[j].0 == kept@[k].id);
                        } else {
                            assert(0 <= idx < idx + 1 && old_subs[idx as int].0 == kept@[k].id);
                        }
                    }
                }
            } else {
                proof {
                    assert forall|k: int| 0 <= k < kept@.len() implies exists|j: int| 0 <= j < idx + 1 && old_subs[j].0 == #[trigger] kept@[k].id by {
                        let j = choose|j: int| 0 <= j < idx && old_subs[j].0 == kept@[k].id;
                        assert(0 <= j < idx + 1 && old_subs[j].0 == kept@[k].id);
                    }
                }
            }
            idx = idx + 1;
        }
        proof {
            assert(old_subs.take(n as int) =~= old_subs);
        }
        self.subscribers = kept;
    }

    /// Delivers `event` to every live subscriber, returning how many got it.
    ///
    /// Subscribers stay until unsubscribed: a subscriber is never dropped
    /// for being slow or unread, so removing the ones whose readers are gone
    /// is the owner's job (`unsubscribe`).
    pub fn send(&mut self, event: &ChangeEvent) -> (delivered: usize)
        requires
            old(self).wf(),
        ensures
            final(self).wf(),
            final(self)@ == deliver_all(old(self)@, seq![event@]),
            delivered == old(self)@.subscribers.len(),
    {
        let ghost old_subs = self@.subscribers;
        let mut taken: Vec<Subscriber> = Vec::new();
        std::mem::swap(&mut taken, &mut self.subscribers);
        let ghost tv = taken@;
        let n = taken.len();
        let mut out: Vec<Subscriber> = Vec::new();
        let mut rest = taken;
        let mut idx: usize = 0;
        while rest.len() > 0
            invariant
                rest@.len() + idx == n,
                n == tv.len(),
                rest@ == tv.skip(idx as int),
                old_subs == tv.map_values(|s: Subscriber| (s.id, queue_view(s.queue@))),
                out@.map_values(|s: Subscriber| (s.id, queue_view(s.queue@))) == old_subs.take(idx as int).map_values(
                    |s: (u64, Seq<ChangeEventView>)| (s.0, s.1 + seq![event@]),
                ),
            decreases rest@.len(),
        {
            let mut s = rest.remove(0);
            proof {
                assert(old_subs[idx as int] == (s.id, queue_view(s.queue@)));
                assert(rest@ =~= tv.skip(idx + 1));
            }
            let ghost qb = queue_view(s.queue@);
            s.queue.push(event.view_clone());
            assert(queue_view(s.queue@) =~= qb + seq![event@]);
            let ghost ob = out@.map_values(|s: Subscriber| (s.id, queue_view(s.queue@)));
            out.push(s);
            proof {
                assert(out@.map_values(|s: Subscriber| (s.id, queue_view(s.queue@))) =~= ob.push((old_subs[idx as int].0, old_subs[idx as int].1 + seq![event@])));
                assert(old_subs.take(idx + 1).map_values(|s: (u64, Seq<ChangeEventView>)| (s.0, s.1 + seq![event@])) =~= old_subs.take(idx as int).map_values(|s: (u64, Seq<ChangeEventView>)| (s.0, s.1 + seq![event@])).push((old_subs[idx as int].0, old_subs[idx as int].1 + seq![event@])));
            }
            idx = idx + 1;
        }
        proof {
            assert(old_subs.take(n as int) =~= old_subs);
        }
        self.subscribers = out;
        proof {
            assert(self@.subscribers =~= deliver_all(old(self)@, seq![event@]).subscribers);
        }
        n
    }

    /// Takes the oldest pending event of subscriber `id`, if any.
    pub fn take_next(&mut self, id: u64) -> (r: Option<ChangeEvent>)
        requires
            old(self).wf(),
        ensures
            final(self).wf(),
            final(self)@.next_id == old(self)@.next_id,
            pending(old(self)@, id).len() == 0 ==> r is None && final(self)@ == old(self)@,
            pending(old(self)@, id).len() > 0 ==> (r matches Some(e) && e@ == pending(old(self)@, id)[0]
                && pending(final(self)@, id) == pending(old(self)@, id).drop_first()),
            forall|other: u64| other != id ==> pending(final(self)@, other) == pending(old(self)@, other),
            forall|other: u64| has_subscriber(final(self)@, other) == has_subscriber(old(self)@, other),
    {
        let mut i: usize = 0;
        while i < self.subscribers.len()
            invariant
                self.wf(),
                self@ == old(self)@,
                i <= self.subscribers.len(),
                forall|j: int| 0 <= j < i ==> self.subscribers@[j].id != id,
            decreases self.subscribers.len() - i,
        {
            if self.subscribers[i].id == id {
                proof {
                    lemma_pending_at(self@, i as int);
                }
                if self.subscribers[i].queue.len() == 0 {
                    return None;
                }
                let ghost f0 = self@;
                let mut taken: Vec<Subscriber> = Vec::new();
                std::mem::swap(&mut taken, &mut self.subscribers);
                let mut sub = taken.remove(i);
                let ghost qv = queue_view(sub.queue@);
                let e = sub.queue.remove(0);
                proof {
                    assert(queue_view(sub.queue@) =~= qv.drop_first());
                }
                taken.insert(i, sub);
                self.subscribers = taken;
                proof {
                    let f1 = self@;
                    assert(f1.subscribers =~= f0.subscribers.update(i as int, (id, qv.drop_first())));
                    assert(fanout_wf(f1));
                    lemma_pending_at(f1, i as int);
                    assert forall|other: u64| other != id implies pending(f1, other) == pending(f0, other) by {
                        if has_subscriber(f0, other) {
                            let j = choose|j: int| 0 <= j < f0.subscribers.len() && f0.subscribers[j].0 == other;
                            lemma_pending_at(f0, j);
                            lemma_pending_at(f1, j);
                        }
                        if has_subscriber(f1, other) {
                            let j = choose|j: int| 0 <= j < f1.subscribers.len() && f1.subscribers[j].0 == other;
                            assert(f0.subscribers[j].0 == other);
                        }
                    }
                    assert forall|other: u64| has_subscriber(f1, other) == has_subscriber(f0, other) by {
                        if has_subscriber(f0, other) {
                            let j = choose|j: int| 0 <= j < f0.subscribers.len() && f0.subscribers[j].0 == other;
                            assert(f1.subscribers[j].0 == other);
                        }
                        if has_subscriber(f1, other) {
                            let j = choose|j: int| 0 <= j < f1.subscribers.len() && f1.subscribers[j].0 == other;
                            assert(f0.subscribers[j].0 == other);
                        }
                    }
                }
                return Some(e);
            }
            i = i + 1;
        }
        proof {
            assert(!has_subscriber(self@, id));
        }
        None
    }

    /// The id the next subscriber will get.
    pub fn next_id(&self) -> (r: u64)
        ensures
            r == self@.next_id,
    {
        self.next_id
    }

    /// Number of live subscribers.
    pub fn subscriber_count(&self) -> (r: usize)
        ensures
            r == self@.subscribers.len(),
    {
        self.subscribers.len()
    }
}

} // verus!
