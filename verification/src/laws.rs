//! Laws of the state manager: what a write gives back to a read, what a
//! rejected write leaves behind, and who hears about a change.

use vstd::prelude::*;
use crate::bag::{bag_write, lemma_write_then_read};
use crate::fanout::{deliver_all, fanout_wf, has_subscriber, ids_below, lemma_pending_at, pending, ChangeEventView, FanoutView};
use crate::manager::{
    lemma_deliver_empty, notify_spec, resolved_value, set_group_property_spec, set_property_spec,
    ManagerView,
};
use crate::stamp::{supersedes_spec, ChangeSource, WriteOutcome, WriteStamp};
use crate::store::{bag_or_empty, stored_value, target_spec, StoreView};
use crate::value::PropertyValueView;
use crate::decoder::{event_changes_spec, EnrichedEvent, EventData, TopologyChangesView};
use crate::manager::worker::{apply_changes_spec, apply_topology_spec, event_stamp, handle_event_spec};
use crate::property::{PropertyKind, ServiceScope};
use crate::store::group_for_speaker_spec;

verus! {

/// Reads resolve the same way before and after a property write: a write
/// touches property bags only, never the group structure.
proof fn lemma_write_keeps_targets(m: ManagerView, sid: Seq<char>, v: PropertyValueView, stamp: WriteStamp, other: Seq<char>)
    ensures
        target_spec(set_property_spec(m, sid, v, stamp).0.store, v.kind(), other)
            == target_spec(m.store, v.kind(), other),
{
}

/// Read-your-write: after a write of `v` for speaker `sid` that was not
/// rejected, every speaker whose reads of that property resolve to the same
/// bag as `sid`'s reads `v` — `sid` itself and, for a speaker-scoped property
/// of a per-coordinator service, every member of its group.
pub proof fn lemma_set_then_get(
    m: ManagerView,
    sid: Seq<char>,
    other: Seq<char>,
    v: PropertyValueView,
    stamp: WriteStamp,
)
    requires
        set_property_spec(m, sid, v, stamp).1 != WriteOutcome::Stale,
        target_spec(m.store, v.kind(), other) == target_spec(m.store, v.kind(), sid),
    ensures
        resolved_value(set_property_spec(m, sid, v, stamp).0.store, v.kind(), other) == Some(v),
{
    let t = target_spec(m.store, v.kind(), sid);
    let b = bag_or_empty(m.store.speaker_props, t);
    lemma_write_then_read(b, v, stamp);
    lemma_write_keeps_targets(m, sid, v, stamp, other);
}

/// A rejected (stale) write leaves the manager exactly as it was: no value,
/// no stamp and no event.
pub proof fn lemma_stale_write_changes_nothing(m: ManagerView, sid: Seq<char>, v: PropertyValueView, stamp: WriteStamp)
    requires
        set_property_spec(m, sid, v, stamp).1 == WriteOutcome::Stale,
    ensures
        set_property_spec(m, sid, v, stamp).0 == m,
{
    let t = target_spec(m.store, v.kind(), sid);
    let b = bag_or_empty(m.store.speaker_props, t);
    lemma_write_then_read(b, v, stamp);
    assert(m.store.speaker_props.contains_key(t));
    assert(m.store.speaker_props.insert(t, b) =~= m.store.speaker_props);
    lemma_deliver_empty(m.fanout);
    let r = set_property_spec(m, sid, v, stamp).0;
    assert(r.store == m.store);
}

/// A fetch captured no later than an event's observation loses to it:
/// after the event's value is written (and not rejected), writing a fetched
/// value of the same property for the same speaker, stamped no later than
/// the event, is rejected as stale and changes nothing — no value, no stamp,
/// no change event. Stamps from the manager's stamp source never go back
/// (`StateManager::next_stamp`), so a fetch stamped from it before the event
/// is stamped from it always qualifies.
pub proof fn lemma_earlier_fetch_is_stale(
    m: ManagerView,
    sid: Seq<char>,
    event_value: PropertyValueView,
    event_stamp: WriteStamp,
    fetched: PropertyValueView,
    fetch_stamp: WriteStamp,
)
    requires
        event_value.kind() == fetched.kind(),
        event_stamp.source == ChangeSource::Event,
        fetch_stamp.source == ChangeSource::Fetch,
        fetch_stamp.observed_at <= event_stamp.observed_at,
        set_property_spec(m, sid, event_value, event_stamp).1 != WriteOutcome::Stale,
    ensures
        set_property_spec(set_property_spec(m, sid, event_value, event_stamp).0, sid, fetched, fetch_stamp).1
            == WriteOutcome::Stale,
        set_property_spec(set_property_spec(m, sid, event_value, event_stamp).0, sid, fetched, fetch_stamp).0
            == set_property_spec(m, sid, event_value, event_stamp).0,
{
    let m1 = set_property_spec(m, sid, event_value, event_stamp).0;
    let t = target_spec(m.store, event_value.kind(), sid);
    let b = bag_or_empty(m.store.speaker_props, t);
    lemma_write_then_read(b, event_value, event_stamp);
    lemma_write_keeps_targets(m, sid, event_value, event_stamp, sid);
    assert(target_spec(m1.store, fetched.kind(), sid) == t);
    assert(bag_or_empty(m1.store.speaker_props, t)[fetched.kind()] == (event_value, event_stamp));
    assert(!supersedes_spec(fetch_stamp, event_stamp));
    lemma_stale_write_changes_nothing(m1, sid, fetched, fetch_stamp);
}

/// A rejected (stale) group write leaves the manager exactly as it was.
pub proof fn lemma_stale_group_write_changes_nothing(m: ManagerView, gid: Seq<char>, v: PropertyValueView, stamp: WriteStamp)
    requires
        set_group_property_spec(m, gid, v, stamp).1 == WriteOutcome::Stale,
    ensures
        set_group_property_spec(m, gid, v, stamp).0 == m,
{
    let b = bag_or_empty(m.store.group_props, gid);
    lemma_write_then_read(b, v, stamp);
    assert(m.store.group_props.contains_key(gid));
    assert(m.store.group_props.insert(gid, b) =~= m.store.group_props);
    lemma_deliver_empty(m.fanout);
    let r = set_group_property_spec(m, gid, v, stamp).0;
    assert(r.store == m.store);
}

/// A write nobody watches emits nothing: when neither the requesting speaker
/// nor the speaker whose bag changes has a hold on the property, no iterator
/// receives an event.
pub proof fn lemma_unwatched_write_is_silent(m: ManagerView, sid: Seq<char>, v: PropertyValueView, stamp: WriteStamp)
    requires
        !m.watched.contains_key((sid, v.kind().key_spec())),
        !m.watched.contains_key((target_spec(m.store, v.kind(), sid), v.kind().key_spec())),
    ensures
        set_property_spec(m, sid, v, stamp).0.fanout == m.fanout,
{
    let t = target_spec(m.store, v.kind(), sid);
    assert(notify_spec(m.watched, sid, v, stamp) =~= Seq::<ChangeEventView>::empty());
    assert(notify_spec(m.watched, t, v, stamp) =~= Seq::<ChangeEventView>::empty());
    assert(Seq::<ChangeEventView>::empty() + Seq::<ChangeEventView>::empty() =~= Seq::<ChangeEventView>::empty());
    lemma_deliver_empty(m.fanout);
}

/// Every iterator receives every event, in emit order: delivering a batch
/// appends the whole batch to each live subscriber's queue, and subscribers
/// never compete for events.
pub proof fn lemma_every_iterator_receives_every_event(f: FanoutView, events: Seq<ChangeEventView>, id: u64)
    requires
        fanout_wf(f),
        has_subscriber(f, id),
    ensures
        has_subscriber(deliver_all(f, events), id),
        pending(deliver_all(f, events), id) == pending(f, id) + events,
{
    let i = choose|i: int| 0 <= i < f.subscribers.len() && f.subscribers[i].0 == id;
    lemma_pending_at(f, i);
    let g = deliver_all(f, events);
    assert(g.subscribers[i] == (id, f.subscribers[i].1 + events));
    assert(fanout_wf(g));
    lemma_pending_at(g, i);
}

/// Removing the subscribers of an id no subscriber has yet removes nothing.
proof fn lemma_filter_fresh_id(s: Seq<(u64, Seq<ChangeEventView>)>, bound: u64)
    requires
        ids_below(s, bound),
    ensures
        s.filter(|x: (u64, Seq<ChangeEventView>)| x.0 != bound) == s,
    decreases s.len(),
{
    if s.len() == 0 {
        reveal(Seq::filter);
    } else {
        lemma_filter_fresh_id(s.drop_last(), bound);
        s.drop_last().lemma_filter_push(s.last(), |x: (u64, Seq<ChangeEventView>)| x.0 != bound);
        assert(s.drop_last().push(s.last()) =~= s);
    }
}

/// Closing an iterator opened just before leaves the other iterators exactly
/// as they were: subscribing and then unsubscribing the new id restores the
/// subscriber list, queues and order included.
pub proof fn lemma_subscribe_then_unsubscribe(f: FanoutView)
    requires
        fanout_wf(f),
    ensures
        f.subscribers.push((f.next_id, Seq::<ChangeEventView>::empty())).filter(
            |s: (u64, Seq<ChangeEventView>)| s.0 != f.next_id,
        ) == f.subscribers,
{
    lemma_filter_fresh_id(f.subscribers, f.next_id);
    f.subscribers.lemma_filter_push(
        (f.next_id, Seq::<ChangeEventView>::empty()),
        |s: (u64, Seq<ChangeEventView>)| s.0 != f.next_id,
    );
}

/// An event of a per-coordinator service from a grouped speaker that is not
/// its group's coordinator is ignored: such speakers report empty values for
/// state the coordinator owns.
pub proof fn lemma_member_event_ignored(m: ManagerView, e: EnrichedEvent)
    requires
        !(e.event_data is ZoneGroupTopologyEvent),
        e.service.scope_spec() == ServiceScope::PerCoordinator,
        m.ip_to_speaker.contains_key(e.speaker_ip),
        group_for_speaker_spec(m.store, m.ip_to_speaker[e.speaker_ip]) matches Some(g)
            && g.coordinator_id != m.ip_to_speaker[e.speaker_ip],
    ensures
        handle_event_spec(m, e) == m,
{
}

/// An event from an address no speaker has is ignored.
pub proof fn lemma_unknown_sender_ignored(m: ManagerView, e: EnrichedEvent)
    requires
        !(e.event_data is ZoneGroupTopologyEvent),
        !m.ip_to_speaker.contains_key(e.speaker_ip),
    ensures
        handle_event_spec(m, e) == m,
{
}

/// A topology snapshot without zone groups is a partial event and leaves the
/// cached groups, memberships and everything else as they were.
pub proof fn lemma_partial_topology_keeps_state(m: ManagerView, tc: TopologyChangesView, stamp: WriteStamp)
    requires
        tc.groups.len() == 0,
    ensures
        apply_topology_spec(m, tc, stamp) == m,
{
}

/// Applying changes to one speaker writes only that speaker's bag: no other
/// bag, no group data and no watch changes.
proof fn lemma_changes_write_only_sender(m: ManagerView, sid: Seq<char>, vs: Seq<PropertyValueView>, stamp: WriteStamp, other: Seq<char>)
    requires
        other != sid,
    ensures
        apply_changes_spec(m, sid, vs, stamp).store.speaker_props.contains_key(other)
            == m.store.speaker_props.contains_key(other),
        m.store.speaker_props.contains_key(other) ==> apply_changes_spec(m, sid, vs, stamp).store.speaker_props[other]
            == m.store.speaker_props[other],
        apply_changes_spec(m, sid, vs, stamp).store == (StoreView {
            speaker_props: apply_changes_spec(m, sid, vs, stamp).store.speaker_props,
            ..m.store
        }),
        apply_changes_spec(m, sid, vs, stamp).watched == m.watched,
    decreases vs.len(),
{
    if vs.len() > 0 {
        lemma_changes_write_only_sender(m, sid, vs.drop_last(), stamp, other);
    }
}

/// An event never copies data into other speakers' bags: a group member's
/// bag is untouched by its coordinator's event, and the member reads the
/// coordinator's value through resolution instead.
pub proof fn lemma_event_writes_only_sender(m: ManagerView, e: EnrichedEvent, other: Seq<char>)
    requires
        !(e.event_data is ZoneGroupTopologyEvent),
        m.ip_to_speaker.contains_key(e.speaker_ip),
        other != m.ip_to_speaker[e.speaker_ip],
    ensures
        handle_event_spec(m, e).store.speaker_props.contains_key(other) == m.store.speaker_props.contains_key(other),
        m.store.speaker_props.contains_key(other) ==> handle_event_spec(m, e).store.speaker_props[other]
            == m.store.speaker_props[other],
        handle_event_spec(m, e).store.groups == m.store.groups,
        handle_event_spec(m, e).store.speaker_to_group == m.store.speaker_to_group,
{
    let sid = m.ip_to_speaker[e.speaker_ip];
    lemma_changes_write_only_sender(m, sid, event_changes_spec(e.event_data), event_stamp(e), other);
}

/// Applying changes stamped `stamp` to a speaker keeps every entry of its
/// bag whose stamp is strictly newer than `stamp`.
proof fn lemma_changes_keep_newer(
    m: ManagerView,
    sid: Seq<char>,
    vs: Seq<PropertyValueView>,
    stamp: WriteStamp,
    k: PropertyKind,
)
    requires
        m.store.speaker_props.contains_key(sid),
        m.store.speaker_props[sid].contains_key(k),
        m.store.speaker_props[sid][k].1.observed_at > stamp.observed_at,
    ensures
        apply_changes_spec(m, sid, vs, stamp).store.speaker_props.contains_key(sid),
        apply_changes_spec(m, sid, vs, stamp).store.speaker_props[sid].contains_key(k),
        apply_changes_spec(m, sid, vs, stamp).store.speaker_props[sid][k] == m.store.speaker_props[sid][k],
    decreases vs.len(),
{
    if vs.len() > 0 {
        lemma_changes_keep_newer(m, sid, vs.drop_last(), stamp, k);
    }
}

/// A value observed after an event survives that event: when the sending
/// speaker's bag holds, for some property, an entry stamped strictly later
/// than the event's observation time (such as a local action taken after
/// the event was observed), handling the event leaves that entry as it was,
/// however late the event is applied.
pub proof fn lemma_later_write_survives_older_event(m: ManagerView, e: EnrichedEvent, k: PropertyKind)
    requires
        !(e.event_data is ZoneGroupTopologyEvent),
        m.ip_to_speaker.contains_key(e.speaker_ip),
        m.store.speaker_props.contains_key(m.ip_to_speaker[e.speaker_ip]),
        m.store.speaker_props[m.ip_to_speaker[e.speaker_ip]].contains_key(k),
        m.store.speaker_props[m.ip_to_speaker[e.speaker_ip]][k].1.observed_at > e.observed_at,
    ensures
        handle_event_spec(m, e).store.speaker_props.contains_key(m.ip_to_speaker[e.speaker_ip]),
        handle_event_spec(m, e).store.speaker_props[m.ip_to_speaker[e.speaker_ip]][k]
            == m.store.speaker_props[m.ip_to_speaker[e.speaker_ip]][k],
{
    let sid = m.ip_to_speaker[e.speaker_ip];
    lemma_changes_keep_newer(m, sid, event_changes_spec(e.event_data), event_stamp(e), k);
}

} // verus!
