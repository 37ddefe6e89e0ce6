//! Applying decoded events to the state manager.
//!
//! An event from a known speaker is decoded into property changes, which are
//! written into that speaker's bag; watchers of a changed pair are notified.
//! Events of per-coordinator services are taken from the group coordinator
//! only, and the coordinator's changes are announced to watching members
//! without copying any data. Topology events replace the group structure.

use vstd::prelude::*;
use crate::bag::bag_write;
use crate::decoder::{
    changes_view, decode_event, decode_topology_event, event_changes_spec, event_times_fit,
    membership_list_view, topology_changes_spec, EnrichedEvent, EventData, PropertyChange,
    TopologyChanges, TopologyChangesView,
};
use crate::fanout::{deliver_all, event_view, ChangeEvent, ChangeEventView};
use crate::ids::SpeakerId;
use crate::manager::{
    add_groups_spec, lemma_deliver_concat, lemma_deliver_empty, notify_spec, update_ip_spec,
    ManagerView, StateManager,
};
use crate::net::IpAddr;
use crate::property::{GroupInfoView, GroupMembership, GroupMembershipView, PropertyKind, Scope, ServiceScope};
use crate::stamp::{ChangeSource, WriteOutcome, WriteStamp};
use crate::speaker::SpeakerView;
use crate::store::{bag_or_empty, clear_groups_spec, group_for_speaker_spec, StoreView};
use crate::value::{PropertyValue, PropertyValueView};
use crate::viewed::{seq_view, ViewEq};
use crate::watch::WatchMap;

verus! {

/// A property change written into speaker `sid`'s own bag; a change notifies
/// watchers of `sid`.
pub open spec fn apply_change_spec(m: ManagerView, sid: Seq<char>, v: PropertyValueView, stamp: WriteStamp) -> ManagerView {
    let w = bag_write(bag_or_empty(m.store.speaker_props, sid), v, stamp);
    let events = if w.1 == WriteOutcome::Changed {
        notify_spec(m.watched, sid, v, stamp)
    } else {
        Seq::<ChangeEventView>::empty()
    };
    ManagerView {
        store: StoreView { speaker_props: m.store.speaker_props.insert(sid, w.0), ..m.store },
        fanout: deliver_all(m.fanout, events),
        ..m
    }
}

/// The changes of `vs` applied to speaker `sid`, in order.
pub open spec fn apply_changes_spec(m: ManagerView, sid: Seq<char>, vs: Seq<PropertyValueView>, stamp: WriteStamp) -> ManagerView
    decreases vs.len(),
{
    if vs.len() == 0 {
        m
    } else {
        apply_change_spec(apply_changes_spec(m, sid, vs.drop_last(), stamp), sid, vs.last(), stamp)
    }
}

/// The other members of the group `sid` coordinates, in member order; empty
/// when `sid` is in no known group, is not its coordinator, or is alone.
pub open spec fn group_members_spec(s: StoreView, sid: Seq<char>) -> Seq<Seq<char>> {
    match group_for_speaker_spec(s, sid) {
        Some(g) => if g.coordinator_id == sid && g.member_ids.len() > 1 {
            g.member_ids.filter(|id: Seq<char>| id != sid)
        } else {
            Seq::empty()
        },
        None => Seq::empty(),
    }
}

/// The events telling `member` of the speaker-scoped changes among `vs` it
/// watches, in change order.
pub open spec fn member_events(w: WatchMap, member: Seq<char>, vs: Seq<PropertyValueView>, stamp: WriteStamp) -> Seq<ChangeEventView>
    decreases vs.len(),
{
    if vs.len() == 0 {
        Seq::empty()
    } else {
        let v = vs.last();
        member_events(w, member, vs.drop_last(), stamp) + if v.kind().scope_spec() == Scope::Speaker
            && w.contains_key((member, v.kind().key_spec())) {
            seq![event_view(member, v, stamp)]
        } else {
            Seq::<ChangeEventView>::empty()
        }
    }
}

/// The events telling each of `members`, in order, of the changes it watches.
pub open spec fn members_events(w: WatchMap, members: Seq<Seq<char>>, vs: Seq<PropertyValueView>, stamp: WriteStamp) -> Seq<ChangeEventView>
    decreases members.len(),
{
    if members.len() == 0 {
        Seq::empty()
    } else {
        members_events(w, members.drop_last(), vs, stamp) + member_events(w, members.last(), vs, stamp)
    }
}

/// Memberships written into each speaker's own bag, in order, with the events
/// announcing the ones that changed and are watched.
pub open spec fn apply_memberships_spec(
    s: StoreView,
    w: WatchMap,
    ms: Seq<(Seq<char>, GroupMembershipView)>,
    stamp: WriteStamp,
) -> (StoreView, Seq<ChangeEventView>)
    decreases ms.len(),
{
    if ms.len() == 0 {
        (s, Seq::empty())
    } else {
        let prev = apply_memberships_spec(s, w, ms.drop_last(), stamp);
        let sid = ms.last().0;
        let v = PropertyValueView::GroupMembership(ms.last().1);
        let wr = bag_write(bag_or_empty(prev.0.speaker_props, sid), v, stamp);
        (
            StoreView { speaker_props: prev.0.speaker_props.insert(sid, wr.0), ..prev.0 },
            prev.1 + if wr.1 == WriteOutcome::Changed && w.contains_key(
                (sid, PropertyKind::GroupMembership.key_spec()),
            ) {
                seq![event_view(sid, v, stamp)]
            } else {
                Seq::<ChangeEventView>::empty()
            },
        )
    }
}

/// Boot sequence numbers recorded for known speakers, in order.
pub open spec fn apply_boot_seqs_spec(s: StoreView, bs: Seq<(Seq<char>, u32)>) -> StoreView
    decreases bs.len(),
{
    if bs.len() == 0 {
        s
    } else {
        let prev = apply_boot_seqs_spec(s, bs.drop_last());
        let sid = bs.last().0;
        if prev.speakers.contains_key(sid) {
            StoreView {
                speakers: prev.speakers.insert(sid, SpeakerView { boot_seq: bs.last().1, ..prev.speakers[sid] }),
                ..prev
            }
        } else {
            prev
        }
    }
}

/// Speakers moved to the addresses the topology reports, in order.
pub open spec fn apply_ips_spec(m: ManagerView, ips: Seq<(Seq<char>, IpAddr)>) -> ManagerView
    decreases ips.len(),
{
    if ips.len() == 0 {
        m
    } else {
        update_ip_spec(apply_ips_spec(m, ips.drop_last()), ips.last().0, ips.last().1)
    }
}

/// Moving speakers changes only the store and the reverse address map.
proof fn lemma_apply_ips_keeps(m: ManagerView, ips: Seq<(Seq<char>, IpAddr)>)
    ensures
        apply_ips_spec(m, ips) == (ManagerView {
            store: apply_ips_spec(m, ips).store,
            ip_to_speaker: apply_ips_spec(m, ips).ip_to_speaker,
            ..m
        }),
    decreases ips.len(),
{
    if ips.len() > 0 {
        lemma_apply_ips_keeps(m, ips.drop_last());
    }
}

/// A topology snapshot applied to the manager.
///
/// A snapshot without groups is a partial event and changes nothing.
/// Otherwise the groups are replaced, each membership is written (watchers of
/// a changed membership are notified), boot sequence numbers and addresses
/// are updated, and the satellite ids replaced.
pub open spec fn apply_topology_spec(m: ManagerView, tc: TopologyChangesView, stamp: WriteStamp) -> ManagerView {
    if tc.groups.len() == 0 {
        m
    } else {
        let s1 = add_groups_spec(clear_groups_spec(m.store), tc.groups);
        let mr = apply_memberships_spec(s1, m.watched, tc.memberships, stamp);
        let s3 = apply_boot_seqs_spec(mr.0, tc.boot_seqs);
        let m4 = apply_ips_spec(ManagerView { store: s3, ..m }, tc.speaker_ips);
        ManagerView {
            store: StoreView { satellite_ids: tc.satellite_ids.to_set(), ..m4.store },
            fanout: deliver_all(m.fanout, mr.1),
            ..m4
        }
    }
}

/// The stamp of an event: observed upstream when the event says.
pub open spec fn event_stamp(e: EnrichedEvent) -> WriteStamp {
    WriteStamp { observed_at: e.observed_at, source: ChangeSource::Event }
}

/// One event applied to the manager.
///
/// A topology event replaces the topology. Any other event is dropped when
/// its address is unknown, and, for a per-coordinator service, when it comes
/// from a group member that is not the coordinator (a speaker in no known
/// group counts as its own coordinator). Otherwise its changes are written to
/// the sending speaker, and for a per-coordinator service the group's other
/// members are told of the speaker-scoped changes they watch.
pub open spec fn handle_event_spec(m: ManagerView, e: EnrichedEvent) -> ManagerView {
    let stamp = event_stamp(e);
    match e.event_data {
        EventData::ZoneGroupTopologyEvent(z) => apply_topology_spec(m, topology_changes_spec(z), stamp),
        _ => if !m.ip_to_speaker.contains_key(e.speaker_ip) {
            m
        } else {
            let sid = m.ip_to_speaker[e.speaker_ip];
            let per_coordinator = e.service.scope_spec() == ServiceScope::PerCoordinator;
            let is_coordinator = match group_for_speaker_spec(m.store, sid) {
                Some(g) => g.coordinator_id == sid,
                None => true,
            };
            if per_coordinator && !is_coordinator {
                m
            } else {
                let vs = event_changes_spec(e.event_data);
                let m1 = apply_changes_spec(m, sid, vs, stamp);
                if per_coordinator {
                    ManagerView {
                        fanout: deliver_all(
                            m1.fanout,
                            members_events(m1.watched, group_members_spec(m1.store, sid), vs, stamp),
                        ),
                        ..m1
                    }
                } else {
                    m1
                }
            }
        },
    }
}

impl StateManager {
    /// Applies one property change to a speaker's own bag, notifying its
    /// watchers if the value changed.
    pub fn apply_property_change(&mut self, speaker_id: &SpeakerId, change: &PropertyChange, stamp: WriteStamp)
        requires
            old(self).wf(),
        ensures
            final(self).wf(),
            final(self)@ == apply_change_spec(old(self)@, speaker_id@, change@, stamp),
    {
        let value = change.to_value();
        let outcome = self.store.set_value(speaker_id, value, stamp);
        if outcome.changed() && self.watched.is_pair_watched(speaker_id, change.key()) {
            let event = ChangeEvent::new(speaker_id.view_clone(), change.view_clone(), stamp);
            self.fanout.send(&event);
            proof {
                assert(notify_spec(old(self)@.watched, speaker_id@, change@, stamp) == seq![event@]);
            }
        } else {
            proof {
                lemma_deliver_empty(self@.fanout);
            }
        }
    }

    /// The non-coordinator members of the group `speaker_id` coordinates.
    pub fn resolve_group_members(&self, speaker_id: &SpeakerId) -> (r: Vec<SpeakerId>)
        requires
            self.wf(),
        ensures
            seq_view(r@) == group_members_spec(self@.store, speaker_id@),
    {
        let mut out: Vec<SpeakerId> = Vec::new();
        match self.store.get_group_for_speaker(speaker_id) {
            Some(g) => {
                if g.coordinator_id.view_eq(speaker_id) && g.member_ids.len() > 1 {
                    let ghost ms = g@.member_ids;
                    let ghost pred = |id: Seq<char>| id != speaker_id@;
                    let mut i: usize = 0;
                    proof {
                        assert(ms.take(0) =~= Seq::<Seq<char>>::empty());
                        reveal(Seq::filter);
                    }
                    while i < g.member_ids.len()
                        invariant
                            i <= g.member_ids.len(),
                            ms == seq_view(g.member_ids@),
                            pred == (|id: Seq<char>| id != speaker_id@),
                            seq_view(out@) == ms.take(i as int).filter(pred),
                        decreases g.member_ids.len() - i,
                    {
                        let ghost before = seq_view(out@);
                        proof {
                            assert(ms.take(i + 1).drop_last() =~= ms.take(i as int));
                            assert(ms.take(i + 1).last() == g.member_ids@[i as int]@);
                        }
                        if !g.member_ids[i].view_eq(speaker_id) {
                            out.push(g.member_ids[i].view_clone());
                            proof {
                                assert(seq_view(out@) =~= before.push(g.member_ids@[i as int]@));
                                reveal(Seq::filter);
                                assert(ms.take(i + 1).filter(pred) == ms.take(i + 1).drop_last().filter(pred).push(ms.take(i + 1).last()));
                            }
                        } else {
                            proof {
                                reveal(Seq::filter);
                                assert(ms.take(i + 1).filter(pred) == ms.take(i + 1).drop_last().filter(pred));
                            }
                        }
                        i = i + 1;
                    }
                    proof {
                        assert(ms.take(ms.len() as int) =~= ms);
                    }
                } else {
                    proof {
                        assert(seq_view(out@) =~= Seq::<Seq<char>>::empty());
                    }
                }
            },
            None => {
                proof {
                    assert(seq_view(out@) =~= Seq::<Seq<char>>::empty());
                }
            },
        }
        out
    }

    /// Tells one member of the coordinator's speaker-scoped changes it
    /// watches; nothing is written to the member's bag.
    fn notify_member(&mut self, member_id: &SpeakerId, changes: &Vec<PropertyChange>, stamp: WriteStamp)
        requires
            old(self).wf(),
        ensures
            final(self).wf(),
            final(self)@ == (ManagerView {
                fanout: deliver_all(
                    old(self)@.fanout,
                    member_events(old(self)@.watched, member_id@, changes_view(changes@), stamp),
                ),
                ..old(self)@
            }),
    {
        let ghost vs = changes_view(changes@);
        let ghost f0 = self@.fanout;
        let mut j: usize = 0;
        proof {
            lemma_deliver_empty(f0);
            assert(vs.take(0) =~= Seq::<PropertyValueView>::empty());
        }
        while j < changes.len()
            invariant
                self.wf(),
                j <= changes.len(),
                vs == changes_view(changes@),
                self@ == (ManagerView { fanout: self@.fanout, ..old(self)@ }),
                f0 == old(self)@.fanout,
                self@.fanout == deliver_all(f0, member_events(old(self)@.watched, member_id@, vs.take(j as int), stamp)),
            decreases changes.len() - j,
        {
            let change = &changes[j];
            let ghost before = self@.fanout;
            let ghost prefix = member_events(old(self)@.watched, member_id@, vs.take(j as int), stamp);
            proof {
                assert(vs.take(j + 1).drop_last() =~= vs.take(j as int));
                assert(vs.take(j + 1).last() == change@);
            }
            if change.scope() == Scope::Speaker && self.watched.is_pair_watched(member_id, change.key()) {
                let event = ChangeEvent::new(member_id.view_clone(), change.view_clone(), stamp);
                self.fanout.send(&event);
                proof {
                    lemma_deliver_concat(f0, prefix, seq![event@]);
                }
            } else {
                proof {
                    assert(prefix + Seq::<ChangeEventView>::empty() =~= prefix);
                }
            }
            j = j + 1;
        }
        proof {
            assert(vs.take(changes@.len() as int) =~= vs);
        }
    }

    /// Tells each member of the coordinator's speaker-scoped changes it
    /// watches, member by member.
    pub fn notify_group_members(&mut self, members: &Vec<SpeakerId>, changes: &Vec<PropertyChange>, stamp: WriteStamp)
        requires
            old(self).wf(),
        ensures
            final(self).wf(),
            final(self)@ == (ManagerView {
                fanout: deliver_all(
                    old(self)@.fanout,
                    members_events(old(self)@.watched, seq_view(members@), changes_view(changes@), stamp),
                ),
                ..old(self)@
            }),
    {
        let ghost ms = seq_view(members@);
        let ghost vs = changes_view(changes@);
        let ghost f0 = self@.fanout;
        let mut i: usize = 0;
        proof {
            lemma_deliver_empty(f0);
            assert(ms.take(0) =~= Seq::<Seq<char>>::empty());
        }
        while i < members.len()
            invariant
                self.wf(),
                i <= members.len(),
                ms == seq_view(members@),
                vs == changes_view(changes@),
                self@ == (ManagerView { fanout: self@.fanout, ..old(self)@ }),
                f0 == old(self)@.fanout,
                self@.fanout == deliver_all(f0, members_events(old(self)@.watched, ms.take(i as int), vs, stamp)),
            decreases members.len() - i,
        {
            let ghost prefix = members_events(old(self)@.watched, ms.take(i as int), vs, stamp);
            proof {
                assert(ms.take(i + 1).drop_last() =~= ms.take(i as int));
                assert(ms.take(i + 1).last() == members@[i as int]@);
            }
            self.notify_member(&members[i], changes, stamp);
            proof {
                lemma_deliver_concat(f0, prefix, member_events(old(self)@.watched, members@[i as int]@, vs, stamp));
            }
            i = i + 1;
        }
        proof {
            assert(ms.take(members@.len() as int) =~= ms);
        }
    }

    /// Applies a topology snapshot (see [`apply_topology_spec`]).
    pub fn apply_topology_changes(&mut self, changes: TopologyChanges, stamp: WriteStamp)
        requires
            old(self).wf(),
        ensures
            final(self).wf(),
            final(self)@ == apply_topology_spec(old(self)@, changes@, stamp),
    {
        if changes.groups.len() == 0 {
            return;
        }
        let ghost tc = changes@;
        let ghost m0 = self@;
        let TopologyChanges { groups, memberships, boot_seqs, speaker_ips, satellite_ids } = changes;
        self.store.clear_groups();
        let ghost sc = self@.store;
        let mut k: usize = 0;
        proof {
            assert(tc.groups.take(0) =~= Seq::<GroupInfoView>::empty());
        }
        while k < groups.len()
            invariant
                self.wf(),
                k <= groups.len(),
                tc.groups == seq_view(groups@),
                self@ == (ManagerView { store: self@.store, ..m0 }),
                self@.store == add_groups_spec(sc, tc.groups.take(k as int)),
            decreases groups.len() - k,
        {
            let g = groups[k].view_clone();
            self.store.add_group(g);
            proof {
                assert(tc.groups.take(k + 1).drop_last() =~= tc.groups.take(k as int));
                assert(tc.groups.take(k + 1).last() == groups@[k as int]@);
            }
            k = k + 1;
        }
        proof {
            assert(tc.groups.take(groups@.len() as int) =~= tc.groups);
        }
        let ghost s1 = self@.store;
        let mut events: Vec<ChangeEvent> = Vec::new();
        let mut i: usize = 0;
        proof {
            assert(tc.memberships.take(0) =~= Seq::<(Seq<char>, GroupMembershipView)>::empty());
            assert(events@.map_values(|e: ChangeEvent| e@) =~= Seq::<ChangeEventView>::empty());
        }
        while i < memberships.len()
            invariant
                self.wf(),
                i <= memberships.len(),
                tc.memberships == membership_list_view(memberships@),
                self@ == (ManagerView { store: self@.store, ..m0 }),
                (self@.store, events@.map_values(|e: ChangeEvent| e@)) == apply_memberships_spec(
                    s1,
                    m0.watched,
                    tc.memberships.take(i as int),
                    stamp,
                ),
            decreases memberships.len() - i,
        {
            let sid = &memberships[i].0;
            let gm = &memberships[i].1;
            let ghost ev_before = events@.map_values(|e: ChangeEvent| e@);
            proof {
                assert(tc.memberships.take(i + 1).drop_last() =~= tc.memberships.take(i as int));
                assert(tc.memberships.take(i + 1).last() == (sid@, gm@));
            }
            let outcome = self.store.set_value(sid, PropertyValue::GroupMembership(gm.view_clone()), stamp);
            let key = PropertyKind::GroupMembership.key();
            if outcome.changed() && self.watched.is_pair_watched(sid, key) {
                let event = ChangeEvent::new(
                    sid.view_clone(),
                    PropertyChange::GroupMembership(gm.view_clone()),
                    stamp,
                );
                events.push(event);
                proof {
                    assert(events@.map_values(|e: ChangeEvent| e@) =~= ev_before + seq![event@]);
                }
            } else {
                proof {
                    assert(events@.map_values(|e: ChangeEvent| e@) =~= ev_before + Seq::<ChangeEventView>::empty());
                }
            }
            i = i + 1;
        }
        proof {
            assert(tc.memberships.take(memberships@.len() as int) =~= tc.memberships);
        }
        let ghost s2 = self@.store;
        let mut b: usize = 0;
        proof {
            assert(tc.boot_seqs.take(0) =~= Seq::<(Seq<char>, u32)>::empty());
        }
        while b < boot_seqs.len()
            invariant
                self.wf(),
                b <= boot_seqs.len(),
                tc.boot_seqs == boot_seqs@.map_values(|p: (SpeakerId, u32)| (p.0@, p.1)),
                self@ == (ManagerView { store: self@.store, ..m0 }),
                self@.store == apply_boot_seqs_spec(s2, tc.boot_seqs.take(b as int)),
            decreases boot_seqs.len() - b,
        {
            proof {
                assert(tc.boot_seqs.take(b + 1).drop_last() =~= tc.boot_seqs.take(b as int));
                assert(tc.boot_seqs.take(b + 1).last() == (boot_seqs@[b as int].0@, boot_seqs@[b as int].1));
            }
            self.store.set_boot_seq(&boot_seqs[b].0, boot_seqs[b].1);
            b = b + 1;
        }
        proof {
            assert(tc.boot_seqs.take(boot_seqs@.len() as int) =~= tc.boot_seqs);
        }
        let ghost m3 = self@;
        let mut p: usize = 0;
        proof {
            assert(tc.speaker_ips.take(0) =~= Seq::<(Seq<char>, IpAddr)>::empty());
        }
        while p < speaker_ips.len()
            invariant
                self.wf(),
                p <= speaker_ips.len(),
                tc.speaker_ips == speaker_ips@.map_values(|q: (SpeakerId, IpAddr)| (q.0@, q.1)),
                self@ == apply_ips_spec(m3, tc.speaker_ips.take(p as int)),
            decreases speaker_ips.len() - p,
        {
            proof {
                assert(tc.speaker_ips.take(p + 1).drop_last() =~= tc.speaker_ips.take(p as int));
                assert(tc.speaker_ips.take(p + 1).last() == (speaker_ips@[p as int].0@, speaker_ips@[p as int].1));
            }
            self.update_speaker_ip(&speaker_ips[p].0, speaker_ips[p].1);
            p = p + 1;
        }
        proof {
            assert(tc.speaker_ips.take(speaker_ips@.len() as int) =~= tc.speaker_ips);
        }
        self.store.set_satellite_ids(satellite_ids);
        let ghost m5 = self@;
        proof {
            lemma_apply_ips_keeps(m3, tc.speaker_ips);
        }
        let ghost f0 = self@.fanout;
        let ghost evs = events@.map_values(|e: ChangeEvent| e@);
        let mut q: usize = 0;
        proof {
            lemma_deliver_empty(f0);
            assert(evs.take(0) =~= Seq::<ChangeEventView>::empty());
        }
        while q < events.len()
            invariant
                self.wf(),
                q <= events.len(),
                evs == events@.map_values(|e: ChangeEvent| e@),
                self@ == (ManagerView { fanout: self@.fanout, ..m5 }),
                f0 == m5.fanout,
                self@.fanout == deliver_all(f0, evs.take(q as int)),
            decreases events.len() - q,
        {
            let ghost before = self@;
            self.fanout.send(&events[q]);
            proof {
                lemma_deliver_concat(f0, evs.take(q as int), seq![events@[q as int]@]);
                assert(evs.take(q + 1) =~= evs.take(q as int) + seq![events@[q as int]@]);
            }
            q = q + 1;
        }
        proof {
            assert(evs.take(events@.len() as int) =~= evs);
        }
    }


    /// Applies one event (see [`handle_event_spec`]).
    pub fn handle_event(&mut self, event: &EnrichedEvent)
        requires
            old(self).wf(),
            event_times_fit(event.event_data),
        ensures
            final(self).wf(),
            final(self)@ == handle_event_spec(old(self)@, *event),
    {
        let stamp = WriteStamp::observed_at(ChangeSource::Event, event.observed_at);
        match &event.event_data {
            EventData::ZoneGroupTopologyEvent(z) => {
                let changes = decode_topology_event(z);
                self.apply_topology_changes(changes, stamp);
                return;
            },
            _ => {},
        }
        let speaker_id = match self.ip_to_speaker.get(&event.speaker_ip) {
            Some(id) => id,
            None => {
                return;
            },
        };
        let per_coordinator = event.service.scope() == ServiceScope::PerCoordinator;
        if per_coordinator {
            let is_coordinator = match self.store.get_group_for_speaker(&speaker_id) {
                Some(g) => g.coordinator_id.view_eq(&speaker_id),
                None => true,
            };
            if !is_coordinator {
                return;
            }
        }
        let decoded = decode_event(event, speaker_id.view_clone());
        let ghost vs = changes_view(decoded.changes@);
        let ghost m0 = self@;
        let mut i: usize = 0;
        proof {
            assert(vs.take(0) =~= Seq::<PropertyValueView>::empty());
        }
        while i < decoded.changes.len()
            invariant
                self.wf(),
                i <= decoded.changes.len(),
                vs == changes_view(decoded.changes@),
                self@ == apply_changes_spec(m0, speaker_id@, vs.take(i as int), stamp),
            decreases decoded.changes.len() - i,
        {
            proof {
                assert(vs.take(i + 1).drop_last() =~= vs.take(i as int));
                assert(vs.take(i + 1).last() == decoded.changes@[i as int]@);
            }
            self.apply_property_change(&speaker_id, &decoded.changes[i], stamp);
            i = i + 1;
        }
        proof {
            assert(vs.take(decoded.changes@.len() as int) =~= vs);
        }
        if per_coordinator {
            let members = self.resolve_group_members(&speaker_id);
            self.notify_group_members(&members, &decoded.changes, stamp);
        }
    }

}

} // verus!
