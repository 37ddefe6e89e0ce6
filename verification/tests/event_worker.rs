use sonos_state::decoder::{
    EnrichedEvent, EventData, PropertyChange, RenderingControlEvent, TopologyChanges,
};
use sonos_state::ids::{GroupId, SpeakerId};
use sonos_state::manager::{ChangeIterator, Device, StateManager};
use sonos_state::net::{parse_ip_addr, IpAddr};
use sonos_state::property::{
    GroupInfo, GroupMembership, PlaybackState, Service, Topology, Volume,
};
use sonos_state::speaker::Speaker;
use sonos_state::stamp::{ChangeSource, WriteOutcome, WriteStamp};

fn ip(s: &str) -> IpAddr {
    parse_ip_addr(s).unwrap()
}

fn test_stamp() -> WriteStamp {
    WriteStamp::now(ChangeSource::Event)
}

fn make_speaker_info(id: &str, name: &str, addr: &str) -> Speaker {
    Speaker {
        id: SpeakerId::new(id),
        name: name.to_string(),
        room_name: name.to_string(),
        ip_address: ip(addr),
        port: 1400,
        model_name: "Test".to_string(),
        software_version: "1.0".to_string(),
        boot_seq: 0,
        satellites: vec![],
    }
}

/// A manager whose store holds `speakers` and `groups`, with an open
/// iterator to observe what it emits afterwards.
fn fixture(speakers: Vec<Speaker>, groups: Vec<GroupInfo>) -> (StateManager, ChangeIterator) {
    let mut manager = StateManager::new().unwrap();
    manager.initialize(Topology::new(speakers, groups));
    let iter = manager.iter();
    (manager, iter)
}

fn two_speakers() -> Vec<Speaker> {
    vec![
        make_speaker_info("RINCON_111", "Living Room", "192.168.1.101"),
        make_speaker_info("RINCON_222", "Kitchen", "192.168.1.102"),
    ]
}

fn one_group_changes(group_id: &GroupId, coordinator: &SpeakerId, members: &[(&SpeakerId, bool)]) -> TopologyChanges {
    TopologyChanges {
        groups: vec![GroupInfo::new(
            group_id.clone(),
            coordinator.clone(),
            members.iter().map(|(m, _)| (*m).clone()).collect(),
        )],
        memberships: members
            .iter()
            .map(|(m, c)| ((*m).clone(), GroupMembership::new(group_id.clone(), *c)))
            .collect(),
        boot_seqs: vec![],
        speaker_ips: vec![],
        satellite_ids: vec![],
    }
}

#[test]
fn test_apply_property_change_volume() {
    let (mut manager, iter) = fixture(vec![make_speaker_info("test-speaker", "Test", "192.168.1.100")], vec![]);
    let speaker_id = SpeakerId::new("test-speaker");

    manager.apply_property_change(&speaker_id, &PropertyChange::Volume(Volume(50)), test_stamp());

    assert!(iter.try_recv(&mut manager).is_none());

    let stored: Option<Volume> = manager.store().get(&speaker_id);
    assert_eq!(stored, Some(Volume(50)));
}

#[test]
fn test_apply_property_change_with_watch() {
    let (mut manager, iter) = fixture(vec![make_speaker_info("test-speaker", "Test", "192.168.1.100")], vec![]);
    let speaker_id = SpeakerId::new("test-speaker");

    manager.register_watch(&speaker_id, Volume::KEY);

    manager.apply_property_change(&speaker_id, &PropertyChange::Volume(Volume(75)), test_stamp());

    let event = iter.try_recv(&mut manager).unwrap();
    assert_eq!(event.speaker_id, speaker_id);
    assert_eq!(event.property_key(), Volume::KEY);
    assert_eq!(event.service(), Service::RenderingControl);
}

#[test]
fn test_apply_topology_changes_updates_groups() {
    let (mut manager, _iter) = fixture(two_speakers(), vec![]);
    let group_id = GroupId::new("RINCON_111:1");
    let speaker1 = SpeakerId::new("RINCON_111");
    let speaker2 = SpeakerId::new("RINCON_222");

    let changes = one_group_changes(&group_id, &speaker1, &[(&speaker1, true), (&speaker2, false)]);
    manager.apply_topology_changes(changes, test_stamp());

    assert_eq!(manager.group_count(), 1);
    let group = manager.get_group(&group_id).unwrap();
    assert_eq!(group.coordinator_id, speaker1);
    assert_eq!(group.member_ids.len(), 2);
    assert!(group.member_ids.contains(&speaker1));
    assert!(group.member_ids.contains(&speaker2));
}

#[test]
fn test_apply_topology_changes_updates_group_membership() {
    let (mut manager, _iter) = fixture(two_speakers(), vec![]);
    let group_id = GroupId::new("RINCON_111:1");
    let speaker1 = SpeakerId::new("RINCON_111");
    let speaker2 = SpeakerId::new("RINCON_222");

    let changes = one_group_changes(&group_id, &speaker1, &[(&speaker1, true), (&speaker2, false)]);
    manager.apply_topology_changes(changes, test_stamp());

    let m1: GroupMembership = manager.store().get(&speaker1).unwrap();
    assert_eq!(m1.group_id, group_id);
    assert!(m1.is_coordinator);

    let m2: GroupMembership = manager.store().get(&speaker2).unwrap();
    assert_eq!(m2.group_id, group_id);
    assert!(!m2.is_coordinator);
}

#[test]
fn test_apply_topology_changes_emits_events_for_watched_properties() {
    let (mut manager, iter) = fixture(two_speakers(), vec![]);
    let speaker1 = SpeakerId::new("RINCON_111");
    let speaker2 = SpeakerId::new("RINCON_222");

    manager.register_watch(&speaker1, GroupMembership::KEY);

    let group_id = GroupId::new("RINCON_111:1");
    let changes = one_group_changes(&group_id, &speaker1, &[(&speaker1, true), (&speaker2, false)]);
    manager.apply_topology_changes(changes, test_stamp());

    let event = iter.try_recv(&mut manager).unwrap();
    assert_eq!(event.speaker_id, speaker1);
    assert_eq!(event.property_key(), GroupMembership::KEY);
    assert_eq!(event.service(), Service::ZoneGroupTopology);

    assert!(iter.try_recv(&mut manager).is_none());
}

#[test]
fn test_apply_topology_changes_clears_old_groups() {
    let speaker1 = SpeakerId::new("RINCON_111");
    let speaker2 = SpeakerId::new("RINCON_222");
    let old = GroupInfo::new(GroupId::new("OLD_GROUP:1"), speaker1.clone(), vec![speaker1.clone()]);
    let (mut manager, _iter) = fixture(two_speakers(), vec![old]);

    assert_eq!(manager.group_count(), 1);
    assert!(manager.get_group(&GroupId::new("OLD_GROUP:1")).is_some());

    let new_group_id = GroupId::new("NEW_GROUP:1");
    let changes = TopologyChanges {
        groups: vec![GroupInfo::new(new_group_id.clone(), speaker2.clone(), vec![speaker1.clone(), speaker2.clone()])],
        memberships: vec![
            (speaker1.clone(), GroupMembership::new(new_group_id.clone(), false)),
            (speaker2.clone(), GroupMembership::new(new_group_id.clone(), true)),
        ],
        boot_seqs: vec![],
        speaker_ips: vec![],
        satellite_ids: vec![],
    };
    manager.apply_topology_changes(changes, test_stamp());

    assert_eq!(manager.group_count(), 1);
    assert!(manager.get_group(&GroupId::new("OLD_GROUP:1")).is_none());
    assert!(manager.get_group(&new_group_id).is_some());
}

#[test]
fn test_apply_topology_changes_updates_speaker_to_group_mapping() {
    let (mut manager, _iter) = fixture(two_speakers(), vec![]);
    let speaker1 = SpeakerId::new("RINCON_111");
    let speaker2 = SpeakerId::new("RINCON_222");
    let group_id = GroupId::new("RINCON_111:1");

    let changes = one_group_changes(&group_id, &speaker1, &[(&speaker1, true), (&speaker2, false)]);
    manager.apply_topology_changes(changes, test_stamp());

    assert_eq!(manager.get_group_for_speaker(&speaker1).map(|g| g.id), Some(group_id.clone()));
    assert_eq!(manager.get_group_for_speaker(&speaker2).map(|g| g.id), Some(group_id));
}

#[test]
fn test_partial_topology_event_does_not_clear_groups() {
    let speaker1 = SpeakerId::new("RINCON_111");
    let group_id = GroupId::new("RINCON_111:1");
    let (mut manager, iter) = fixture(
        vec![make_speaker_info("RINCON_111", "Living Room", "192.168.1.101")],
        vec![GroupInfo::new(group_id.clone(), speaker1.clone(), vec![speaker1.clone()])],
    );
    manager.set_group_property_stamped(&group_id, Volume(42), test_stamp());

    manager.register_watch(&speaker1, GroupMembership::KEY);

    let partial = TopologyChanges {
        groups: vec![],
        memberships: vec![],
        boot_seqs: vec![],
        speaker_ips: vec![],
        satellite_ids: vec![],
    };
    manager.apply_topology_changes(partial, test_stamp());

    assert_eq!(manager.group_count(), 1);
    assert!(manager.get_group(&group_id).is_some());
    assert_eq!(manager.get_group_for_speaker(&speaker1).map(|g| g.id), Some(group_id.clone()));
    assert_eq!(manager.get_group_property::<Volume>(&group_id), Some(Volume(42)));

    assert!(iter.try_recv(&mut manager).is_none());
}

fn volume_event(addr: IpAddr, volume: u8, observed_at: u64) -> EnrichedEvent {
    EnrichedEvent {
        speaker_ip: addr,
        service: Service::RenderingControl,
        event_data: EventData::RenderingControlEvent(RenderingControlEvent {
            master_volume: Some(volume.to_string()),
            master_mute: None,
            bass: None,
            treble: None,
            loudness: None,
            lf_volume: None,
            rf_volume: None,
            lf_mute: None,
            rf_mute: None,
            balance: None,
            other_channels: vec![],
        }),
        observed_at,
    }
}

fn one_speaker_worker_fixture() -> (StateManager, ChangeIterator, SpeakerId, IpAddr) {
    let mut manager = StateManager::new().unwrap();
    manager
        .add_devices(vec![Device {
            id: "RINCON_111".to_string(),
            name: "Living Room".to_string(),
            room_name: "Living Room".to_string(),
            ip_address: "192.0.2.11".to_string(),
            port: 1400,
            model_name: "Test".to_string(),
        }])
        .unwrap();
    let iter = manager.iter();
    (manager, iter, SpeakerId::new("RINCON_111"), ip("192.0.2.11"))
}

/// Lets the clock advance far enough (20 ms) that readings taken either side
/// of this call are unambiguously ordered. The tests below use real clock
/// readings in real program order, never synthetic future stamps.
fn tick() {
    let start = WriteStamp::now(ChangeSource::Event).observed_at;
    while WriteStamp::now(ChangeSource::Event).observed_at < start + 20_000_000 {}
}

#[test]
fn test_late_notify_does_not_clobber_fresher_local_action() {
    let (mut manager, _iter, speaker_id, speaker_ip) = one_speaker_worker_fixture();

    // 1. The NOTIFY is observed at the callback server.
    let event = volume_event(speaker_ip, 10, WriteStamp::now(ChangeSource::Event).observed_at);
    tick();

    // 2. The user's local action lands, strictly later.
    manager.set_property_stamped(&speaker_id, Volume(40), WriteStamp::now(ChangeSource::LocalAction));
    tick();

    // 3. Only now does the already-stale NOTIFY reach the worker.
    manager.handle_event(&event);

    assert_eq!(
        manager.get_property::<Volume>(&speaker_id),
        Some(Volume(40)),
        "a NOTIFY observed before a local write must not overwrite it"
    );
}

#[test]
fn test_current_fetch_not_rejected_by_older_notify() {
    let (mut manager, _iter, speaker_id, speaker_ip) = one_speaker_worker_fixture();

    // 1. The NOTIFY is observed at the callback server.
    let event = volume_event(speaker_ip, 10, WriteStamp::now(ChangeSource::Event).observed_at);
    tick();

    // 2. The fetch request goes out, observing the device strictly later.
    let fetch_observed = WriteStamp::now(ChangeSource::Fetch).observed_at;
    tick();

    // 3. The NOTIFY reaches the worker first and is applied.
    manager.handle_event(&event);
    assert_eq!(
        manager.get_property::<Volume>(&speaker_id),
        Some(Volume(10)),
        "precondition: the event should have been applied"
    );

    // 4. Then the slower fetch response finally lands.
    let outcome = manager.set_property_stamped(
        &speaker_id,
        Volume(40),
        WriteStamp::observed_at(ChangeSource::Fetch, fetch_observed),
    );

    assert_eq!(
        outcome,
        WriteOutcome::Changed,
        "a fetch that observed the device after the event must be accepted"
    );
    assert_eq!(manager.get_property::<Volume>(&speaker_id), Some(Volume(40)));
}

#[test]
fn test_genuinely_newer_event_still_wins() {
    let (mut manager, iter, speaker_id, speaker_ip) = one_speaker_worker_fixture();
    manager.register_watch(&speaker_id, Volume::KEY);

    manager.set_property_stamped(&speaker_id, Volume(40), WriteStamp::now(ChangeSource::LocalAction));
    iter.try_iter(&mut manager);
    tick();

    let event_observed = WriteStamp::now(ChangeSource::Event).observed_at;
    manager.handle_event(&volume_event(speaker_ip, 10, event_observed));

    assert_eq!(
        manager.get_property::<Volume>(&speaker_id),
        Some(Volume(10)),
        "an event observed after the stored write must still be applied"
    );

    let notified = iter.try_recv(&mut manager).expect("newer event must still notify");
    assert_eq!(notified.property_key(), Volume::KEY);
    assert_eq!(
        notified.timestamp, event_observed,
        "the emitted event must carry the observation instant, not the apply instant"
    );
}

#[test]
fn test_apply_topology_changes_no_event_when_membership_unchanged() {
    let speaker1 = SpeakerId::new("RINCON_111");
    let group_id = GroupId::new("RINCON_111:1");
    let (mut manager, iter) = fixture(vec![make_speaker_info("RINCON_111", "Living Room", "192.168.1.101")], vec![]);
    manager.set_property_stamped(&speaker1, GroupMembership::new(group_id.clone(), true), test_stamp());

    manager.register_watch(&speaker1, GroupMembership::KEY);
    iter.try_iter(&mut manager);

    let changes = one_group_changes(&group_id, &speaker1, &[(&speaker1, true)]);
    manager.apply_topology_changes(changes, test_stamp());

    assert!(iter.try_recv(&mut manager).is_none());
}

fn coordinator_and_member() -> (StateManager, ChangeIterator, SpeakerId, SpeakerId) {
    let coordinator = SpeakerId::new("RINCON_COORD");
    let member = SpeakerId::new("RINCON_MEMBER");
    let (manager, iter) = fixture(
        vec![
            make_speaker_info("RINCON_COORD", "Bedroom", "192.168.1.101"),
            make_speaker_info("RINCON_MEMBER", "Kitchen", "192.168.1.102"),
        ],
        vec![GroupInfo::new(
            GroupId::new("RINCON_COORD:1"),
            coordinator.clone(),
            vec![coordinator.clone(), member.clone()],
        )],
    );
    (manager, iter, coordinator, member)
}

#[test]
fn test_per_coordinator_notifies_members_without_data_copy() {
    let (mut manager, iter, coordinator, member) = coordinator_and_member();

    manager.register_watch(&coordinator, PlaybackState::KEY);
    manager.register_watch(&member, PlaybackState::KEY);

    let changes = vec![PropertyChange::PlaybackState(PlaybackState::Playing)];
    for change in &changes {
        manager.apply_property_change(&coordinator, change, test_stamp());
    }

    let members = manager.resolve_group_members(&coordinator);
    manager.notify_group_members(&members, &changes, test_stamp());

    let event1 = iter.try_recv(&mut manager).unwrap();
    assert_eq!(event1.speaker_id, coordinator);
    assert_eq!(event1.property_key(), PlaybackState::KEY);

    let event2 = iter.try_recv(&mut manager).unwrap();
    assert_eq!(event2.speaker_id, member);
    assert_eq!(event2.property_key(), PlaybackState::KEY);
    assert!(
        matches!(event2.change, PropertyChange::PlaybackState(PlaybackState::Playing)),
        "member notification must carry the coordinator's value, got {:?}",
        event2.change
    );

    assert!(iter.try_recv(&mut manager).is_none());

    let coord_state: Option<PlaybackState> = manager.store().get(&coordinator);
    assert_eq!(coord_state, Some(PlaybackState::Playing));

    let member_state: Option<PlaybackState> = manager.store().get(&member);
    assert_eq!(member_state, None);

    let resolved_state: Option<PlaybackState> = manager.store().get_resolved(&member);
    assert_eq!(resolved_state, Some(PlaybackState::Playing));
}

#[test]
fn test_per_coordinator_no_notification_for_standalone() {
    let speaker = SpeakerId::new("RINCON_STANDALONE");
    let (mut manager, iter) = fixture(
        vec![make_speaker_info("RINCON_STANDALONE", "Bedroom", "192.168.1.101")],
        vec![GroupInfo::new(GroupId::new("RINCON_STANDALONE:1"), speaker.clone(), vec![speaker.clone()])],
    );

    manager.register_watch(&speaker, PlaybackState::KEY);

    let changes = vec![PropertyChange::PlaybackState(PlaybackState::Playing)];
    for change in &changes {
        manager.apply_property_change(&speaker, change, test_stamp());
    }

    let members = manager.resolve_group_members(&speaker);
    assert!(members.is_empty());

    let event = iter.try_recv(&mut manager).unwrap();
    assert_eq!(event.speaker_id, speaker);
    assert!(iter.try_recv(&mut manager).is_none());
}

#[test]
fn test_per_speaker_service_not_notified() {
    let (mut manager, iter, coordinator, member) = coordinator_and_member();

    manager.register_watch(&coordinator, Volume::KEY);
    manager.register_watch(&member, Volume::KEY);

    manager.apply_property_change(&coordinator, &PropertyChange::Volume(Volume(80)), test_stamp());

    let event = iter.try_recv(&mut manager).unwrap();
    assert_eq!(event.speaker_id, coordinator);
    assert_eq!(event.property_key(), Volume::KEY);

    assert!(iter.try_recv(&mut manager).is_none());

    let coord_vol: Option<Volume> = manager.store().get(&coordinator);
    let member_vol: Option<Volume> = manager.store().get(&member);
    assert_eq!(coord_vol, Some(Volume(80)));
    assert_eq!(member_vol, None);
}

#[test]
fn test_resolve_group_members_empty_for_non_coordinator() {
    let (manager, _iter, _coordinator, member) = coordinator_and_member();
    let members = manager.resolve_group_members(&member);
    assert!(members.is_empty());
}

#[test]
fn test_notify_group_members_only_notifies_watched() {
    let mut manager = StateManager::new().unwrap();
    let iter = manager.iter();

    let member_watched = SpeakerId::new("RINCON_WATCHED");
    let member_unwatched = SpeakerId::new("RINCON_UNWATCHED");

    manager.register_watch(&member_watched, PlaybackState::KEY);

    let changes = vec![PropertyChange::PlaybackState(PlaybackState::Playing)];
    let members = vec![member_watched.clone(), member_unwatched.clone()];

    manager.notify_group_members(&members, &changes, test_stamp());

    let event = iter.try_recv(&mut manager).unwrap();
    assert_eq!(event.speaker_id, member_watched);
    assert_eq!(event.property_key(), PlaybackState::KEY);

    assert!(iter.try_recv(&mut manager).is_none());
}

#[test]
fn handle_event_from_unknown_address_changes_nothing() {
    let (mut manager, iter, speaker_id, _addr) = one_speaker_worker_fixture();
    manager.register_watch(&speaker_id, Volume::KEY);
    manager.handle_event(&volume_event(ip("198.51.100.7"), 10, 5));
    assert!(manager.get_property::<Volume>(&speaker_id).is_none());
    assert!(iter.try_recv(&mut manager).is_none());
}

#[test]
fn group_property_write_notifies_coordinator_watch() {
    let coordinator = SpeakerId::new("RINCON_111");
    let group_id = GroupId::new("RINCON_111:1");
    let (mut manager, iter) = fixture(
        vec![make_speaker_info("RINCON_111", "Living Room", "192.168.1.101")],
        vec![GroupInfo::new(group_id.clone(), coordinator.clone(), vec![coordinator.clone()])],
    );
    manager.register_watch(&coordinator, Volume::KEY);

    manager.set_group_property(&group_id, Volume::new(80));

    let event = iter.try_recv(&mut manager).expect("the coordinator's watch hears the group write");
    assert_eq!(event.speaker_id.as_str(), "RINCON_111");
    assert_eq!(event.property_key(), "volume");
    assert_eq!(manager.get_group_property::<Volume>(&group_id), Some(Volume(80)));
    assert!(iter.try_recv(&mut manager).is_none());
}

#[test]
fn group_property_write_unwatched_is_silent() {
    let coordinator = SpeakerId::new("RINCON_111");
    let group_id = GroupId::new("RINCON_111:1");
    let (mut manager, iter) = fixture(
        vec![make_speaker_info("RINCON_111", "Living Room", "192.168.1.101")],
        vec![GroupInfo::new(group_id.clone(), coordinator.clone(), vec![coordinator.clone()])],
    );

    manager.set_group_property(&group_id, Volume::new(50));

    assert!(iter.try_recv(&mut manager).is_none());
    assert_eq!(manager.get_group_property::<Volume>(&group_id), Some(Volume(50)));
}
