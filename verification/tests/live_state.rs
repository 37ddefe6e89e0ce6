use sonos_state::decoder::PropertyChange;
use sonos_state::fanout::ChangeEvent;
use sonos_state::ids::{GroupId, SpeakerId};
use sonos_state::manager::{ChangeIterator, Device, StateManager};
use sonos_state::net::{parse_ip_addr, IpAddr};
use sonos_state::property::{GroupInfo, PlaybackState, Service, Topology, Volume};
use sonos_state::speaker::Speaker;
use sonos_state::stamp::{ChangeSource, WriteOutcome, WriteStamp};
use sonos_state::store::StateStore;

fn ip(s: &str) -> IpAddr {
    parse_ip_addr(s).unwrap()
}

fn test_stamp() -> WriteStamp {
    WriteStamp::now(ChangeSource::Event)
}

fn device(id: &str, name: &str, addr: &str, model: &str) -> Device {
    Device {
        id: id.to_string(),
        name: name.to_string(),
        room_name: name.to_string(),
        ip_address: addr.to_string(),
        port: 1400,
        model_name: model.to_string(),
    }
}

fn speaker_info(id: &SpeakerId, name: &str, addr: &str) -> Speaker {
    Speaker {
        id: id.clone(),
        name: name.to_string(),
        room_name: name.to_string(),
        ip_address: ip(addr),
        port: 1400,
        model_name: "Test".to_string(),
        software_version: "1.0".to_string(),
        boot_seq: 0,
        satellites: vec![],
    }
}

fn drain(iter: &ChangeIterator, manager: &mut StateManager) -> Vec<ChangeEvent> {
    iter.try_iter(manager)
}

#[test]
fn test_state_manager_creation() {
    let manager = StateManager::new().unwrap();
    assert!(!manager.is_initialized());
    assert_eq!(manager.speaker_count(), 0);
}

#[test]
fn test_add_devices() {
    let mut manager = StateManager::new().unwrap();
    manager.add_devices(vec![device("RINCON_123", "Living Room", "192.168.1.100", "Sonos One")]).unwrap();
    assert_eq!(manager.speaker_count(), 1);
}

#[test]
fn test_property_storage() {
    let mut manager = StateManager::new().unwrap();
    manager.add_devices(vec![device("RINCON_123", "Living Room", "192.168.1.100", "Sonos One")]).unwrap();
    let speaker_id = SpeakerId::new("RINCON_123");

    assert!(manager.get_property::<Volume>(&speaker_id).is_none());

    manager.set_property(&speaker_id, Volume::new(50));
    assert_eq!(manager.get_property::<Volume>(&speaker_id), Some(Volume::new(50)));
}

#[test]
fn test_watch_registration() {
    let mut manager = StateManager::new().unwrap();
    manager.add_devices(vec![device("RINCON_123", "Living Room", "192.168.1.100", "Sonos One")]).unwrap();
    let speaker_id = SpeakerId::new("RINCON_123");

    assert!(!manager.is_watched(&speaker_id, "volume"));

    manager.register_watch(&speaker_id, "volume");
    assert!(manager.is_watched(&speaker_id, "volume"));

    manager.unregister_watch(&speaker_id, "volume");
    assert!(!manager.is_watched(&speaker_id, "volume"));
}

#[test]
fn test_change_event_emission() {
    let mut manager = StateManager::new().unwrap();
    manager.add_devices(vec![device("RINCON_123", "Living Room", "192.168.1.100", "Sonos One")]).unwrap();
    let speaker_id = SpeakerId::new("RINCON_123");

    manager.register_watch(&speaker_id, "volume");
    let iter = manager.iter();

    manager.set_property(&speaker_id, Volume::new(75));
    let event = iter.try_recv(&mut manager);
    assert!(event.is_some());

    let event = event.unwrap();
    assert_eq!(event.speaker_id.as_str(), "RINCON_123");
    assert_eq!(event.property_key(), "volume");
}

#[test]
fn test_add_group_updates_speaker_to_group() {
    let mut store = StateStore::new();
    let speaker1 = SpeakerId::new("RINCON_111");
    let speaker2 = SpeakerId::new("RINCON_222");
    let group_id = GroupId::new("RINCON_111:1");

    store.add_group(GroupInfo::new(group_id.clone(), speaker1.clone(), vec![speaker1.clone(), speaker2.clone()]));

    assert_eq!(store.get_group_for_speaker(&speaker1).map(|g| g.id), Some(group_id.clone()));
    assert_eq!(store.get_group_for_speaker(&speaker2).map(|g| g.id), Some(group_id));
}

#[test]
fn test_add_group_single_speaker() {
    let mut store = StateStore::new();
    let speaker = SpeakerId::new("RINCON_333");
    let group_id = GroupId::new("RINCON_333:1");
    let group = GroupInfo::new(group_id.clone(), speaker.clone(), vec![speaker.clone()]);

    store.add_group(group.clone());

    assert_eq!(store.get_group_for_speaker(&speaker).map(|g| g.id), Some(group_id.clone()));
    assert_eq!(store.group(&group_id), Some(group));
}

#[test]
fn test_get_group_for_speaker_returns_correct_group() {
    let mut store = StateStore::new();
    let speaker1 = SpeakerId::new("RINCON_111");
    let speaker2 = SpeakerId::new("RINCON_222");
    let speaker3 = SpeakerId::new("RINCON_333");
    let group1 = GroupInfo::new(GroupId::new("RINCON_111:1"), speaker1.clone(), vec![speaker1.clone(), speaker2.clone()]);
    let group2 = GroupInfo::new(GroupId::new("RINCON_333:1"), speaker3.clone(), vec![speaker3.clone()]);

    store.add_group(group1.clone());
    store.add_group(group2.clone());

    assert_eq!(store.get_group_for_speaker(&speaker1), Some(group1.clone()));
    assert_eq!(store.get_group_for_speaker(&speaker2), Some(group1));
    assert_eq!(store.get_group_for_speaker(&speaker3), Some(group2));
}

#[test]
fn test_get_group_for_speaker_returns_none_for_unknown() {
    let store = StateStore::new();
    assert!(store.get_group_for_speaker(&SpeakerId::new("RINCON_UNKNOWN")).is_none());
}

#[test]
fn test_clear_groups_removes_all_group_data() {
    let mut store = StateStore::new();
    let speaker1 = SpeakerId::new("RINCON_111");
    let speaker2 = SpeakerId::new("RINCON_222");
    let group_id = GroupId::new("RINCON_111:1");

    store.add_group(GroupInfo::new(group_id.clone(), speaker1.clone(), vec![speaker1.clone(), speaker2.clone()]));

    assert!(store.group_count() != 0);
    assert!(store.get_group_for_speaker(&speaker1).is_some());

    store.clear_groups();

    assert_eq!(store.group_count(), 0);
    assert!(store.group_props_is_empty());
    assert!(store.get_group_for_speaker(&speaker1).is_none());
    assert!(store.get_group_for_speaker(&speaker2).is_none());
}

#[test]
fn test_clear_groups_then_add_new_groups() {
    let mut store = StateStore::new();
    let speaker1 = SpeakerId::new("RINCON_111");
    let group1_id = GroupId::new("RINCON_111:1");
    store.add_group(GroupInfo::new(group1_id.clone(), speaker1.clone(), vec![speaker1.clone()]));

    store.clear_groups();

    let speaker2 = SpeakerId::new("RINCON_222");
    let group2_id = GroupId::new("RINCON_222:1");
    let group2 = GroupInfo::new(group2_id.clone(), speaker2.clone(), vec![speaker2.clone()]);
    store.add_group(group2.clone());

    assert!(store.group(&group1_id).is_none());
    assert_eq!(store.group(&group2_id), Some(group2));

    assert!(store.get_group_for_speaker(&speaker1).is_none());
    assert_eq!(store.get_group_for_speaker(&speaker2).map(|g| g.id), Some(group2_id));
}

fn two_device_manager() -> StateManager {
    let mut manager = StateManager::new().unwrap();
    manager
        .add_devices(vec![
            device("RINCON_111", "Living Room", "192.168.1.100", "Sonos One"),
            device("RINCON_222", "Kitchen", "192.168.1.101", "Sonos One"),
        ])
        .unwrap();
    manager
}

#[test]
fn test_state_manager_groups_returns_all_groups() {
    let mut manager = two_device_manager();
    let speaker1 = SpeakerId::new("RINCON_111");
    let speaker2 = SpeakerId::new("RINCON_222");
    let group1 = GroupInfo::new(GroupId::new("RINCON_111:1"), speaker1.clone(), vec![speaker1.clone()]);
    let group2 = GroupInfo::new(GroupId::new("RINCON_222:1"), speaker2.clone(), vec![speaker2.clone()]);

    let topology = Topology::new(manager.speaker_infos(), vec![group1, group2]);
    manager.initialize(topology);

    let groups = manager.groups();
    assert_eq!(groups.len(), 2);
    let group_ids: Vec<GroupId> = groups.iter().map(|g| g.id.clone()).collect();
    assert!(group_ids.contains(&GroupId::new("RINCON_111:1")));
    assert!(group_ids.contains(&GroupId::new("RINCON_222:1")));
}

#[test]
fn test_state_manager_groups_returns_empty_when_no_groups() {
    let manager = StateManager::new().unwrap();
    assert!(manager.groups().is_empty());
}

#[test]
fn test_state_manager_get_group_returns_correct_group() {
    let mut manager = StateManager::new().unwrap();
    manager.add_devices(vec![device("RINCON_111", "Living Room", "192.168.1.100", "Sonos One")]).unwrap();
    let speaker = SpeakerId::new("RINCON_111");
    let group_id = GroupId::new("RINCON_111:1");
    let group = GroupInfo::new(group_id.clone(), speaker.clone(), vec![speaker.clone()]);

    let topology = Topology::new(manager.speaker_infos(), vec![group.clone()]);
    manager.initialize(topology);

    let found = manager.get_group(&group_id);
    assert!(found.is_some());
    assert_eq!(found.unwrap(), group);
}

#[test]
fn test_state_manager_get_group_returns_none_for_unknown() {
    let manager = StateManager::new().unwrap();
    assert!(manager.get_group(&GroupId::new("RINCON_UNKNOWN:1")).is_none());
}

#[test]
fn test_state_manager_get_group_for_speaker_returns_correct_group() {
    let mut manager = two_device_manager();
    let speaker1 = SpeakerId::new("RINCON_111");
    let speaker2 = SpeakerId::new("RINCON_222");
    let group_id = GroupId::new("RINCON_111:1");
    let group = GroupInfo::new(group_id, speaker1.clone(), vec![speaker1.clone(), speaker2.clone()]);

    let topology = Topology::new(manager.speaker_infos(), vec![group.clone()]);
    manager.initialize(topology);

    let found1 = manager.get_group_for_speaker(&speaker1);
    assert!(found1.is_some());
    assert_eq!(found1.unwrap(), group);

    let found2 = manager.get_group_for_speaker(&speaker2);
    assert!(found2.is_some());
    assert_eq!(found2.unwrap(), group);
}

#[test]
fn test_state_manager_get_group_for_speaker_returns_none_for_unknown() {
    let manager = StateManager::new().unwrap();
    assert!(manager.get_group_for_speaker(&SpeakerId::new("RINCON_UNKNOWN")).is_none());
}

#[test]
fn test_state_manager_group_methods_consistency() {
    let mut manager = StateManager::new().unwrap();
    manager.add_devices(vec![device("RINCON_111", "Living Room", "192.168.1.100", "Sonos One")]).unwrap();
    let speaker = SpeakerId::new("RINCON_111");
    let group_id = GroupId::new("RINCON_111:1");
    let group = GroupInfo::new(group_id.clone(), speaker.clone(), vec![speaker.clone()]);

    let topology = Topology::new(manager.speaker_infos(), vec![group.clone()]);
    manager.initialize(topology);

    let groups = manager.groups();
    assert_eq!(groups.len(), 1);
    assert_eq!(groups[0], group);

    let by_id = manager.get_group(&group_id);
    assert_eq!(by_id, Some(group.clone()));

    let by_speaker = manager.get_group_for_speaker(&speaker);
    assert_eq!(by_speaker, Some(group.clone()));

    assert_eq!(groups[0], by_id.unwrap());
    assert_eq!(groups[0], by_speaker.unwrap());
}

#[test]
fn test_get_boot_seq_returns_none_for_unknown_speaker() {
    let manager = StateManager::new().unwrap();
    assert!(manager.get_boot_seq(&SpeakerId::new("RINCON_UNKNOWN")).is_none());
}

#[test]
fn test_boot_seq_defaults_to_zero_for_new_speaker() {
    let mut manager = StateManager::new().unwrap();
    manager.add_devices(vec![device("RINCON_123", "Living Room", "192.168.1.100", "Sonos One")]).unwrap();
    assert_eq!(manager.get_boot_seq(&SpeakerId::new("RINCON_123")), Some(0));
}

#[test]
fn test_state_watch_registry_register_and_unregister() {
    let mut manager = StateManager::new().unwrap();
    manager.add_devices(vec![device("RINCON_123", "Living Room", "192.168.1.100", "Sonos One")]).unwrap();
    let speaker_id = SpeakerId::new("RINCON_123");

    manager.register_subscription_watch(&speaker_id, "volume", Service::RenderingControl);
    manager.register_subscription_watch(&speaker_id, "mute", Service::RenderingControl);
    manager.register_subscription_watch(&speaker_id, "playback_state", Service::AVTransport);

    assert!(manager.is_watched(&speaker_id, "volume"));
    assert!(manager.is_watched(&speaker_id, "mute"));
    assert!(manager.is_watched(&speaker_id, "playback_state"));

    manager.unregister_watches_for_service(ip("192.168.1.100"), Service::RenderingControl);

    assert!(manager.is_watched(&speaker_id, "playback_state"));
    assert!(!manager.is_watched(&speaker_id, "volume"));
    assert!(!manager.is_watched(&speaker_id, "mute"));
}

#[test]
fn test_state_watch_registry_unknown_ip_is_noop() {
    let mut manager = StateManager::new().unwrap();
    let speaker_id = SpeakerId::new("RINCON_123");

    manager.register_watch(&speaker_id, "volume");
    manager.unregister_watches_for_service(ip("10.0.0.1"), Service::RenderingControl);

    assert!(manager.is_watched(&speaker_id, "volume"));
}

#[test]
fn test_state_watch_registry_only_removes_matching_speaker() {
    let mut manager = two_device_manager();
    let speaker1 = SpeakerId::new("RINCON_111");
    let speaker2 = SpeakerId::new("RINCON_222");

    manager.register_subscription_watch(&speaker1, "volume", Service::RenderingControl);
    manager.register_subscription_watch(&speaker2, "volume", Service::RenderingControl);
    assert!(manager.is_watched(&speaker1, "volume"));
    assert!(manager.is_watched(&speaker2, "volume"));

    manager.unregister_watches_for_service(ip("192.168.1.100"), Service::RenderingControl);

    assert!(manager.is_watched(&speaker2, "volume"));
    assert!(!manager.is_watched(&speaker1, "volume"));
}

#[test]
fn test_watch_refcount_survives_partial_release() {
    let mut manager = StateManager::new().unwrap();
    let speaker_id = SpeakerId::new("RINCON_123");

    manager.register_watch(&speaker_id, "volume");
    manager.register_watch(&speaker_id, "volume");
    assert!(manager.is_watched(&speaker_id, "volume"));

    manager.unregister_watch(&speaker_id, "volume");
    assert!(
        manager.is_watched(&speaker_id, "volume"),
        "one of two watchers released — the property must stay watched"
    );

    manager.unregister_watch(&speaker_id, "volume");
    assert!(!manager.is_watched(&speaker_id, "volume"));

    manager.unregister_watch(&speaker_id, "volume");
    assert!(!manager.is_watched(&speaker_id, "volume"));
}

#[test]
fn test_service_unregister_keeps_directly_held_watches() {
    let mut manager = StateManager::new().unwrap();
    manager.add_devices(vec![device("RINCON_123", "Living Room", "192.168.1.100", "Sonos One")]).unwrap();
    let speaker_id = SpeakerId::new("RINCON_123");

    manager.register_subscription_watch(&speaker_id, "volume", Service::RenderingControl);
    manager.register_watch(&speaker_id, "volume");
    manager.register_subscription_watch(&speaker_id, "mute", Service::RenderingControl);
    manager.register_watch(&speaker_id, "mute");

    manager.unregister_watches_for_service(ip("192.168.1.100"), Service::RenderingControl);

    assert!(
        manager.is_watched(&speaker_id, "volume"),
        "the direct hold on volume must survive the subscription teardown"
    );
    assert!(
        manager.is_watched(&speaker_id, "mute"),
        "the direct hold on mute must survive the subscription teardown"
    );
}

#[test]
fn test_set_property_on_group_member_is_readable_from_both() {
    let mut manager = StateManager::new().unwrap();
    manager
        .add_devices(vec![
            device("RINCON_COORD", "Living Room", "192.168.1.100", "Sonos One"),
            device("RINCON_MEMBER", "Kitchen", "192.168.1.101", "Sonos One"),
        ])
        .unwrap();

    let coordinator = SpeakerId::new("RINCON_COORD");
    let member = SpeakerId::new("RINCON_MEMBER");
    let group_id = GroupId::new("RINCON_COORD:1");
    let topology = Topology::new(
        manager.speaker_infos(),
        vec![GroupInfo::new(group_id, coordinator.clone(), vec![coordinator.clone(), member.clone()])],
    );
    manager.initialize(topology);

    manager.set_property(&member, PlaybackState::Playing);

    assert_eq!(
        manager.get_property::<PlaybackState>(&member),
        Some(PlaybackState::Playing),
        "the member must be able to read back what it just wrote"
    );
    assert_eq!(
        manager.get_property::<PlaybackState>(&coordinator),
        Some(PlaybackState::Playing),
        "the write belongs in the coordinator's bag, which is where reads resolve"
    );

    manager.set_property(&member, Volume::new(33));
    assert_eq!(manager.get_property::<Volume>(&member), Some(Volume::new(33)));
    assert_eq!(
        manager.get_property::<Volume>(&coordinator),
        None,
        "PerSpeaker writes must not be redirected to the coordinator"
    );
}

#[test]
fn test_resolve_coordinator_for_standalone_speaker() {
    let mut store = StateStore::new();
    let speaker = SpeakerId::new("RINCON_111");
    store.add_speaker(speaker_info(&speaker, "Living Room", "192.168.1.100"));
    store.add_group(GroupInfo::new(GroupId::new("RINCON_111:1"), speaker.clone(), vec![speaker.clone()]));

    assert_eq!(store.resolve_coordinator(&speaker), speaker);
}

#[test]
fn test_resolve_coordinator_for_group_member() {
    let mut store = StateStore::new();
    let coordinator = SpeakerId::new("RINCON_COORD");
    let member = SpeakerId::new("RINCON_MEMBER");
    store.add_group(GroupInfo::new(
        GroupId::new("RINCON_COORD:1"),
        coordinator.clone(),
        vec![coordinator.clone(), member.clone()],
    ));

    assert_eq!(store.resolve_coordinator(&member), coordinator);
    assert_eq!(store.resolve_coordinator(&coordinator), coordinator);
}

#[test]
fn test_resolve_coordinator_no_group_data() {
    let store = StateStore::new();
    let speaker = SpeakerId::new("RINCON_UNKNOWN");
    assert_eq!(store.resolve_coordinator(&speaker), speaker);
}

fn grouped_store() -> (StateStore, SpeakerId, SpeakerId) {
    let mut store = StateStore::new();
    let coordinator = SpeakerId::new("RINCON_COORD");
    let member = SpeakerId::new("RINCON_MEMBER");
    store.add_speaker(speaker_info(&coordinator, "Coord", "192.168.1.100"));
    store.add_speaker(speaker_info(&member, "Member", "192.168.1.101"));
    store.add_group(GroupInfo::new(
        GroupId::new("RINCON_COORD:1"),
        coordinator.clone(),
        vec![coordinator.clone(), member.clone()],
    ));
    (store, coordinator, member)
}

#[test]
fn test_get_resolved_per_coordinator_reads_from_coordinator() {
    let (mut store, coordinator, member) = grouped_store();

    store.set(&coordinator, PlaybackState::Playing, test_stamp());

    let resolved: Option<PlaybackState> = store.get_resolved(&member);
    assert_eq!(resolved, Some(PlaybackState::Playing));

    let direct: Option<PlaybackState> = store.get(&member);
    assert_eq!(direct, None);
}

#[test]
fn test_get_resolved_per_speaker_reads_own_props() {
    let (mut store, coordinator, member) = grouped_store();

    store.set(&coordinator, Volume::new(80), test_stamp());

    let resolved: Option<Volume> = store.get_resolved(&member);
    assert_eq!(resolved, None);

    let coord_resolved: Option<Volume> = store.get_resolved(&coordinator);
    assert_eq!(coord_resolved, Some(Volume::new(80)));
}

#[test]
fn test_update_speaker_ip() {
    let mut manager = StateManager::new().unwrap();
    manager.add_devices(vec![device("RINCON_111", "Office", "192.168.4.198", "Roam 2")]).unwrap();

    let speaker_id = SpeakerId::new("RINCON_111");
    let old_ip = ip("192.168.4.198");
    let new_ip = ip("192.168.4.200");

    assert_eq!(manager.get_speaker_ip(&speaker_id), Some(old_ip));

    manager.update_speaker_ip(&speaker_id, new_ip);

    assert_eq!(manager.get_speaker_ip(&speaker_id), Some(new_ip));

    // The reverse mapping follows: watches torn down for the old address no
    // longer reach the speaker, those for the new one do.
    manager.register_subscription_watch(&speaker_id, "volume", Service::RenderingControl);
    manager.unregister_watches_for_service(old_ip, Service::RenderingControl);
    assert!(manager.is_watched(&speaker_id, "volume"));
    manager.unregister_watches_for_service(new_ip, Service::RenderingControl);
    assert!(!manager.is_watched(&speaker_id, "volume"));
}

#[test]
fn test_update_speaker_ip_no_change() {
    let mut manager = StateManager::new().unwrap();
    manager.add_devices(vec![device("RINCON_111", "Office", "192.168.4.198", "Roam 2")]).unwrap();

    let speaker_id = SpeakerId::new("RINCON_111");
    let same_ip = ip("192.168.4.198");

    manager.update_speaker_ip(&speaker_id, same_ip);
    assert_eq!(manager.get_speaker_ip(&speaker_id), Some(same_ip));
}

#[test]
fn test_satellite_ids() {
    let mut manager = StateManager::new().unwrap();

    assert!(manager.get_satellite_ids().is_empty());

    let ids = vec![SpeakerId::new("RINCON_SAT1"), SpeakerId::new("RINCON_SAT2")];
    manager.set_satellite_ids(ids);

    let stored = manager.get_satellite_ids();
    assert_eq!(stored.len(), 2);
    assert!(stored.contains(&SpeakerId::new("RINCON_SAT1")));
    assert!(stored.contains(&SpeakerId::new("RINCON_SAT2")));
}

#[test]
fn test_queued_events_preserve_every_intermediate_value() {
    let mut manager = StateManager::new().unwrap();
    manager.add_devices(vec![device("RINCON_QUEUE", "Queue Test", "192.0.2.10", "Sonos One")]).unwrap();

    let speaker_id = SpeakerId::new("RINCON_QUEUE");
    manager.register_watch(&speaker_id, PlaybackState::KEY);

    let iter = manager.iter();

    manager.set_property(&speaker_id, PlaybackState::Playing);
    manager.set_property(&speaker_id, PlaybackState::Transitioning);
    manager.set_property(&speaker_id, PlaybackState::Playing);
    let observed: Vec<PlaybackState> = drain(&iter, &mut manager)
        .into_iter()
        .filter_map(|e| match e.change {
            PropertyChange::PlaybackState(s) => Some(s),
            _ => None,
        })
        .collect();

    assert_eq!(
        observed,
        vec![PlaybackState::Playing, PlaybackState::Transitioning, PlaybackState::Playing],
        "every queued value must be observable from the event stream"
    );

    assert_eq!(manager.get_property::<PlaybackState>(&speaker_id), Some(PlaybackState::Playing));
}

fn manager_watching_volume() -> (StateManager, SpeakerId) {
    let mut manager = StateManager::new().unwrap();
    manager.add_devices(vec![device("RINCON_FANOUT", "Living Room", "192.0.2.10", "Sonos One")]).unwrap();
    let speaker_id = SpeakerId::new("RINCON_FANOUT");
    manager.register_watch(&speaker_id, Volume::KEY);
    (manager, speaker_id)
}

fn volumes_from(iter: &ChangeIterator, manager: &mut StateManager) -> Vec<u8> {
    drain(iter, manager)
        .into_iter()
        .filter_map(|e| match e.change {
            PropertyChange::Volume(v) => Some(v.value()),
            _ => None,
        })
        .collect()
}

#[test]
fn test_two_iterators_each_receive_every_event() {
    let (mut manager, speaker_id) = manager_watching_volume();

    let dashboard = manager.iter();
    let logger = manager.iter();

    for v in [10u8, 20, 30, 40] {
        manager.set_property(&speaker_id, Volume::new(v));
    }

    assert_eq!(volumes_from(&dashboard, &mut manager), vec![10, 20, 30, 40], "the first iterator must see every event");
    assert_eq!(
        volumes_from(&logger, &mut manager),
        vec![10, 20, 30, 40],
        "the second iterator must see every event too, not a subset"
    );
}

#[test]
fn test_single_iterator_receives_every_event_in_order() {
    let (mut manager, speaker_id) = manager_watching_volume();

    let iter = manager.iter();
    let sent: Vec<u8> = (1..=25).collect();
    for &v in &sent {
        manager.set_property(&speaker_id, Volume::new(v));
    }

    assert_eq!(volumes_from(&iter, &mut manager), sent);
}

#[test]
fn test_dropped_consumer_does_not_stall_survivor() {
    let (mut manager, speaker_id) = manager_watching_volume();

    let survivor = manager.iter();
    let departing = manager.iter();

    manager.set_property(&speaker_id, Volume::new(5));
    departing.close(&mut manager);

    manager.set_property(&speaker_id, Volume::new(6));
    manager.set_property(&speaker_id, Volume::new(7));

    assert_eq!(
        volumes_from(&survivor, &mut manager),
        vec![5, 6, 7],
        "the remaining consumer must keep receiving after a sibling drops"
    );

    let latecomer = manager.iter();
    manager.set_property(&speaker_id, Volume::new(8));
    assert_eq!(volumes_from(&latecomer, &mut manager), vec![8]);
}

#[test]
fn test_stale_fetch_does_not_clobber_newer_event_value() {
    let mut manager = StateManager::new().unwrap();
    manager.add_devices(vec![device("RINCON_RACE", "Race Test", "192.0.2.11", "Sonos One")]).unwrap();

    let speaker_id = SpeakerId::new("RINCON_RACE");

    // t0: a fetch is issued (observation made), its response still in flight.
    let fetch_observed_at = WriteStamp::now(ChangeSource::Fetch).observed_at;

    // t1: an event arrives and lands first with the newer, correct value.
    let event_outcome = manager.set_property_stamped(
        &speaker_id,
        Volume::new(40),
        WriteStamp::now(ChangeSource::Event),
    );
    assert_eq!(event_outcome, WriteOutcome::Changed);

    let fetch_outcome = manager.set_property_stamped(
        &speaker_id,
        Volume::new(10),
        WriteStamp::observed_at(ChangeSource::Fetch, fetch_observed_at),
    );

    assert_eq!(fetch_outcome, WriteOutcome::Stale, "a fetch observed before the stored event must be rejected");
    assert_eq!(
        manager.get_property::<Volume>(&speaker_id),
        Some(Volume::new(40)),
        "the newer event value must survive the late fetch response"
    );
}

#[test]
fn test_newer_write_is_accepted_after_an_earlier_one() {
    let mut manager = StateManager::new().unwrap();
    manager.add_devices(vec![device("RINCON_FWD", "Forward Test", "192.0.2.12", "Sonos One")]).unwrap();

    let speaker_id = SpeakerId::new("RINCON_FWD");
    let early = WriteStamp::now(ChangeSource::Fetch).observed_at;

    assert_eq!(
        manager.set_property_stamped(&speaker_id, Volume::new(10), WriteStamp::observed_at(ChangeSource::Fetch, early)),
        WriteOutcome::Changed
    );

    assert_eq!(
        manager.set_property_stamped(&speaker_id, Volume::new(20), WriteStamp::now(ChangeSource::Fetch)),
        WriteOutcome::Changed
    );
    assert_eq!(manager.get_property::<Volume>(&speaker_id), Some(Volume::new(20)));
}

#[test]
fn manager_stamps_never_go_back() {
    let mut manager = StateManager::new().unwrap();
    manager.add_devices(vec![device("RINCON_RACE", "Race Test", "192.0.2.11", "Sonos One")]).unwrap();
    let speaker_id = SpeakerId::new("RINCON_RACE");

    let fetch = manager.next_stamp(ChangeSource::Fetch);
    let event = manager.next_stamp(ChangeSource::Event);
    assert!(event.observed_at >= fetch.observed_at);
    assert_eq!(fetch.source, ChangeSource::Fetch);
    assert_eq!(event.source, ChangeSource::Event);

    assert_eq!(manager.set_property_stamped(&speaker_id, Volume::new(40), event), WriteOutcome::Changed);
    assert_eq!(manager.set_property_stamped(&speaker_id, Volume::new(10), fetch), WriteOutcome::Stale);
    assert_eq!(manager.get_property::<Volume>(&speaker_id), Some(Volume::new(40)));

    let later = manager.next_stamp(ChangeSource::LocalAction);
    assert!(later.observed_at >= event.observed_at);
}
