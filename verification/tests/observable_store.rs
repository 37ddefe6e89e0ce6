use sonos_state::change_stream::StateChange;
use sonos_state::decoders::{
    parse_ip_from_location, AVTransportData, AVTransportDecoder, EventData, RawEvent,
    RenderingControlData, RenderingControlDecoder, TopologyData, TopologyDecoder, ZoneGroupData,
    ZoneMemberData,
};
use sonos_state::ids::{GroupId, SpeakerId};
use sonos_state::net::{parse_ip_addr, IpAddr};
use sonos_state::property::{
    Bass, CurrentTrack, GroupInfo, GroupMembership, Mute, PlaybackState, Position, Service,
    Topology, Volume,
};
use sonos_state::reactive_store::{PropertyBag, StateStore};
use sonos_state::speaker::Speaker;
use sonos_state::state_manager::StateManager;
use sonos_state::viewed::ViewEq;

fn ip(s: &str) -> IpAddr {
    parse_ip_addr(s).unwrap()
}

fn speaker_info(id: &str, name: &str, addr: &str, version: &str) -> Speaker {
    Speaker {
        id: SpeakerId::new(id),
        name: name.to_string(),
        room_name: name.to_string(),
        ip_address: ip(addr),
        port: 1400,
        model_name: "Test".to_string(),
        software_version: version.to_string(),
        boot_seq: 0,
        satellites: vec![],
    }
}

fn create_test_speaker_info() -> Speaker {
    speaker_info("RINCON_123", "Living Room", "192.168.1.100", "56.0")
}

fn create_test_store() -> StateStore {
    let mut store = StateStore::new();
    store.add_speaker(speaker_info("RINCON_123", "Test", "192.168.1.100", "1.0"));
    store
}

#[test]
fn test_property_bag_direct() {
    let mut bag = PropertyBag::new();

    assert!(bag.get::<Volume>().is_none(), "Initial value should be None");

    let changed = bag.set(Volume::new(50));
    assert!(changed, "set should return true for new value");

    let retrieved = bag.get::<Volume>();
    assert_eq!(retrieved, Some(Volume::new(50)), "Should retrieve set value");
}

#[test]
fn test_store_creation() {
    let store = StateStore::new();
    assert!(store.is_empty());
    assert_eq!(store.speaker_count(), 0);
}

#[test]
fn test_add_speaker() {
    let mut store = StateStore::new();
    let speaker = create_test_speaker_info();
    let id = SpeakerId::new("RINCON_123");
    let addr = speaker.ip_address;

    store.add_speaker(speaker);

    assert_eq!(store.speaker_count(), 1);
    assert!(store.speaker(&id).is_some());
    assert_eq!(store.speaker_id_for_ip(addr), Some(id));
}

#[test]
fn test_set_and_get_property() {
    let mut store = StateStore::new();
    let id = SpeakerId::new("RINCON_123");
    store.add_speaker(create_test_speaker_info());

    assert!(store.get::<Volume>(&id).is_none());

    store.set(&id, Volume::new(50));
    assert_eq!(store.get::<Volume>(&id), Some(Volume::new(50)));

    store.set(&id, Volume::new(75));
    assert_eq!(store.get::<Volume>(&id), Some(Volume::new(75)));
}

#[test]
fn test_change_detection() {
    let mut store = StateStore::new();
    let id = SpeakerId::new("RINCON_123");
    store.add_speaker(create_test_speaker_info());
    store.take_changes();

    store.set(&id, Volume::new(50));

    let changes = store.take_changes();
    assert_eq!(changes.len(), 1);
    assert!(matches!(
        changes[0],
        StateChange::SpeakerPropertyChanged { property_key: "volume", .. }
    ));

    store.set(&id, Volume::new(50));

    assert!(store.take_changes().is_empty());
}

#[test]
fn test_multiple_properties() {
    let mut store = StateStore::new();
    let id = SpeakerId::new("RINCON_123");
    store.add_speaker(create_test_speaker_info());

    store.set(&id, Volume::new(50));
    store.set(&id, Mute::new(true));

    assert_eq!(store.get::<Volume>(&id), Some(Volume::new(50)));
    assert_eq!(store.get::<Mute>(&id), Some(Mute::new(true)));
}

#[test]
fn test_remove_speaker() {
    let mut store = StateStore::new();
    let speaker = create_test_speaker_info();
    let id = SpeakerId::new("RINCON_123");
    let addr = speaker.ip_address;

    store.add_speaker(speaker);
    store.set(&id, Volume::new(50));

    assert_eq!(store.speaker_count(), 1);

    store.remove_speaker(&id);

    assert_eq!(store.speaker_count(), 0);
    assert!(store.speaker(&id).is_none());
    assert!(store.speaker_id_for_ip(addr).is_none());
    assert!(store.get::<Volume>(&id).is_none());
}

#[test]
fn test_system_properties() {
    let mut store = StateStore::new();

    assert!(store.get_system::<Topology>().is_none());

    let topology = Topology::new(vec![], vec![]);
    store.set_system(topology.view_clone());

    assert!(store.get_system::<Topology>().unwrap().view_eq(&topology));
}

#[test]
fn store_reports_speaker_and_group_lifecycle() {
    let mut store = StateStore::new();
    store.add_speaker(create_test_speaker_info());
    store.add_speaker(create_test_speaker_info());
    let gid = GroupId::new("RINCON_123:0");
    store.add_group(GroupInfo::new(gid.view_clone(), SpeakerId::new("RINCON_123"), vec![SpeakerId::new("RINCON_123")]));
    store.remove_group(&gid);
    store.remove_group(&gid);
    store.remove_speaker(&SpeakerId::new("RINCON_123"));
    let changes = store.take_changes();
    assert_eq!(changes.len(), 4);
    assert!(matches!(changes[0], StateChange::SpeakerAdded { .. }));
    assert!(matches!(changes[1], StateChange::GroupAdded { .. }));
    assert!(matches!(changes[2], StateChange::GroupRemoved { .. }));
    assert!(matches!(changes[3], StateChange::SpeakerRemoved { .. }));
}

#[test]
fn store_active_services_follow_speakers() {
    let mut store = StateStore::new();
    assert!(store.active_services().is_empty());
    store.add_speaker(create_test_speaker_info());
    assert_eq!(
        store.active_services(),
        vec![Service::RenderingControl, Service::AVTransport, Service::ZoneGroupTopology]
    );
}

#[test]
fn bag_clear_reports_whether_a_value_was_held() {
    let mut bag = PropertyBag::new();
    assert!(!bag.clear::<Volume>());
    assert!(bag.set(Volume::new(10)));
    assert!(!bag.set(Volume::new(10)));
    assert!(bag.clear::<Volume>());
    assert!(bag.get::<Volume>().is_none());
}

#[test]
fn property_changed_follows_scope() {
    let c = StateChange::property_changed::<Volume>("uuid:RINCON_9");
    match c {
        StateChange::SpeakerPropertyChanged { speaker_id, property_key, service } => {
            assert_eq!(speaker_id.as_str(), "RINCON_9");
            assert_eq!(property_key, "volume");
            assert_eq!(service, Service::RenderingControl);
        }
        _ => panic!("expected a speaker change"),
    }
    let t = StateChange::property_changed::<Topology>("anything");
    assert!(matches!(t, StateChange::SystemPropertyChanged { property_key: "topology", .. }));
}

// ---------------------------------------------------------------------------
// Decoders
// ---------------------------------------------------------------------------

#[test]
fn test_decode_volume() {
    let decoder = RenderingControlDecoder;
    let mut store = create_test_store();

    let event = RawEvent::new(
        ip("192.168.1.100"),
        Service::RenderingControl,
        EventData::RenderingControl(RenderingControlData::new().with_volume(75)),
    );

    let updates = decoder.decode(&event, &store);
    assert_eq!(updates.len(), 1);
    assert_eq!(updates[0].description, "Set RINCON_123 volume to 75");

    for update in updates {
        update.apply(&mut store);
    }

    let id = SpeakerId::new("RINCON_123");
    assert_eq!(store.get::<Volume>(&id), Some(Volume::new(75)));
}

#[test]
fn test_decode_multiple_properties() {
    let decoder = RenderingControlDecoder;
    let mut store = create_test_store();

    let mut data = RenderingControlData::new();
    data.master_volume = Some(50);
    data.master_mute = Some(true);
    data.bass = Some(5);

    let event = RawEvent::new(ip("192.168.1.100"), Service::RenderingControl, EventData::RenderingControl(data));

    let updates = decoder.decode(&event, &store);
    assert_eq!(updates.len(), 3);

    for update in updates {
        update.apply(&mut store);
    }

    let id = SpeakerId::new("RINCON_123");
    assert_eq!(store.get::<Volume>(&id), Some(Volume::new(50)));
    assert_eq!(store.get::<Mute>(&id), Some(Mute::new(true)));
    assert_eq!(store.get::<Bass>(&id), Some(Bass::new(5)));
}

#[test]
fn test_unknown_speaker() {
    let decoder = RenderingControlDecoder;
    let store = StateStore::new();

    let event = RawEvent::new(
        ip("192.168.1.100"),
        Service::RenderingControl,
        EventData::RenderingControl(RenderingControlData::new().with_volume(50)),
    );

    let updates = decoder.decode(&event, &store);
    assert!(updates.is_empty());
}

#[test]
fn rendering_descriptions_and_clamping() {
    let decoder = RenderingControlDecoder;
    let mut store = create_test_store();
    let mut data = RenderingControlData::new();
    data.master_volume = Some(150);
    data.bass = Some(-15);
    data.loudness = Some(false);
    let event = RawEvent::new(ip("192.168.1.100"), Service::RenderingControl, EventData::RenderingControl(data));
    let updates = decoder.decode(&event, &store);
    let texts: Vec<String> = updates.iter().map(|u| u.description.clone()).collect();
    assert_eq!(
        texts,
        vec![
            "Set RINCON_123 volume to 150".to_string(),
            "Set RINCON_123 bass to -15".to_string(),
            "Set RINCON_123 loudness to false".to_string(),
        ]
    );
    for update in updates {
        update.apply(&mut store);
    }
    let id = SpeakerId::new("RINCON_123");
    assert_eq!(store.get::<Volume>(&id), Some(Volume::new(100)));
    assert_eq!(store.get::<Bass>(&id), Some(Bass::new(-10)));
}

#[test]
fn test_decode_playback_state() {
    let decoder = AVTransportDecoder;
    let mut store = create_test_store();

    let event = RawEvent::new(
        ip("192.168.1.100"),
        Service::AVTransport,
        EventData::AVTransport(AVTransportData::new().with_transport_state("PLAYING")),
    );

    let updates = decoder.decode(&event, &store);
    assert_eq!(updates.len(), 1);
    assert_eq!(updates[0].description, "Set RINCON_123 playback state to Playing");

    for update in updates {
        update.apply(&mut store);
    }

    let id = SpeakerId::new("RINCON_123");
    assert_eq!(store.get::<PlaybackState>(&id), Some(PlaybackState::Playing));
}

#[test]
fn test_decode_position() {
    let decoder = AVTransportDecoder;
    let mut store = create_test_store();

    let mut data = AVTransportData::new();
    data.rel_time = Some("0:01:30".to_string());
    data.track_duration = Some("0:03:45".to_string());

    let event = RawEvent::new(ip("192.168.1.100"), Service::AVTransport, EventData::AVTransport(data));

    let updates = decoder.decode(&event, &store);
    assert_eq!(updates.len(), 1);
    assert_eq!(updates[0].description, "Set RINCON_123 position to 90000ms / 225000ms");

    for update in updates {
        update.apply(&mut store);
    }

    let id = SpeakerId::new("RINCON_123");
    let pos = store.get::<Position>(&id).unwrap();
    assert_eq!(pos.position_ms, 90_000);
    assert_eq!(pos.duration_ms, 225_000);
}

#[test]
fn test_decode_track_info() {
    let decoder = AVTransportDecoder;
    let mut store = create_test_store();

    let mut data = AVTransportData::new();
    data.track_metadata = Some(
        r#"<DIDL-Lite><item>
                <dc:title>Test Song</dc:title>
                <dc:creator>Test Artist</dc:creator>
                <upnp:album>Test Album</upnp:album>
            </item></DIDL-Lite>"#
            .to_string(),
    );
    data.current_track_uri = Some("x-sonos-spotify:track123".to_string());

    let event = RawEvent::new(ip("192.168.1.100"), Service::AVTransport, EventData::AVTransport(data));

    let updates = decoder.decode(&event, &store);
    assert!(!updates.is_empty());

    for update in updates {
        update.apply(&mut store);
    }

    let id = SpeakerId::new("RINCON_123");
    let track: CurrentTrack = store.get::<CurrentTrack>(&id).unwrap();
    assert_eq!(track.title, Some("Test Song".to_string()));
    assert_eq!(track.artist, Some("Test Artist".to_string()));
    assert_eq!(track.album, Some("Test Album".to_string()));
}

#[test]
fn test_decode_full_event() {
    let decoder = AVTransportDecoder;
    let store = create_test_store();

    let mut data = AVTransportData::new();
    data.transport_state = Some("PLAYING".to_string());
    data.rel_time = Some("0:01:30".to_string());
    data.track_duration = Some("0:03:45".to_string());
    data.track_metadata = Some("<DIDL-Lite><dc:title>Song</dc:title></DIDL-Lite>".to_string());
    data.current_track_uri = Some("track:123".to_string());

    let event = RawEvent::new(ip("192.168.1.100"), Service::AVTransport, EventData::AVTransport(data));

    let updates = decoder.decode(&event, &store);
    assert_eq!(updates.len(), 3);
    assert_eq!(updates[2].description, "Set RINCON_123 track to Song");
}

fn create_test_topology_data() -> TopologyData {
    TopologyData {
        zone_groups: vec![ZoneGroupData {
            id: "RINCON_123:0".to_string(),
            coordinator: "RINCON_123".to_string(),
            members: vec![
                ZoneMemberData {
                    uuid: "RINCON_123".to_string(),
                    location: "http://192.168.1.100:1400/xml/device_description.xml".to_string(),
                    zone_name: "Living Room".to_string(),
                    software_version: "56.0-76060".to_string(),
                    ip_address: Some(ip("192.168.1.100")),
                    satellites: vec![],
                },
                ZoneMemberData {
                    uuid: "RINCON_456".to_string(),
                    location: "http://192.168.1.101:1400/xml/device_description.xml".to_string(),
                    zone_name: "Kitchen".to_string(),
                    software_version: "56.0-76060".to_string(),
                    ip_address: Some(ip("192.168.1.101")),
                    satellites: vec![],
                },
            ],
        }],
        vanished_devices: vec![],
    }
}

#[test]
fn test_decode_topology() {
    let decoder = TopologyDecoder;
    let mut store = StateStore::new();

    let event = RawEvent::new(
        ip("192.168.1.100"),
        Service::ZoneGroupTopology,
        EventData::ZoneGroupTopology(create_test_topology_data()),
    );

    let updates = decoder.decode(&event, &store);
    assert!(updates.len() >= 5);

    for update in updates {
        update.apply(&mut store);
    }

    assert_eq!(store.speaker_count(), 2);
    assert_eq!(store.group_count(), 1);

    let id1 = SpeakerId::new("RINCON_123");
    let membership: GroupMembership = store.get::<GroupMembership>(&id1).unwrap();
    assert!(membership.is_coordinator);
    assert_eq!(membership.group_id, GroupId::new("RINCON_123:0"));

    let id2 = SpeakerId::new("RINCON_456");
    let membership2 = store.get::<GroupMembership>(&id2).unwrap();
    assert!(!membership2.is_coordinator);
}

#[test]
fn test_parse_ip_from_location() {
    assert_eq!(
        parse_ip_from_location("http://192.168.1.100:1400/xml/device_description.xml"),
        Some(ip("192.168.1.100"))
    );
    assert_eq!(parse_ip_from_location("http://10.0.0.1:1400/xml"), Some(ip("10.0.0.1")));
    assert_eq!(parse_ip_from_location("invalid"), None);
}

#[test]
fn test_vanished_devices() {
    let decoder = TopologyDecoder;
    let mut store = StateStore::new();

    store.add_speaker(speaker_info("RINCON_OLD", "Old Speaker", "192.168.1.200", "1.0"));
    assert_eq!(store.speaker_count(), 1);

    let mut topology_data = create_test_topology_data();
    topology_data.vanished_devices = vec!["RINCON_OLD".to_string()];

    let event = RawEvent::new(
        ip("192.168.1.100"),
        Service::ZoneGroupTopology,
        EventData::ZoneGroupTopology(topology_data),
    );

    let updates = decoder.decode(&event, &store);
    assert_eq!(updates.last().unwrap().description, "Remove vanished speaker RINCON_OLD");

    for update in updates {
        update.apply(&mut store);
    }

    assert!(store.speaker(&SpeakerId::new("RINCON_OLD")).is_none());
}

#[test]
fn topology_member_without_address_uses_location_or_zero() {
    let mut data = create_test_topology_data();
    data.zone_groups[0].members[0].ip_address = None;
    data.zone_groups[0].members[1].ip_address = None;
    data.zone_groups[0].members[1].location = "not a url".to_string();
    let mut store = StateStore::new();
    let event = RawEvent::new(ip("192.168.1.100"), Service::ZoneGroupTopology, EventData::ZoneGroupTopology(data));
    for update in TopologyDecoder.decode(&event, &store) {
        update.apply(&mut store);
    }
    let a = store.speaker(&SpeakerId::new("RINCON_123")).unwrap();
    let b = store.speaker(&SpeakerId::new("RINCON_456")).unwrap();
    assert_eq!(a.ip_address, ip("192.168.1.100"));
    assert_eq!(b.ip_address, ip("0.0.0.0"));
    assert_eq!(b.model_name, "Unknown");
}

// ---------------------------------------------------------------------------
// Pipeline
// ---------------------------------------------------------------------------

fn create_test_speaker(id: &str, addr: &str) -> Speaker {
    Speaker {
        id: SpeakerId::new(id),
        name: format!("Speaker {}", id),
        room_name: format!("Room {}", id),
        ip_address: ip(addr),
        port: 1400,
        model_name: "Test".to_string(),
        software_version: "1.0".to_string(),
        boot_seq: 0,
        satellites: vec![],
    }
}

#[test]
fn test_new_manager() {
    let manager = StateManager::new();
    assert!(!manager.is_initialized());
    assert_eq!(manager.speaker_count(), 0);
}

#[test]
fn state_manager_test_initialize() {
    let mut manager = StateManager::new();

    let topology = Topology::new(
        vec![create_test_speaker("RINCON_1", "192.168.1.100"), create_test_speaker("RINCON_2", "192.168.1.101")],
        vec![GroupInfo::new(
            GroupId::new("GROUP_1"),
            SpeakerId::new("RINCON_1"),
            vec![SpeakerId::new("RINCON_1"), SpeakerId::new("RINCON_2")],
        )],
    );

    manager.initialize(topology);

    assert!(manager.is_initialized());
    assert_eq!(manager.speaker_count(), 2);
    assert_eq!(manager.group_count(), 1);
}

#[test]
fn state_manager_test_process_event() {
    let mut store = StateStore::new();
    store.add_speaker(create_test_speaker("RINCON_1", "192.168.1.100"));
    let mut manager = StateManager::with_store(store);

    let event = RawEvent::new(
        ip("192.168.1.100"),
        Service::RenderingControl,
        EventData::RenderingControl(RenderingControlData::new().with_volume(75)),
    );

    let count = manager.process(event);
    assert_eq!(count, 1);

    let id = SpeakerId::new("RINCON_1");
    assert_eq!(manager.store().get::<Volume>(&id), Some(Volume::new(75)));
}

#[test]
fn test_process_multiple_events() {
    let mut store = StateStore::new();
    store.add_speaker(create_test_speaker("RINCON_1", "192.168.1.100"));
    let mut manager = StateManager::with_store(store);

    let vol_event = RawEvent::new(
        ip("192.168.1.100"),
        Service::RenderingControl,
        EventData::RenderingControl(RenderingControlData::new().with_volume(50)),
    );
    manager.process(vol_event);

    let play_event = RawEvent::new(
        ip("192.168.1.100"),
        Service::AVTransport,
        EventData::AVTransport(AVTransportData::new().with_transport_state("PLAYING")),
    );
    manager.process(play_event);

    let id = SpeakerId::new("RINCON_1");
    assert_eq!(manager.store().get::<Volume>(&id), Some(Volume::new(50)));
    assert_eq!(manager.store().get::<PlaybackState>(&id), Some(PlaybackState::Playing));
}

#[test]
fn pipeline_reports_changes_in_order() {
    let mut store = StateStore::new();
    store.add_speaker(create_test_speaker("RINCON_1", "192.168.1.100"));
    let mut manager = StateManager::with_store(store);
    manager.take_changes();

    let event = RawEvent::new(
        ip("192.168.1.100"),
        Service::RenderingControl,
        EventData::RenderingControl(RenderingControlData::new().with_volume(50)),
    );
    manager.process(event);

    let changes = manager.take_changes();
    assert_eq!(changes.len(), 1);
    assert!(matches!(changes[0], StateChange::SpeakerPropertyChanged { property_key: "volume", .. }));
}

#[test]
fn pipeline_ignores_services_without_a_decoder() {
    let mut manager = StateManager::new();
    let event = RawEvent::new(
        ip("192.168.1.100"),
        Service::GroupRenderingControl,
        EventData::RenderingControl(RenderingControlData::new().with_volume(50)),
    );
    assert_eq!(manager.process(event), 0);
    assert_eq!(manager.speaker_count(), 0);
}
