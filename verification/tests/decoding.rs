use sonos_state::decoder::{
    decode_av_transport, decode_rendering_control, decode_topology_event, parse_duration_ms,
    AVTransportEvent, NetworkInfo, PropertyChange, RenderingControlEvent, ZoneGroupInfo,
    ZoneGroupMemberInfo, ZoneGroupTopologyEvent,
};
use sonos_state::ids::GroupId;
use sonos_state::property::{GroupMembership, Mute, PlaybackState, Service, Volume};
use sonos_state::xml::extract_xml_element;

#[test]
fn test_parse_duration_ms() {
    assert_eq!(parse_duration_ms(Some("0:00:00")), Some(0));
    assert_eq!(parse_duration_ms(Some("0:01:00")), Some(60_000));
    assert_eq!(parse_duration_ms(Some("1:00:00")), Some(3_600_000));
    assert_eq!(parse_duration_ms(Some("0:03:45")), Some(225_000));
    assert_eq!(parse_duration_ms(Some("0:03:45.500")), Some(225_500));
    assert_eq!(parse_duration_ms(Some("NOT_IMPLEMENTED")), None);
    assert_eq!(parse_duration_ms(None), None);
    assert_eq!(parse_duration_ms(Some("")), None);
}

#[test]
fn test_extract_xml_element() {
    let xml = r#"<DIDL-Lite><item><dc:title>Test Song</dc:title><dc:creator>Artist Name</dc:creator></item></DIDL-Lite>"#;

    assert_eq!(extract_xml_element(xml, "dc:title"), Some("Test Song".to_string()));
    assert_eq!(extract_xml_element(xml, "dc:creator"), Some("Artist Name".to_string()));
    assert_eq!(extract_xml_element(xml, "upnp:album"), None);
}

#[test]
fn test_decode_rendering_control() {
    let event = RenderingControlEvent {
        master_volume: Some("50".to_string()),
        master_mute: Some("0".to_string()),
        bass: Some("5".to_string()),
        treble: Some("-3".to_string()),
        loudness: Some("1".to_string()),
        lf_volume: None,
        rf_volume: None,
        lf_mute: None,
        rf_mute: None,
        balance: None,
        other_channels: vec![],
    };

    let changes = decode_rendering_control(&event);

    assert_eq!(changes.len(), 5);

    if let PropertyChange::Volume(v) = &changes[0] {
        assert_eq!(v.0, 50);
    } else {
        panic!("Expected Volume change");
    }

    if let PropertyChange::Mute(m) = &changes[1] {
        assert!(!m.0);
    } else {
        panic!("Expected Mute change");
    }
}

#[test]
fn test_decode_av_transport() {
    let event = AVTransportEvent {
        transport_state: Some("PLAYING".to_string()),
        transport_status: None,
        speed: None,
        current_track_uri: Some("x-sonos-spotify:track123".to_string()),
        track_duration: Some("0:03:45".to_string()),
        rel_time: Some("0:01:30".to_string()),
        abs_time: None,
        rel_count: None,
        abs_count: None,
        play_mode: None,
        track_metadata: None,
        next_track_uri: None,
        next_track_metadata: None,
        queue_length: None,
    };

    let changes = decode_av_transport(&event);

    assert!(changes.len() >= 2);

    if let PropertyChange::PlaybackState(ps) = &changes[0] {
        assert_eq!(*ps, PlaybackState::Playing);
    } else {
        panic!("Expected PlaybackState change");
    }
}

#[test]
fn test_property_change_key() {
    let vol_change = PropertyChange::Volume(Volume(50));
    assert_eq!(vol_change.key(), Volume::KEY);

    let mute_change = PropertyChange::Mute(Mute(false));
    assert_eq!(mute_change.key(), Mute::KEY);

    let ps_change = PropertyChange::PlaybackState(PlaybackState::Playing);
    assert_eq!(ps_change.key(), PlaybackState::KEY);
}

#[test]
fn test_property_change_service() {
    let vol_change = PropertyChange::Volume(Volume(50));
    assert_eq!(vol_change.service(), Service::RenderingControl);

    let ps_change = PropertyChange::PlaybackState(PlaybackState::Playing);
    assert_eq!(ps_change.service(), Service::AVTransport);

    let gm_change = PropertyChange::GroupMembership(GroupMembership::new(GroupId::new("RINCON_test:1"), true));
    assert_eq!(gm_change.service(), Service::ZoneGroupTopology);
}

fn make_member(uuid: &str, zone_name: &str) -> ZoneGroupMemberInfo {
    ZoneGroupMemberInfo {
        uuid: uuid.to_string(),
        location: "http://192.168.1.100:1400/xml/device_description.xml".to_string(),
        zone_name: zone_name.to_string(),
        software_version: "79.1-56030".to_string(),
        network_info: NetworkInfo {
            wireless_mode: "0".to_string(),
            wifi_enabled: "1".to_string(),
            eth_link: "1".to_string(),
            channel_freq: "2412".to_string(),
            behind_wifi_extender: "0".to_string(),
        },
        satellites: vec![],
        metadata: vec![],
    }
}

#[test]
fn test_decode_topology_single_group_one_speaker() {
    let event = ZoneGroupTopologyEvent {
        zone_groups: vec![ZoneGroupInfo {
            coordinator: "RINCON_111111111111".to_string(),
            id: "RINCON_111111111111:0".to_string(),
            members: vec![make_member("RINCON_111111111111", "Living Room")],
        }],
        vanished_devices: vec![],
    };

    let result = decode_topology_event(&event);

    assert_eq!(result.groups.len(), 1);
    let group = &result.groups[0];
    assert_eq!(group.id.as_str(), "RINCON_111111111111:0");
    assert_eq!(group.coordinator_id.as_str(), "RINCON_111111111111");
    assert_eq!(group.member_ids.len(), 1);
    assert!(group.is_standalone());

    assert_eq!(result.memberships.len(), 1);
    let (speaker_id, membership) = &result.memberships[0];
    assert_eq!(speaker_id.as_str(), "RINCON_111111111111");
    assert_eq!(membership.group_id.as_str(), "RINCON_111111111111:0");
    assert!(membership.is_coordinator);
}

#[test]
fn test_decode_topology_single_group_multiple_speakers() {
    let event = ZoneGroupTopologyEvent {
        zone_groups: vec![ZoneGroupInfo {
            coordinator: "RINCON_111111111111".to_string(),
            id: "RINCON_111111111111:0".to_string(),
            members: vec![
                make_member("RINCON_111111111111", "Living Room"),
                make_member("RINCON_222222222222", "Kitchen"),
                make_member("RINCON_333333333333", "Bedroom"),
            ],
        }],
        vanished_devices: vec![],
    };

    let result = decode_topology_event(&event);

    assert_eq!(result.groups.len(), 1);
    let group = &result.groups[0];
    assert_eq!(group.member_ids.len(), 3);
    assert!(!group.is_standalone());

    assert_eq!(result.memberships.len(), 3);

    let find = |id: &str| result.memberships.iter().find(|(sid, _)| sid.as_str() == id).map(|(_, m)| m);
    assert!(find("RINCON_111111111111").unwrap().is_coordinator);
    assert!(!find("RINCON_222222222222").unwrap().is_coordinator);
    assert!(!find("RINCON_333333333333").unwrap().is_coordinator);
}

#[test]
fn test_decode_topology_multiple_groups() {
    let event = ZoneGroupTopologyEvent {
        zone_groups: vec![
            ZoneGroupInfo {
                coordinator: "RINCON_111111111111".to_string(),
                id: "RINCON_111111111111:0".to_string(),
                members: vec![
                    make_member("RINCON_111111111111", "Living Room"),
                    make_member("RINCON_222222222222", "Kitchen"),
                ],
            },
            ZoneGroupInfo {
                coordinator: "RINCON_333333333333".to_string(),
                id: "RINCON_333333333333:0".to_string(),
                members: vec![make_member("RINCON_333333333333", "Bedroom")],
            },
        ],
        vanished_devices: vec![],
    };

    let result = decode_topology_event(&event);

    assert_eq!(result.groups.len(), 2);

    let group1 = &result.groups[0];
    assert_eq!(group1.id.as_str(), "RINCON_111111111111:0");
    assert_eq!(group1.member_ids.len(), 2);

    let group2 = &result.groups[1];
    assert_eq!(group2.id.as_str(), "RINCON_333333333333:0");
    assert_eq!(group2.member_ids.len(), 1);
    assert!(group2.is_standalone());

    assert_eq!(result.memberships.len(), 3);

    let find = |id: &str| result.memberships.iter().find(|(sid, _)| sid.as_str() == id).map(|(_, m)| m).unwrap();
    let living_room = find("RINCON_111111111111");
    assert_eq!(living_room.group_id.as_str(), "RINCON_111111111111:0");
    assert!(living_room.is_coordinator);

    let kitchen = find("RINCON_222222222222");
    assert_eq!(kitchen.group_id.as_str(), "RINCON_111111111111:0");
    assert!(!kitchen.is_coordinator);

    let bedroom = find("RINCON_333333333333");
    assert_eq!(bedroom.group_id.as_str(), "RINCON_333333333333:0");
    assert!(bedroom.is_coordinator);
}

#[test]
fn test_decode_topology_empty_event() {
    let event = ZoneGroupTopologyEvent { zone_groups: vec![], vanished_devices: vec![] };

    let result = decode_topology_event(&event);

    assert!(result.groups.is_empty());
    assert!(result.memberships.is_empty());
}
