use sonos_state::events::{StateEvent, StateEventPayload};
use sonos_state::ids::{GroupId, SpeakerId};
use sonos_state::model::{Group, PlaybackState, SpeakerRef, SpeakerState, StateChange};
use sonos_state::net::parse_ip_addr;
use sonos_state::snapshot::StateSnapshot;
use sonos_state::speaker::Speaker;
use sonos_state::table::Table;

fn speaker_with(id: &str, name: &str, room: &str, ip: &str, model: &str, version: &str) -> Speaker {
    Speaker {
        id: SpeakerId::new(id),
        name: name.to_string(),
        room_name: room.to_string(),
        ip_address: parse_ip_addr(ip).unwrap(),
        port: 1400,
        model_name: model.to_string(),
        software_version: version.to_string(),
        boot_seq: 0,
        satellites: vec![],
    }
}

fn create_test_speaker() -> Speaker {
    speaker_with("RINCON_123", "Living Room", "Living Room", "192.168.1.100", "Sonos One", "56.0-76060")
}

#[test]
fn test_get_id() {
    let speaker = create_test_speaker();
    assert_eq!(speaker.get_id().as_str(), "RINCON_123");
}

#[test]
fn test_address() {
    let speaker = create_test_speaker();
    assert_eq!(speaker.address(), "192.168.1.100:1400");
}

#[test]
fn test_new_defaults() {
    let state = SpeakerState::new(speaker_with(
        "RINCON_123",
        "Test Speaker",
        "Test Room",
        "192.168.1.100",
        "Sonos One",
        "56.0",
    ));
    assert_eq!(state.playback_state, PlaybackState::Stopped);
    assert_eq!(state.volume, 0);
    assert!(!state.muted);
    assert_eq!(state.position_ms, 0);
    assert!(!state.is_coordinator);
    assert!(state.group_id.is_none());
}

#[test]
fn test_is_playing() {
    let mut state = SpeakerState::new(speaker_with(
        "RINCON_123",
        "Test Speaker",
        "Test Room",
        "192.168.1.100",
        "Sonos One",
        "56.0",
    ));
    assert!(!state.is_playing());

    state.playback_state = PlaybackState::Playing;
    assert!(state.is_playing());
}

#[test]
fn test_speaker_id_extraction() {
    let change = StateChange::VolumeChanged {
        speaker_id: SpeakerId::new("RINCON_123"),
        old_volume: 50,
        new_volume: 60,
    };
    assert_eq!(change.speaker_id().unwrap().as_str(), "RINCON_123");

    let groups_change = StateChange::GroupsChanged { old_groups: vec![], new_groups: vec![] };
    assert!(groups_change.speaker_id().is_none());
}

#[test]
fn test_is_error() {
    let volume_change = StateChange::VolumeChanged {
        speaker_id: SpeakerId::new("RINCON_123"),
        old_volume: 50,
        new_volume: 60,
    };
    assert!(!volume_change.is_error());

    let error = StateChange::ProcessingError {
        speaker_id: None,
        service: None,
        error: "Test error".to_string(),
    };
    assert!(error.is_error());
}

fn create_test_snapshot() -> StateSnapshot {
    let mut speakers = Table::new();

    let speaker1 = speaker_with("RINCON_1", "Living Room", "Living Room", "192.168.1.100", "Sonos One", "56.0");
    let speaker2 = speaker_with("RINCON_2", "Kitchen", "Kitchen", "192.168.1.101", "Sonos Play:1", "56.0");

    let mut state1 = SpeakerState::new(speaker1);
    state1.group_id = Some(GroupId::new("RINCON_1:0"));
    state1.is_coordinator = true;
    state1.playback_state = PlaybackState::Playing;

    let mut state2 = SpeakerState::new(speaker2);
    state2.group_id = Some(GroupId::new("RINCON_1:0"));
    state2.is_coordinator = false;

    speakers.insert(SpeakerId::new("RINCON_1"), state1);
    speakers.insert(SpeakerId::new("RINCON_2"), state2);

    let group = Group::new(
        GroupId::new("RINCON_1:0"),
        SpeakerId::new("RINCON_1"),
        vec![
            SpeakerRef::new(SpeakerId::new("RINCON_1"), vec![]),
            SpeakerRef::new(SpeakerId::new("RINCON_2"), vec![]),
        ],
    );
    StateSnapshot::from_parts(speakers, &vec![group])
}

#[test]
fn test_get_speaker() {
    let snapshot = create_test_snapshot();
    let speaker = snapshot.get_speaker(&SpeakerId::new("RINCON_1"));
    assert!(speaker.is_some());
    assert_eq!(speaker.unwrap().speaker.name, "Living Room");
}

#[test]
fn test_speakers_in_group() {
    let snapshot = create_test_snapshot();
    let speakers = snapshot.speakers_in_group(&GroupId::new("RINCON_1:0"));
    assert_eq!(speakers.len(), 2);
}

#[test]
fn test_group_coordinator() {
    let snapshot = create_test_snapshot();
    let coordinator = snapshot.group_coordinator(&GroupId::new("RINCON_1:0"));
    assert!(coordinator.is_some());
    assert_eq!(coordinator.unwrap().speaker.name, "Living Room");
}

#[test]
fn test_speaker_by_name() {
    let snapshot = create_test_snapshot();
    let speaker = snapshot.speaker_by_name("Kitchen");
    assert!(speaker.is_some());
    assert_eq!(speaker.unwrap().get_id().as_str(), "RINCON_2");
}

#[test]
fn test_counts() {
    let snapshot = create_test_snapshot();
    assert_eq!(snapshot.speaker_count(), 2);
    assert_eq!(snapshot.group_count(), 1);
    assert!(!snapshot.is_empty());
}

#[test]
fn snapshot_speakers_by_room_and_missing_group() {
    let snapshot = create_test_snapshot();
    assert_eq!(snapshot.speakers_by_room("Kitchen").len(), 1);
    assert_eq!(snapshot.speakers_by_room("Garage").len(), 0);
    assert!(snapshot.group_coordinator(&GroupId::new("RINCON_9:0")).is_none());
    assert_eq!(snapshot.speakers_in_group(&GroupId::new("RINCON_9:0")).len(), 0);
    assert!(StateSnapshot::new().is_empty());
}

#[test]
fn test_state_event_creation() {
    let ip = parse_ip_addr("192.168.1.100").unwrap();
    let payload = StateEventPayload::Rendering { master_volume: Some(50), master_mute: Some(false) };
    let event = StateEvent::new(ip, payload);

    assert_eq!(event.speaker_ip, ip);
    assert!(matches!(event.payload, StateEventPayload::Rendering { .. }));
}

#[test]
fn test_speaker_info_debug() {
    let info = create_test_speaker();
    let debug_str = format!("{:?}", info);
    assert!(debug_str.contains("Living Room"));
    assert!(debug_str.contains("RINCON_123"));
}

#[test]
fn test_speaker_debug() {
    let info = speaker_with("test-speaker", "Living Room", "Living Room", "192.168.1.100", "Sonos One", "1.0");
    let debug_str = format!("{:?}", info);
    assert!(debug_str.contains("Living Room"));
    assert!(debug_str.contains("test-speaker"));
}
