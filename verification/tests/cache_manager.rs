use sonos_state::cache_manager::{StateManager, StateManagerConfig};
use sonos_state::events::{StateEvent, StateEventPayload};
use sonos_state::ids::SpeakerId;
use sonos_state::model::StateChange;
use sonos_state::net::parse_ip_addr;
use sonos_state::speaker::Speaker;

fn create_test_speaker() -> Speaker {
    Speaker {
        id: SpeakerId::new("RINCON_123"),
        name: "Test Speaker".to_string(),
        room_name: "Test Room".to_string(),
        ip_address: parse_ip_addr("192.168.1.100").unwrap(),
        port: 1400,
        model_name: "Sonos One".to_string(),
        software_version: "56.0".to_string(),
        boot_seq: 0,
        satellites: vec![],
    }
}

#[test]
fn test_manual_initialization() {
    let mut manager = StateManager::new(StateManagerConfig::default());

    manager.initialize(vec![create_test_speaker()], vec![]);

    assert_eq!(manager.cache().snapshot().speaker_count(), 1);
}

#[test]
fn manager_test_process_event() {
    let mut manager = StateManager::new(StateManagerConfig::default());

    manager.initialize(vec![create_test_speaker()], vec![]);

    let event = StateEvent::new(
        parse_ip_addr("192.168.1.100").unwrap(),
        StateEventPayload::Rendering { master_volume: Some(50), master_mute: None },
    );

    let changes = manager.process_event(event);

    assert_eq!(changes.len(), 1);
    assert!(matches!(changes[0], StateChange::VolumeChanged { .. }));
}

#[test]
fn manager_starts_empty_with_default_buffer() {
    let mut manager = StateManager::new(StateManagerConfig::default());
    assert!(manager.cache().snapshot().is_empty());
    assert_eq!(manager.config().change_buffer_size, 1000);
    assert!(manager.take_changes().is_empty());
}

#[test]
fn manager_initialize_emits_counts_once() {
    let mut manager = StateManager::new(StateManagerConfig::default());
    manager.initialize(vec![create_test_speaker()], vec![]);
    let changes = manager.take_changes();
    assert_eq!(changes.len(), 1);
    assert!(matches!(changes[0], StateChange::StateInitialized { speaker_count: 1, group_count: 0 }));
    assert!(manager.take_changes().is_empty());
}

#[test]
fn manager_event_from_unknown_address_changes_nothing() {
    let mut manager = StateManager::new(StateManagerConfig::default());
    manager.initialize(vec![create_test_speaker()], vec![]);
    let event = StateEvent::new(
        parse_ip_addr("10.0.0.9").unwrap(),
        StateEventPayload::Rendering { master_volume: Some(50), master_mute: None },
    );
    assert!(manager.process_event(event).is_empty());
    assert_eq!(manager.cache().get_speaker(&SpeakerId::new("RINCON_123")).unwrap().volume, 0);
}
