use sonos_state::cache::StateCache;
use sonos_state::ids::SpeakerId;
use sonos_state::model::{PlaybackState, StateChange};
use sonos_state::net::parse_ip_addr;
use sonos_state::speaker::Speaker;

fn create_test_speaker(id: &str, name: &str, ip: &str) -> Speaker {
    Speaker {
        id: SpeakerId::new(id),
        name: name.to_string(),
        room_name: name.to_string(),
        ip_address: parse_ip_addr(ip).unwrap(),
        port: 1400,
        model_name: "Sonos One".to_string(),
        software_version: "56.0".to_string(),
        boot_seq: 0,
        satellites: vec![],
    }
}

#[test]
fn test_new_empty() {
    let cache = StateCache::new();
    assert!(cache.is_empty());
    assert_eq!(cache.speaker_count(), 0);
}

#[test]
fn state_cache_test_initialize() {
    let mut cache = StateCache::new();
    let speakers = vec![
        create_test_speaker("RINCON_1", "Living Room", "192.168.1.100"),
        create_test_speaker("RINCON_2", "Kitchen", "192.168.1.101"),
    ];
    cache.initialize(speakers, vec![]);

    assert_eq!(cache.speaker_count(), 2);
    assert!(cache.get_speaker(&SpeakerId::new("RINCON_1")).is_some());
}

#[test]
fn test_update_volume_change_detection() {
    let mut cache = StateCache::new();
    cache.initialize(vec![create_test_speaker("RINCON_1", "Test", "192.168.1.100")], vec![]);

    let id = SpeakerId::new("RINCON_1");

    let change = cache.update_volume(&id, 50);
    assert!(change.is_some());
    if let Some(StateChange::VolumeChanged { old_volume, new_volume, .. }) = change {
        assert_eq!(old_volume, 0);
        assert_eq!(new_volume, 50);
    }

    let no_change = cache.update_volume(&id, 50);
    assert!(no_change.is_none());

    let change2 = cache.update_volume(&id, 75);
    assert!(change2.is_some());
}

#[test]
fn test_update_playback_state_change_detection() {
    let mut cache = StateCache::new();
    cache.initialize(vec![create_test_speaker("RINCON_1", "Test", "192.168.1.100")], vec![]);

    let id = SpeakerId::new("RINCON_1");

    let change = cache.update_playback_state(&id, PlaybackState::Playing);
    assert!(change.is_some());
    if let Some(StateChange::PlaybackStateChanged { old_state, new_state, .. }) = change {
        assert_eq!(old_state, PlaybackState::Stopped);
        assert_eq!(new_state, PlaybackState::Playing);
    }
}

#[test]
fn cache_updates_on_unknown_speaker_change_nothing() {
    let mut cache = StateCache::new();
    let id = SpeakerId::new("RINCON_404");
    assert!(cache.update_volume(&id, 10).is_none());
    assert!(cache.update_mute(&id, true).is_none());
    assert!(cache.is_empty());
}

#[test]
fn cache_remove_then_get_is_none() {
    let mut cache = StateCache::new();
    cache.initialize(vec![create_test_speaker("RINCON_1", "Test", "192.168.1.100")], vec![]);
    let id = SpeakerId::new("RINCON_1");
    assert!(cache.remove_speaker(&id).is_some());
    assert!(cache.get_speaker(&id).is_none());
    assert!(cache.remove_speaker(&id).is_none());
}
