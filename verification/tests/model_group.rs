use sonos_state::ids::{GroupId, SpeakerId};
use sonos_state::model::{Group, PlaybackState, SpeakerRef, TrackInfo};

fn create_test_group() -> Group {
    let members = vec![
        SpeakerRef::new(SpeakerId::new("RINCON_1"), vec![]),
        SpeakerRef::new(SpeakerId::new("RINCON_2"), vec![]),
    ];
    Group::new(GroupId::new("RINCON_1:0"), SpeakerId::new("RINCON_1"), members)
}

#[test]
fn test_group_creation() {
    let group = create_test_group();
    assert_eq!(group.get_id().as_str(), "RINCON_1:0");
    assert_eq!(group.get_coordinator_id().as_str(), "RINCON_1");
    assert_eq!(group.member_count(), 2);
}

#[test]
fn test_is_standalone() {
    let standalone = Group::new(
        GroupId::new("RINCON_1:0"),
        SpeakerId::new("RINCON_1"),
        vec![SpeakerRef::new(SpeakerId::new("RINCON_1"), vec![])],
    );
    assert!(standalone.is_standalone());

    let grouped = create_test_group();
    assert!(!grouped.is_standalone());
}

#[test]
fn test_contains_speaker() {
    let group = create_test_group();
    assert!(group.contains_speaker(&SpeakerId::new("RINCON_1")));
    assert!(group.contains_speaker(&SpeakerId::new("RINCON_2")));
    assert!(!group.contains_speaker(&SpeakerId::new("RINCON_3")));
}

#[test]
fn test_speaker_ref_satellites() {
    let speaker_ref = SpeakerRef::new(
        SpeakerId::new("RINCON_1"),
        vec![SpeakerId::new("SAT_1"), SpeakerId::new("SAT_2")],
    );
    assert!(speaker_ref.has_satellites());
    assert_eq!(speaker_ref.get_satellites().len(), 2);
}

#[test]
fn group_id_test_new() {
    let id = GroupId::new("RINCON_123:0");
    assert_eq!(id.as_str(), "RINCON_123:0");
}

#[test]
fn group_id_test_equality() {
    let id1 = GroupId::new("group1");
    let id2 = GroupId::new("group1");
    assert_eq!(id1, id2);
}

#[test]
fn group_id_test_display() {
    let id = GroupId::new("RINCON_123:0");
    assert_eq!(id.to_display_string(), "RINCON_123:0");
}

#[test]
fn test_new_strips_uuid_prefix() {
    let id = SpeakerId::new("uuid:RINCON_123456789");
    assert_eq!(id.as_str(), "RINCON_123456789");
}

#[test]
fn test_new_without_prefix() {
    let id = SpeakerId::new("RINCON_123456789");
    assert_eq!(id.as_str(), "RINCON_123456789");
}

#[test]
fn speaker_id_test_equality() {
    let id1 = SpeakerId::new("uuid:RINCON_123");
    let id2 = SpeakerId::new("RINCON_123");
    assert_eq!(id1, id2);
}

#[test]
fn speaker_id_test_display() {
    let id = SpeakerId::new("RINCON_123");
    assert_eq!(id.to_display_string(), "RINCON_123");
}

#[test]
fn track_info_test_new() {
    let info = TrackInfo::new();
    assert!(info.title.is_none());
    assert!(info.is_empty());
}

#[test]
fn test_with_title() {
    let info = TrackInfo::with_title("Test Song");
    assert_eq!(info.title, Some("Test Song".to_string()));
    assert!(!info.is_empty());
}

#[test]
fn test_equality_by_uri() {
    let info1 = TrackInfo {
        uri: Some("x-sonos://123".to_string()),
        title: Some("Title 1".to_string()),
        ..Default::default()
    };
    let info2 = TrackInfo {
        uri: Some("x-sonos://123".to_string()),
        title: Some("Title 2".to_string()),
        ..Default::default()
    };
    assert_eq!(info1, info2);
}

#[test]
fn test_equality_by_title() {
    let info1 = TrackInfo {
        title: Some("Same Title".to_string()),
        artist: Some("Same Artist".to_string()),
        ..Default::default()
    };
    let info2 = TrackInfo {
        title: Some("Same Title".to_string()),
        artist: Some("Same Artist".to_string()),
        ..Default::default()
    };
    assert_eq!(info1, info2);
}

#[test]
fn test_from_transport_state_playing() {
    assert_eq!(PlaybackState::from_transport_state("PLAYING"), PlaybackState::Playing);
    assert_eq!(PlaybackState::from_transport_state("playing"), PlaybackState::Playing);
}

#[test]
fn test_from_transport_state_paused() {
    assert_eq!(PlaybackState::from_transport_state("PAUSED_PLAYBACK"), PlaybackState::Paused);
    assert_eq!(PlaybackState::from_transport_state("PAUSED"), PlaybackState::Paused);
}

#[test]
fn test_from_transport_state_stopped() {
    assert_eq!(PlaybackState::from_transport_state("STOPPED"), PlaybackState::Stopped);
}

#[test]
fn test_from_transport_state_transitioning() {
    assert_eq!(
        PlaybackState::from_transport_state("TRANSITIONING"),
        PlaybackState::Transitioning
    );
}

#[test]
fn test_from_transport_state_unknown() {
    assert_eq!(PlaybackState::from_transport_state("UNKNOWN"), PlaybackState::Stopped);
}

#[test]
fn test_default() {
    assert_eq!(PlaybackState::default(), PlaybackState::Stopped);
}
