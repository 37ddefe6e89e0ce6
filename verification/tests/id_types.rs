use sonos_state::ids::{GroupId, SpeakerId};

#[test]
fn test_speaker_id_strips_uuid_prefix() {
    let id = SpeakerId::new("uuid:RINCON_123456789");
    assert_eq!(id.as_str(), "RINCON_123456789");
}

#[test]
fn test_speaker_id_without_prefix() {
    let id = SpeakerId::new("RINCON_123456789");
    assert_eq!(id.as_str(), "RINCON_123456789");
}

#[test]
fn test_speaker_id_equality() {
    let id1 = SpeakerId::new("uuid:RINCON_123");
    let id2 = SpeakerId::new("RINCON_123");
    assert_eq!(id1, id2);
}

#[test]
fn test_group_id() {
    let id = GroupId::new("RINCON_123:0");
    assert_eq!(id.as_str(), "RINCON_123:0");
}

#[test]
fn id_types_test_display() {
    assert_eq!(SpeakerId::new("RINCON_123").to_display_string(), "RINCON_123");
    assert_eq!(GroupId::new("RINCON_123:0").to_display_string(), "RINCON_123:0");
}
