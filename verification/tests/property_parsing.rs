use sonos_state::logging::LoggingMode;
use sonos_state::processor::parse_time_to_ms;
use sonos_state::property::{Bass, CurrentTrack, Mute, PlaybackState, Position, Volume};
use sonos_state::xml::{escape_xml, extract_xml_value, unescape_xml};

#[test]
fn test_escape_xml() {
    assert_eq!(escape_xml("a & b"), "a &amp; b");
    assert_eq!(escape_xml("<tag>"), "&lt;tag&gt;");
}

#[test]
fn test_logging_mode_debug() {
    let _ = format!("{:?}", LoggingMode::Debug);
}

#[test]
fn test_parse_time_to_ms() {
    assert_eq!(parse_time_to_ms("0:00:00"), Some(0));
    assert_eq!(parse_time_to_ms("0:01:00"), Some(60_000));
    assert_eq!(parse_time_to_ms("1:00:00"), Some(3_600_000));
    assert_eq!(parse_time_to_ms("0:03:45"), Some(225_000));
    assert_eq!(parse_time_to_ms("0:03:45.500"), Some(225_500));
    assert_eq!(parse_time_to_ms("NOT_IMPLEMENTED"), None);
    assert_eq!(parse_time_to_ms("invalid"), None);
}

#[test]
fn test_extract_xml_value() {
    let xml = r#"<DIDL-Lite><item><dc:title>Test Song</dc:title></item></DIDL-Lite>"#;
    assert_eq!(extract_xml_value(xml, "dc:title"), Some("Test Song".to_string()));

    let xml2 = r#"<item><dc:creator>Test Artist</dc:creator></item>"#;
    assert_eq!(extract_xml_value(xml2, "dc:creator"), Some("Test Artist".to_string()));
}

#[test]
fn test_extract_xml_value_with_entities() {
    let xml = r#"<dc:title>Rock &amp; Roll</dc:title>"#;
    assert_eq!(extract_xml_value(xml, "dc:title"), Some("Rock & Roll".to_string()));
}

#[test]
fn test_unescape_xml() {
    assert_eq!(unescape_xml("a &amp; b"), "a & b");
    assert_eq!(unescape_xml("&lt;tag&gt;"), "<tag>");
}

#[test]
fn test_volume_clamping() {
    assert_eq!(Volume::new(50).value(), 50);
    assert_eq!(Volume::new(150).value(), 100);
    assert_eq!(Volume::new(0).value(), 0);
}

#[test]
fn test_bass_clamping() {
    assert_eq!(Bass::new(0).value(), 0);
    assert_eq!(Bass::new(-15).value(), -10);
    assert_eq!(Bass::new(15).value(), 10);
}

#[test]
fn test_playback_state_parsing() {
    assert_eq!(PlaybackState::from_transport_state("PLAYING"), PlaybackState::Playing);
    assert_eq!(PlaybackState::from_transport_state("PAUSED_PLAYBACK"), PlaybackState::Paused);
    assert_eq!(PlaybackState::from_transport_state("STOPPED"), PlaybackState::Stopped);
    assert_eq!(PlaybackState::from_transport_state("unknown"), PlaybackState::Stopped);
}

#[test]
fn test_position_time_parsing() {
    assert_eq!(Position::parse_time_to_ms("0:00:00"), Some(0));
    assert_eq!(Position::parse_time_to_ms("0:01:00"), Some(60_000));
    assert_eq!(Position::parse_time_to_ms("1:00:00"), Some(3_600_000));
    assert_eq!(Position::parse_time_to_ms("0:03:45"), Some(225_000));
    assert_eq!(Position::parse_time_to_ms("0:03:45.500"), Some(225_500));
    assert_eq!(Position::parse_time_to_ms("NOT_IMPLEMENTED"), None);
}

#[test]
fn test_current_track_display() {
    let track = CurrentTrack {
        title: Some("Song".to_string()),
        artist: Some("Artist".to_string()),
        album: None,
        album_art_uri: None,
        uri: None,
    };
    assert_eq!(track.display(), "Artist - Song");

    let title_only = CurrentTrack {
        title: Some("Song".to_string()),
        artist: None,
        album: None,
        album_art_uri: None,
        uri: None,
    };
    assert_eq!(title_only.display(), "Song");
}

#[test]
fn test_property_keys() {
    assert_eq!(Volume::KEY, "volume");
    assert_eq!(Mute::KEY, "mute");
    assert_eq!(PlaybackState::KEY, "playback_state");
}

#[test]
fn escape_then_unescape_gives_text_back() {
    for s in ["a < b > c", "say \"hi\" and 'bye'", "<tag attr='1'>x</tag>", "plain", ""] {
        assert_eq!(unescape_xml(&escape_xml(s)), s);
    }
    assert_eq!(unescape_xml("a &amp; b"), "a & b");
    assert_eq!(unescape_xml("&lt;tag&gt;"), "<tag>");
}
