use sonos_state::change_stream::{
    convert_state_change, ChangeContext, ChangeEvent, ChangeFilter, ChangeStream, ChangeType,
    ChangeTypeFilter, RerenderScope, StateChange,
};
use sonos_state::ids::SpeakerId;
use sonos_state::property::Service;

fn create_test_state_change() -> StateChange {
    StateChange::SpeakerPropertyChanged {
        speaker_id: SpeakerId::new("test_speaker"),
        property_key: "volume",
        service: Service::RenderingControl,
    }
}

fn device_event(speaker: &str, property: &'static str, service: Service, rerender: bool) -> ChangeEvent {
    ChangeEvent {
        timestamp: 0,
        change_type: ChangeType::DeviceProperty {
            speaker_id: SpeakerId::new(speaker),
            property_name: property,
            service,
        },
        context: ChangeContext {
            description: "Test".to_string(),
            requires_rerender: rerender,
            rerender_scope: RerenderScope::Device(SpeakerId::new(speaker)),
        },
    }
}

#[test]
fn test_change_event_conversion() {
    let state_change = create_test_state_change();
    let change_event = convert_state_change(state_change);

    match change_event.change_type {
        ChangeType::DeviceProperty { speaker_id, property_name, service } => {
            assert_eq!(speaker_id.as_str(), "test_speaker");
            assert_eq!(property_name, "volume");
            assert_eq!(service, Service::RenderingControl);
        }
        _ => panic!("Expected DeviceProperty change type"),
    }

    assert!(change_event.context.requires_rerender);
    assert!(matches!(change_event.context.rerender_scope, RerenderScope::Device(_)));
    assert!(change_event.context.description.contains("Volume changed"));
}

#[test]
fn test_change_event_rerender_hints() {
    let volume_change = StateChange::SpeakerPropertyChanged {
        speaker_id: SpeakerId::new("test"),
        property_key: "volume",
        service: Service::RenderingControl,
    };
    let event = convert_state_change(volume_change);
    assert!(event.context.requires_rerender);

    let position_change = StateChange::SpeakerPropertyChanged {
        speaker_id: SpeakerId::new("test"),
        property_key: "position",
        service: Service::AVTransport,
    };
    let event = convert_state_change(position_change);
    assert!(!event.context.requires_rerender);

    let device_added = StateChange::SpeakerAdded { speaker_id: SpeakerId::new("new_device") };
    let event = convert_state_change(device_added);
    assert!(event.context.requires_rerender);
    assert!(matches!(event.context.rerender_scope, RerenderScope::Full));
}

#[test]
fn test_change_filter_speaker_matching() {
    let filter = ChangeFilter::for_speaker(SpeakerId::new("target_speaker"));

    let matching_change = device_event("target_speaker", "volume", Service::RenderingControl, true);
    assert!(filter.matches(&matching_change));

    let non_matching_change = device_event("other_speaker", "volume", Service::RenderingControl, true);
    assert!(!filter.matches(&non_matching_change));
}

#[test]
fn test_change_filter_rerender_only() {
    let filter = ChangeFilter::rerender_only();

    let rerender_change = device_event("test", "volume", Service::RenderingControl, true);
    assert!(filter.matches(&rerender_change));

    let no_rerender_change = device_event("test", "position", Service::AVTransport, false);
    assert!(!filter.matches(&no_rerender_change));
}

#[test]
fn test_change_filter_service_matching() {
    let filter = ChangeFilter::for_services(vec![Service::RenderingControl]);

    let matching_change = device_event("test", "volume", Service::RenderingControl, true);
    assert!(filter.matches(&matching_change));

    let non_matching_change = device_event("test", "playback_state", Service::AVTransport, true);
    assert!(!filter.matches(&non_matching_change));
}

#[test]
fn test_change_filter_property_matching() {
    let filter = ChangeFilter::for_properties(vec!["volume", "mute"]);

    let matching_change = device_event("test", "volume", Service::RenderingControl, true);
    assert!(filter.matches(&matching_change));

    let non_matching_change = device_event("test", "playback_state", Service::AVTransport, true);
    assert!(!filter.matches(&non_matching_change));
}

#[test]
fn test_change_type_filter_matching() {
    let filter = ChangeFilter {
        change_types: Some(vec![ChangeTypeFilter::DeviceProperty]),
        ..ChangeFilter::new()
    };

    let device_change = device_event("test", "volume", Service::RenderingControl, true);
    assert!(filter.matches(&device_change));

    let lifecycle_change = ChangeEvent {
        timestamp: 0,
        change_type: ChangeType::DeviceAdded { speaker_id: SpeakerId::new("test") },
        context: ChangeContext {
            description: "Test".to_string(),
            requires_rerender: true,
            rerender_scope: RerenderScope::Full,
        },
    };
    assert!(!filter.matches(&lifecycle_change));
}

#[test]
fn stream_filtered_rerender_only_drops_position_changes() {
    let stream = ChangeStream::filtered(ChangeFilter::rerender_only());
    let rerender_change = StateChange::SpeakerPropertyChanged {
        speaker_id: SpeakerId::new("test"),
        property_key: "volume",
        service: Service::RenderingControl,
    };
    let accepted = stream.accept(rerender_change);
    assert!(accepted.is_some());
    assert!(accepted.unwrap().context.requires_rerender);

    let no_rerender_change = StateChange::SpeakerPropertyChanged {
        speaker_id: SpeakerId::new("test"),
        property_key: "position",
        service: Service::AVTransport,
    };
    assert!(stream.accept(no_rerender_change).is_none());
}

#[test]
fn unfiltered_stream_yields_every_change() {
    let stream = ChangeStream::new();
    let event = stream.accept(create_test_state_change()).unwrap();
    assert!(matches!(event.change_type, ChangeType::DeviceProperty { .. }));
}

#[test]
fn empty_filter_matches_everything() {
    let filter = ChangeFilter::new();
    assert!(filter.matches(&device_event("a", "volume", Service::RenderingControl, false)));
}
