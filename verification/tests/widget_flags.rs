use sonos_state::change_stream::{convert_state_change, StateChange};
use sonos_state::ids::{GroupId, SpeakerId};
use sonos_state::property::{PropertyKind, Service};
use sonos_state::widget::WidgetFlags;

fn volume_change(speaker: &str) -> StateChange {
    StateChange::SpeakerPropertyChanged {
        speaker_id: SpeakerId::new(speaker),
        property_key: "volume",
        service: Service::RenderingControl,
    }
}

#[test]
fn first_ask_reports_no_change_and_creates_flag() {
    let mut flags = WidgetFlags::new();
    let a = SpeakerId::new("a");
    assert!(flags.needs_watcher(&a, PropertyKind::Volume));
    flags.add_watcher(&a, PropertyKind::Volume);
    assert!(!flags.needs_watcher(&a, PropertyKind::Volume));
    assert_eq!(flags.cached_watcher_count(), 1);
    assert!(!flags.take_changed(&a, PropertyKind::Volume));
    assert!(!flags.has_any_changes());
}

#[test]
fn device_change_marks_only_that_speaker() {
    let mut flags = WidgetFlags::new();
    let a = SpeakerId::new("a");
    let b = SpeakerId::new("b");
    flags.take_changed(&a, PropertyKind::Volume);
    flags.take_changed(&a, PropertyKind::Mute);
    flags.take_changed(&b, PropertyKind::Volume);

    flags.process_changes(&vec![convert_state_change(volume_change("a"))]);
    assert!(flags.has_any_changes());
    assert!(flags.take_changed(&a, PropertyKind::Volume));
    assert!(flags.take_changed(&a, PropertyKind::Mute));
    assert!(!flags.take_changed(&b, PropertyKind::Volume));
    // Taking a flag clears it.
    assert!(!flags.take_changed(&a, PropertyKind::Volume));
}

#[test]
fn topology_and_group_changes_mark_everything() {
    let mut flags = WidgetFlags::new();
    let a = SpeakerId::new("a");
    let b = SpeakerId::new("b");
    flags.take_changed(&a, PropertyKind::Volume);
    flags.take_changed(&b, PropertyKind::Volume);

    flags.process_changes(&vec![convert_state_change(StateChange::GroupAdded { group_id: GroupId::new("g") })]);
    assert!(flags.take_changed(&a, PropertyKind::Volume));
    assert!(flags.take_changed(&b, PropertyKind::Volume));
}

#[test]
fn clearing_flags_keeps_watchers() {
    let mut flags = WidgetFlags::new();
    let a = SpeakerId::new("a");
    flags.add_watcher(&a, PropertyKind::Volume);
    flags.take_changed(&a, PropertyKind::Volume);
    flags.process_changes(&vec![convert_state_change(volume_change("a"))]);
    assert!(flags.has_any_changes());
    flags.clear_change_flags();
    assert!(!flags.has_any_changes());
    assert_eq!(flags.cached_watcher_count(), 1);
}
