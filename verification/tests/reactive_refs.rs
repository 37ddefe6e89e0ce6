use sonos_state::error::StateError;
use sonos_state::ids::SpeakerId;
use sonos_state::manager::Device;
use sonos_state::net::parse_ip_addr;
use sonos_state::property::{Mute, Service, Volume};
use sonos_state::reactive::{ReactiveCore, SubscriptionKey, SubscriptionRefs};

fn key(ip: &str, service: Service) -> SubscriptionKey {
    SubscriptionKey { speaker_ip: parse_ip_addr(ip).unwrap(), service }
}

fn device(id: &str, name: &str, addr: &str) -> Device {
    Device {
        id: id.to_string(),
        name: name.to_string(),
        room_name: name.to_string(),
        ip_address: addr.to_string(),
        port: 1400,
        model_name: "Sonos One".to_string(),
    }
}

#[test]
fn refs_count_up_and_release_on_last() {
    let mut refs = SubscriptionRefs::new();
    let k = key("192.168.1.100", Service::RenderingControl);
    assert!(refs.needs_subscription(&k));
    assert!(refs.ensure_subscription(&k, Ok(())).is_ok());
    assert!(!refs.needs_subscription(&k));
    // A second watcher shares the subscription; the outcome is not consulted.
    assert!(refs.ensure_subscription(&k, Err("unused".to_string())).is_ok());
    assert_eq!(refs.get_subscription_ref_count(&k), 2);
    assert!(!refs.release_subscription(&k));
    assert!(refs.release_subscription(&k));
    assert_eq!(refs.get_subscription_ref_count(&k), 0);
    assert!(!refs.release_subscription(&k));
}

#[test]
fn first_subscription_failure_is_reported() {
    let mut refs = SubscriptionRefs::new();
    let k = key("192.168.1.100", Service::AVTransport);
    match refs.ensure_subscription(&k, Err("timeout".to_string())) {
        Err(StateError::SubscriptionFailed(msg)) => {
            assert_eq!(msg, "Failed to subscribe to AVTransport: timeout")
        }
        other => panic!("expected SubscriptionFailed, got {other:?}"),
    }
    assert_eq!(refs.get_subscription_ref_count(&k), 0);
    assert!(refs.subscription_stats().is_empty());
}

#[test]
fn speaker_addresses_are_recorded() {
    let mut refs = SubscriptionRefs::new();
    let id = SpeakerId::new("RINCON_1");
    assert!(refs.get_speaker_ip(&id).is_none());
    refs.register_speaker(SpeakerId::new("RINCON_1"), parse_ip_addr("10.0.0.5").unwrap());
    assert_eq!(refs.get_speaker_ip(&id), Some(parse_ip_addr("10.0.0.5").unwrap()));
}

#[test]
fn core_registers_devices_and_keys_watchers() {
    let mut core = ReactiveCore::new();
    core.register_devices(vec![device("RINCON_1", "Kitchen", "192.168.1.50")]).unwrap();
    let id = SpeakerId::new("RINCON_1");
    let k = core.watch_key::<Volume>(&id).unwrap();
    assert_eq!(k, key("192.168.1.50", Service::RenderingControl));
    match core.watch_key::<Mute>(&SpeakerId::new("RINCON_9")) {
        Err(StateError::SpeakerNotFound(missing)) => assert_eq!(missing.as_str(), "RINCON_9"),
        other => panic!("expected SpeakerNotFound, got {other:?}"),
    }
}

#[test]
fn core_rejects_bad_address_keeping_earlier_devices() {
    let mut core = ReactiveCore::new();
    let r = core.register_devices(vec![
        device("RINCON_1", "Kitchen", "192.168.1.50"),
        device("RINCON_2", "Den", "not-an-ip"),
    ]);
    match r {
        Err(StateError::InvalidIpAddress(s)) => assert_eq!(s, "not-an-ip"),
        other => panic!("expected InvalidIpAddress, got {other:?}"),
    }
    assert!(core.watch_key::<Volume>(&SpeakerId::new("RINCON_1")).is_ok());
    assert!(core.watch_key::<Volume>(&SpeakerId::new("RINCON_2")).is_err());
}

#[test]
fn core_update_then_get_property() {
    let mut core = ReactiveCore::new();
    core.register_devices(vec![device("RINCON_1", "Kitchen", "192.168.1.50")]).unwrap();
    let id = SpeakerId::new("RINCON_1");
    assert!(core.get_property::<Volume>(&id).is_none());
    core.update_property(&id, Volume::new(42));
    assert_eq!(core.get_property::<Volume>(&id), Some(Volume::new(42)));
}
