use sonos_state::broker::{
    no_strategy_error, parse_failure_error, received_key, ActiveSubscription, RawEvent, ServiceType,
    SpeakerId, SubscriptionKey,
};

fn raw(xml: &str) -> RawEvent {
    RawEvent {
        subscription_id: "uuid:sub-1".to_string(),
        speaker_id: SpeakerId::new("RINCON_1"),
        service_type: ServiceType::AVTransport,
        event_xml: xml.to_string(),
    }
}

#[test]
fn no_strategy_error_names_service_and_available() {
    let e = no_strategy_error(ServiceType::AVTransport, &vec![]);
    assert!(e.contains("No strategy registered"));
    assert!(e.contains("Available strategies"));
    assert_eq!(e, "No strategy registered for service type: AVTransport. Available strategies: []");
    let e2 = no_strategy_error(
        ServiceType::ZoneGroupTopology,
        &vec![ServiceType::AVTransport, ServiceType::RenderingControl],
    );
    assert_eq!(
        e2,
        "No strategy registered for service type: ZoneGroupTopology. Available strategies: [AVTransport, RenderingControl]"
    );
}

#[test]
fn parse_failure_error_keeps_short_body() {
    let e = parse_failure_error("<invalid>xml</invalid>", "bad tag");
    assert!(e.contains("Parse failed for"));
    assert!(e.contains("bytes of XML"));
    assert!(e.contains("Original error"));
    assert_eq!(e, "Parse failed for 22 bytes of XML: <invalid>xml</invalid>. Original error: bad tag");
}

#[test]
fn parse_failure_error_previews_long_body() {
    let body = "x".repeat(150);
    let e = parse_failure_error(&body, "oops");
    let expected = format!("Parse failed for 150 bytes of XML: {}.... Original error: oops", "x".repeat(100));
    assert_eq!(e, expected);
}

#[test]
fn received_event_marks_its_subscription() {
    let ev = raw("<event/>");
    let key: SubscriptionKey = received_key(&ev);
    assert_eq!(key.speaker_id.as_str(), "RINCON_1");
    assert_eq!(key.service_type, ServiceType::AVTransport);

    let mut sub = ActiveSubscription::new(key, "uuid:sub-1".to_string(), 1_000, 100);
    assert!(sub.last_event.is_none());
    sub.mark_event_received(150);
    assert_eq!(sub.last_event, Some(150));
    assert!(!sub.needs_renewal(60, 150));
    assert!(sub.needs_renewal(60, 950));
    assert!(!sub.is_expired(999));
    assert!(sub.is_expired(1_000));
}
