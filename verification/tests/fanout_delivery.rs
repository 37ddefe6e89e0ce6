use sonos_state::decoder::PropertyChange;
use sonos_state::fanout::{ChangeEvent, EventFanout};
use sonos_state::ids::SpeakerId;
use sonos_state::property::Volume;
use sonos_state::stamp::{ChangeSource, WriteStamp};

fn event_with_volume(v: u8) -> ChangeEvent {
    ChangeEvent::new(
        SpeakerId::new("test-speaker"),
        PropertyChange::Volume(Volume::new(v)),
        WriteStamp::now(ChangeSource::Event),
    )
}

fn create_test_event() -> ChangeEvent {
    event_with_volume(50)
}

fn volume_of(event: &ChangeEvent) -> u8 {
    match &event.change {
        PropertyChange::Volume(v) => v.value(),
        other => panic!("expected a Volume change, got {other:?}"),
    }
}

fn drain(fanout: &mut EventFanout, id: u64) -> Vec<ChangeEvent> {
    let mut out = Vec::new();
    while let Some(e) = fanout.take_next(id) {
        out.push(e);
    }
    out
}

#[test]
fn test_try_recv_empty() {
    let mut fanout = EventFanout::new();
    let id = fanout.subscribe();
    assert!(fanout.take_next(id).is_none());
}

#[test]
fn test_try_recv_with_event() {
    let mut fanout = EventFanout::new();
    let id = fanout.subscribe();

    fanout.send(&create_test_event());

    let event = fanout.take_next(id).unwrap();
    assert_eq!(event.property_key(), "volume");
    assert_eq!(event.speaker_id.as_str(), "test-speaker");

    assert!(fanout.take_next(id).is_none());
}

#[test]
fn test_try_iter() {
    let mut fanout = EventFanout::new();
    let id = fanout.subscribe();

    for _ in 0..3 {
        fanout.send(&create_test_event());
    }

    let events = drain(&mut fanout, id);
    assert_eq!(events.len(), 3);

    assert!(fanout.take_next(id).is_none());
}

#[test]
fn test_slow_subscriber_loses_no_events() {
    let mut fanout = EventFanout::new();
    let fast = fanout.subscribe();
    let slow = fanout.subscribe();

    for v in 0..100u8 {
        assert_eq!(fanout.send(&event_with_volume(v)), 2, "both subscribers must be delivered to");
    }

    let fast_seen: Vec<u8> = drain(&mut fanout, fast).iter().map(volume_of).collect();
    assert_eq!(fast_seen, (0..100u8).collect::<Vec<_>>());

    let slow_seen: Vec<u8> = drain(&mut fanout, slow).iter().map(volume_of).collect();
    assert_eq!(slow_seen, (0..100u8).collect::<Vec<_>>());
}

#[test]
fn test_dropped_iterator_deregisters_immediately() {
    let mut fanout = EventFanout::new();
    let keep = fanout.subscribe();
    let discard = fanout.subscribe();
    assert_eq!(fanout.subscriber_count(), 2);

    fanout.unsubscribe(discard);

    assert_eq!(fanout.subscriber_count(), 1, "an unsubscribed reader must be gone at once");

    assert_eq!(fanout.send(&event_with_volume(9)), 1);
    assert_eq!(volume_of(&fanout.take_next(keep).unwrap()), 9);
}

#[test]
fn unknown_subscriber_reads_nothing() {
    let mut fanout = EventFanout::new();
    let id = fanout.subscribe();
    fanout.send(&create_test_event());
    assert!(fanout.take_next(id + 7).is_none());
    assert!(fanout.take_next(id).is_some());
}

#[test]
fn subscriber_ids_are_fresh() {
    let mut fanout = EventFanout::new();
    let a = fanout.subscribe();
    let b = fanout.subscribe();
    assert_ne!(a, b);
    assert_eq!(fanout.next_id(), 2);
}
