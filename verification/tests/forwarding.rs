use connect_bridge::event::create_js_obj_from_event;
use connect_bridge::event::PlayerEvent;
use connect_bridge::forwarder::forward_event;
use connect_bridge::forwarder::Forward;
use connect_bridge::record::FieldValue;
use connect_bridge::track::TrackId;
use connect_bridge::track::TrackKind;

fn track() -> TrackId {
    TrackId { id: 238762092608182713602505436543891614649, kind: TrackKind::Track }
}

#[test]
fn events_are_delivered_in_emission_order() {
    let stream = vec![
        Some(PlayerEvent::Started { play_request_id: 1, track_id: track(), position_ms: 0 }),
        Some(PlayerEvent::Playing {
            play_request_id: 1,
            track_id: track(),
            position_ms: 0,
            duration_ms: 1000,
        }),
        Some(PlayerEvent::Paused {
            play_request_id: 1,
            track_id: track(),
            position_ms: 500,
            duration_ms: 1000,
        }),
        Some(PlayerEvent::EndOfTrack { play_request_id: 1, track_id: track() }),
        None,
        Some(PlayerEvent::VolumeSet { volume: 1 }),
    ];
    let mut tags: Vec<String> = Vec::new();
    for message in stream {
        match forward_event(message) {
            Forward::Deliver(record) => match record.get("event") {
                Some(FieldValue::Text(tag)) => tags.push(tag.clone()),
                other => panic!("no tag: {:?}", other),
            },
            Forward::Exit => break,
        }
    }
    assert_eq!(tags, vec!["started", "playing", "paused", "ended"]);
}

#[test]
fn forwarded_record_is_the_encoded_event() {
    let event = PlayerEvent::Paused {
        play_request_id: 4,
        track_id: track(),
        position_ms: 7,
        duration_ms: 9,
    };
    assert_eq!(forward_event(Some(event)), Forward::Deliver(create_js_obj_from_event(event)));
}

#[test]
fn end_of_stream_ends_the_forwarder() {
    assert_eq!(forward_event(None), Forward::Exit);
}
