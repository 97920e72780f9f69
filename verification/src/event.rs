//! Player events and their encoding as host records.

use crate::record::has_name;
use crate::record::lemma_lookup_is_unique;
use crate::record::lookup;
use crate::record::named_at;
use crate::record::names_distinct;
use crate::record::Entry;
use crate::record::EventRecord;
use crate::record::FieldValue;
use crate::record::Value;
use crate::track::render_uri;
use crate::track::rendered_uri;
use crate::track::text_of;
use crate::track::uri_field;
use crate::track::uri_or_empty;
use crate::track::TrackId;
use vstd::prelude::*;

verus! {

/// A state change reported by the playback session.
#[derive(Clone, Copy, Debug, PartialEq, Eq, Structural)]
pub enum PlayerEvent {
    Stopped { play_request_id: u64, track_id: TrackId },
    Started { play_request_id: u64, track_id: TrackId, position_ms: u32 },
    Changed { old_track_id: TrackId, new_track_id: TrackId },
    Loading { play_request_id: u64, track_id: TrackId, position_ms: u32 },
    Preloading { track_id: TrackId },
    Playing { play_request_id: u64, track_id: TrackId, position_ms: u32, duration_ms: u32 },
    Paused { play_request_id: u64, track_id: TrackId, position_ms: u32, duration_ms: u32 },
    TimeToPreloadNextTrack { play_request_id: u64, track_id: TrackId },
    EndOfTrack { play_request_id: u64, track_id: TrackId },
    Unavailable { play_request_id: u64, track_id: TrackId },
    VolumeSet { volume: u16 },
}

/// A text field.
pub open spec fn text_entry(name: Seq<char>, text: Seq<char>) -> Entry {
    Entry { name, value: Value::Text(text) }
}

/// A numeric field.
pub open spec fn number_entry(name: Seq<char>, n: u64) -> Entry {
    Entry { name, value: Value::Number(n) }
}

/// The fields shared by most events: the tag, the play request and the track.
/// `track_uri` is the outcome of rendering the track identifier.
pub open spec fn default_fields(
    event: Seq<char>,
    play_request_id: u64,
    track_uri: Option<Seq<char>>,
) -> Seq<Entry> {
    seq![
        text_entry("event"@, event),
        number_entry("play_request_id"@, play_request_id),
        text_entry("track_id"@, uri_or_empty(track_uri)),
    ]
}

/// The fields of an event that carries a volume and nothing else.
pub open spec fn volume_fields(event: Seq<char>, volume: u16) -> Seq<Entry> {
    seq![text_entry("event"@, event), number_entry("volume"@, volume as u64)]
}

/// The fields of an event that replaces one track by another.
pub open spec fn track_change_fields(
    event: Seq<char>,
    old_track_uri: Option<Seq<char>>,
    new_track_uri: Option<Seq<char>>,
) -> Seq<Entry> {
    seq![
        text_entry("event"@, event),
        text_entry("old_track_id"@, uri_or_empty(old_track_uri)),
        text_entry("new_track_id"@, uri_or_empty(new_track_uri)),
    ]
}

/// The default fields followed by a position.
pub open spec fn started_fields(
    event: Seq<char>,
    play_request_id: u64,
    track_uri: Option<Seq<char>>,
    position_ms: u32,
) -> Seq<Entry> {
    default_fields(event, play_request_id, track_uri).push(
        number_entry("position_ms"@, position_ms as u64),
    )
}

/// The default fields followed by a position and a duration.
pub open spec fn play_pause_fields(
    event: Seq<char>,
    play_request_id: u64,
    track_uri: Option<Seq<char>>,
    position_ms: u32,
    duration_ms: u32,
) -> Seq<Entry> {
    started_fields(event, play_request_id, track_uri, position_ms).push(
        number_entry("duration_ms"@, duration_ms as u64),
    )
}

/// The tag under which an event is reported to the host.
pub open spec fn event_tag(event: PlayerEvent) -> Seq<char> {
    match event {
        PlayerEvent::Stopped { .. } => "stopped"@,
        PlayerEvent::Started { .. } => "started"@,
        PlayerEvent::Changed { .. } => "changed"@,
        PlayerEvent::Loading { .. } => "loading"@,
        PlayerEvent::Preloading { .. } => "preloading"@,
        PlayerEvent::Playing { .. } => "playing"@,
        PlayerEvent::Paused { .. } => "paused"@,
        PlayerEvent::TimeToPreloadNextTrack { .. } => "preload"@,
        PlayerEvent::EndOfTrack { .. } => "ended"@,
        PlayerEvent::Unavailable { .. } => "unavailable"@,
        PlayerEvent::VolumeSet { .. } => "volume"@,
    }
}

/// The record that stands for an event.
pub open spec fn encoded(event: PlayerEvent) -> Seq<Entry> {
    let tag = event_tag(event);
    match event {
        PlayerEvent::Stopped { play_request_id, track_id } => default_fields(
            tag,
            play_request_id,
            rendered_uri(track_id),
        ),
        PlayerEvent::Started { play_request_id, track_id, position_ms } => started_fields(
            tag,
            play_request_id,
            rendered_uri(track_id),
            position_ms,
        ),
        PlayerEvent::Changed { old_track_id, new_track_id } => track_change_fields(
            tag,
            rendered_uri(old_track_id),
            rendered_uri(new_track_id),
        ),
        PlayerEvent::Loading { play_request_id, track_id, position_ms } => started_fields(
            tag,
            play_request_id,
            rendered_uri(track_id),
            position_ms,
        ),
        PlayerEvent::Preloading { track_id } => default_fields(tag, 0, rendered_uri(track_id)),
        PlayerEvent::Playing {
            play_request_id,
            track_id,
            position_ms,
            duration_ms,
        } => play_pause_fields(
            tag,
            play_request_id,
            rendered_uri(track_id),
            position_ms,
            duration_ms,
        ),
        PlayerEvent::Paused {
            play_request_id,
            track_id,
            position_ms,
            duration_ms,
        } => play_pause_fields(
            tag,
            play_request_id,
            rendered_uri(track_id),
            position_ms,
            duration_ms,
        ),
        PlayerEvent::TimeToPreloadNextTrack { play_request_id, track_id } => default_fields(
            tag,
            play_request_id,
            rendered_uri(track_id),
        ),
        PlayerEvent::EndOfTrack { play_request_id, track_id } => default_fields(
            tag,
            play_request_id,
            rendered_uri(track_id),
        ),
        PlayerEvent::Unavailable { play_request_id, track_id } => default_fields(
            tag,
            play_request_id,
            rendered_uri(track_id),
        ),
        PlayerEvent::VolumeSet { volume } => volume_fields(tag, volume),
    }
}

/// The field names of a record differ from one another.
proof fn lemma_field_names_differ()
    ensures
        "event"@ != "play_request_id"@,
        "event"@ != "track_id"@,
        "event"@ != "position_ms"@,
        "event"@ != "duration_ms"@,
        "event"@ != "volume"@,
        "event"@ != "old_track_id"@,
        "event"@ != "new_track_id"@,
        "play_request_id"@ != "track_id"@,
        "play_request_id"@ != "position_ms"@,
        "play_request_id"@ != "duration_ms"@,
        "track_id"@ != "position_ms"@,
        "track_id"@ != "duration_ms"@,
        "position_ms"@ != "duration_ms"@,
        "old_track_id"@ != "new_track_id"@,
        "play_request_id"@ != "old_track_id"@,
        "play_request_id"@ != "new_track_id"@,
        "play_request_id"@ != "volume"@,
        "track_id"@ != "volume"@,
        "track_id"@ != "old_track_id"@,
        "track_id"@ != "new_track_id"@,
{
    reveal_strlit("event");
    reveal_strlit("play_request_id");
    reveal_strlit("track_id");
    reveal_strlit("position_ms");
    reveal_strlit("duration_ms");
    reveal_strlit("volume");
    reveal_strlit("old_track_id");
    reveal_strlit("new_track_id");
    assert("event"@.len() == 5);
    assert("play_request_id"@.len() == 15);
    assert("track_id"@.len() == 8);
    assert("position_ms"@.len() == 11);
    assert("duration_ms"@.len() == 11);
    assert("volume"@.len() == 6);
    assert("old_track_id"@.len() == 12);
    assert("new_track_id"@.len() == 12);
    assert("position_ms"@[0] != "duration_ms"@[0]);
    assert("old_track_id"@[0] != "new_track_id"@[0]);
}

/// Builds the record of the default fields.
pub fn default_to_obj(event: String, play_request_id: u64, track_uri: Option<String>) -> (record:
    EventRecord)
    ensures
        record@ == default_fields(event@, play_request_id, text_of(track_uri)),
{
    let mut record = EventRecord::new();
    proof {
        lemma_field_names_differ();
    }
    record.set("event".to_owned(), FieldValue::Text(event));
    assert(record@ =~= seq![text_entry("event"@, event@)]);
    record.set("play_request_id".to_owned(), FieldValue::Number(play_request_id));
    assert(record@ =~= seq![
        text_entry("event"@, event@),
        number_entry("play_request_id"@, play_request_id),
    ]);
    record.set("track_id".to_owned(), FieldValue::Text(uri_field(track_uri)));
    assert(record@ =~= default_fields(event@, play_request_id, text_of(track_uri)));
    record
}

/// Builds the record of a volume event.
pub fn volume_to_obj(event: String, volume: u16) -> (record: EventRecord)
    ensures
        record@ == volume_fields(event@, volume),
{
    let mut record = EventRecord::new();
    proof {
        lemma_field_names_differ();
    }
    record.set("event".to_owned(), FieldValue::Text(event));
    assert(record@ =~= seq![text_entry("event"@, event@)]);
    record.set("volume".to_owned(), FieldValue::Number(volume as u64));
    assert(record@ =~= volume_fields(event@, volume));
    record
}

/// Builds the record of a change from one track to another.
pub fn track_change_to_obj(
    event: String,
    old_track_uri: Option<String>,
    new_track_uri: Option<String>,
) -> (record: EventRecord)
    ensures
        record@ == track_change_fields(event@, text_of(old_track_uri), text_of(new_track_uri)),
{
    let mut record = EventRecord::new();
    proof {
        lemma_field_names_differ();
    }
    record.set("event".to_owned(), FieldValue::Text(event));
    assert(record@ =~= seq![text_entry("event"@, event@)]);
    record.set("old_track_id".to_owned(), FieldValue::Text(uri_field(old_track_uri)));
    assert(record@ =~= seq![
        text_entry("event"@, event@),
        text_entry("old_track_id"@, uri_or_empty(text_of(old_track_uri))),
    ]);
    record.set("new_track_id".to_owned(), FieldValue::Text(uri_field(new_track_uri)));
    assert(record@ =~= track_change_fields(
        event@,
        text_of(old_track_uri),
        text_of(new_track_uri),
    ));
    record
}

/// Builds the record of the default fields and a position.
pub fn started_to_obj(
    event: String,
    play_request_id: u64,
    track_uri: Option<String>,
    position_ms: u32,
) -> (record: EventRecord)
    ensures
        record@ == started_fields(event@, play_request_id, text_of(track_uri), position_ms),
{
    let mut record = default_to_obj(event, play_request_id, track_uri);
    proof {
        lemma_field_names_differ();
    }
    record.set("position_ms".to_owned(), FieldValue::Number(position_ms as u64));
    record
}

/// Builds the record of the default fields, a position and a duration.
pub fn play_pause_to_obj(
    event: String,
    play_request_id: u64,
    track_uri: Option<String>,
    position_ms: u32,
    duration_ms: u32,
) -> (record: EventRecord)
    ensures
        record@ == play_pause_fields(
            event@,
            play_request_id,
            text_of(track_uri),
            position_ms,
            duration_ms,
        ),
{
    let mut record = started_to_obj(event, play_request_id, track_uri, position_ms);
    proof {
        lemma_field_names_differ();
    }
    record.set("duration_ms".to_owned(), FieldValue::Number(duration_ms as u64));
    record
}

/// Encodes an event as the record that the host receives. Track identifiers
/// are rendered to their canonical URI; one that fails to render is reported
/// as the empty string.
pub fn create_js_obj_from_event(event: PlayerEvent) -> (record: EventRecord)
    ensures
        record@ == encoded(event),
{
    match event {
        PlayerEvent::Stopped { play_request_id, track_id } => default_to_obj(
            "stopped".to_owned(),
            play_request_id,
            render_uri(track_id),
        ),
        PlayerEvent::Started { play_request_id, track_id, position_ms } => started_to_obj(
            "started".to_owned(),
            play_request_id,
            render_uri(track_id),
            position_ms,
        ),
        PlayerEvent::Changed { old_track_id, new_track_id } => track_change_to_obj(
            "changed".to_owned(),
            render_uri(old_track_id),
            render_uri(new_track_id),
        ),
        PlayerEvent::Loading { play_request_id, track_id, position_ms } => started_to_obj(
            "loading".to_owned(),
            play_request_id,
            render_uri(track_id),
            position_ms,
        ),
        PlayerEvent::Preloading { track_id } => default_to_obj(
            "preloading".to_owned(),
            0,
            render_uri(track_id),
        ),
        PlayerEvent::Playing {
            play_request_id,
            track_id,
            position_ms,
            duration_ms,
        } => play_pause_to_obj(
            "playing".to_owned(),
            play_request_id,
            render_uri(track_id),
            position_ms,
            duration_ms,
        ),
        PlayerEvent::Paused {
            play_request_id,
            track_id,
            position_ms,
            duration_ms,
        } => play_pause_to_obj(
            "paused".to_owned(),
            play_request_id,
            render_uri(track_id),
            position_ms,
            duration_ms,
        ),
        PlayerEvent::TimeToPreloadNextTrack { play_request_id, track_id } => default_to_obj(
            "preload".to_owned(),
            play_request_id,
            render_uri(track_id),
        ),
        PlayerEvent::EndOfTrack { play_request_id, track_id } => default_to_obj(
            "ended".to_owned(),
            play_request_id,
            render_uri(track_id),
        ),
        PlayerEvent::Unavailable { play_request_id, track_id } => default_to_obj(
            "unavailable".to_owned(),
            play_request_id,
            render_uri(track_id),
        ),
        PlayerEvent::VolumeSet { volume } => volume_to_obj("volume".to_owned(), volume),
    }
}

/// The field names of each kind of event, in the order in which they appear.
pub open spec fn field_names(event: PlayerEvent) -> Seq<Seq<char>> {
    match event {
        PlayerEvent::Stopped { .. }
        | PlayerEvent::Preloading { .. }
        | PlayerEvent::TimeToPreloadNextTrack { .. }
        | PlayerEvent::EndOfTrack { .. }
        | PlayerEvent::Unavailable { .. } => seq!["event"@, "play_request_id"@, "track_id"@],
        PlayerEvent::Started { .. } | PlayerEvent::Loading { .. } => seq![
            "event"@,
            "play_request_id"@,
            "track_id"@,
            "position_ms"@,
        ],
        PlayerEvent::Changed { .. } => seq!["event"@, "old_track_id"@, "new_track_id"@],
        PlayerEvent::Playing { .. } | PlayerEvent::Paused { .. } => seq![
            "event"@,
            "play_request_id"@,
            "track_id"@,
            "position_ms"@,
            "duration_ms"@,
        ],
        PlayerEvent::VolumeSet { .. } => seq!["event"@, "volume"@],
    }
}

/// The track that an event is about, where it is about one track.
pub open spec fn track_of(event: PlayerEvent) -> Option<TrackId> {
    match event {
        PlayerEvent::Stopped { track_id, .. }
        | PlayerEvent::Started { track_id, .. }
        | PlayerEvent::Loading { track_id, .. }
        | PlayerEvent::Preloading { track_id }
        | PlayerEvent::Playing { track_id, .. }
        | PlayerEvent::Paused { track_id, .. }
        | PlayerEvent::TimeToPreloadNextTrack { track_id, .. }
        | PlayerEvent::EndOfTrack { track_id, .. }
        | PlayerEvent::Unavailable { track_id, .. } => Some(track_id),
        PlayerEvent::Changed { .. } | PlayerEvent::VolumeSet { .. } => None,
    }
}

/// The record of an event starts with its tag under `event` and holds
/// exactly the fields of its kind, in order and under distinct names. A
/// change of track carries no play request, a volume neither a track nor a
/// play request, and a preload the play request 0.
pub proof fn lemma_encoding_follows_table(event: PlayerEvent)
    ensures
        encoded(event).len() == field_names(event).len(),
        forall|i: int|
            0 <= i < encoded(event).len() ==> (#[trigger] encoded(event)[i]).name == field_names(
                event,
            )[i],
        encoded(event)[0] == text_entry("event"@, event_tag(event)),
        names_distinct(encoded(event)),
        event is Changed ==> !has_name(encoded(event), "play_request_id"@),
        event is VolumeSet ==> !has_name(encoded(event), "play_request_id"@) && !has_name(
            encoded(event),
            "track_id"@,
        ),
        event is Preloading ==> lookup(encoded(event), "play_request_id"@) == Some(
            Value::Number(0),
        ),
{
    lemma_field_names_differ();
    if event is Preloading {
        assert(named_at(encoded(event), "play_request_id"@, 1));
        lemma_lookup_is_unique(encoded(event), "play_request_id"@, 1);
    }
}

/// A track is reported under its field as the URI it renders to, and as the
/// empty text where rendering fails.
pub proof fn lemma_failed_rendering_is_empty_text(event: PlayerEvent)
    ensures
        track_of(event) matches Some(track) ==> lookup(encoded(event), "track_id"@) == Some(
            Value::Text(uri_or_empty(rendered_uri(track))),
        ),
        track_of(event) matches Some(track) && rendered_uri(track) is None ==> lookup(
            encoded(event),
            "track_id"@,
        ) == Some(Value::Text(Seq::empty())),
        event matches PlayerEvent::Changed { old_track_id, new_track_id } ==> {
            &&& lookup(encoded(event), "old_track_id"@) == Some(
                Value::Text(uri_or_empty(rendered_uri(old_track_id))),
            )
            &&& lookup(encoded(event), "new_track_id"@) == Some(
                Value::Text(uri_or_empty(rendered_uri(new_track_id))),
            )
            &&& rendered_uri(old_track_id) is None ==> lookup(encoded(event), "old_track_id"@)
                == Some(Value::Text(Seq::empty()))
            &&& rendered_uri(new_track_id) is None ==> lookup(encoded(event), "new_track_id"@)
                == Some(Value::Text(Seq::empty()))
        },
{
    lemma_encoding_follows_table(event);
    if track_of(event) is Some {
        assert(named_at(encoded(event), "track_id"@, 2));
        lemma_lookup_is_unique(encoded(event), "track_id"@, 2);
    }
    if event is Changed {
        assert(named_at(encoded(event), "old_track_id"@, 1));
        lemma_lookup_is_unique(encoded(event), "old_track_id"@, 1);
        assert(named_at(encoded(event), "new_track_id"@, 2));
        lemma_lookup_is_unique(encoded(event), "new_track_id"@, 2);
    }
}

} // verus!
