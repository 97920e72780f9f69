//! The event forwarder: what to do with each item received from the
//! session's event stream.

use crate::event::create_js_obj_from_event;
use crate::event::encoded;
use crate::event::PlayerEvent;
use crate::record::Entry;
use crate::record::EventRecord;
use vstd::prelude::*;

verus! {

/// What the forwarder does about one item of the stream.
#[derive(Debug, PartialEq, Eq)]
pub enum Forward {
    /// Hand this record to the host's listener, then receive again.
    Deliver(EventRecord),
    /// The stream has ended: leave the loop.
    Exit,
}

/// The record delivered for one item of the stream: that of the event, and
/// none for the end of the stream.
pub open spec fn forwarded(message: Option<PlayerEvent>) -> Option<Seq<Entry>> {
    match message {
        Some(event) => Some(encoded(event)),
        None => None,
    }
}

/// The records delivered, in order, by a forwarder that receives `stream`
/// item by item and leaves at the first end of stream.
pub open spec fn delivered(stream: Seq<Option<PlayerEvent>>) -> Seq<Seq<Entry>>
    decreases stream.len(),
{
    if stream.len() == 0 {
        Seq::empty()
    } else {
        match forwarded(stream[0]) {
            Some(record) => seq![record] + delivered(stream.skip(1)),
            None => Seq::empty(),
        }
    }
}

/// The stream in which `events` arrive one after the other.
pub open spec fn arrivals(events: Seq<PlayerEvent>) -> Seq<Option<PlayerEvent>> {
    Seq::new(events.len(), |i: int| Some(events[i]))
}

/// Decides what to do with what a blocking receive on the event stream gave:
/// an event is encoded for delivery, the end of the stream ends the loop.
pub fn forward_event(message: Option<PlayerEvent>) -> (action: Forward)
    ensures
        match action {
            Forward::Deliver(record) => forwarded(message) == Some(record@),
            Forward::Exit => forwarded(message) is None,
        },
{
    match message {
        Some(event) => Forward::Deliver(create_js_obj_from_event(event)),
        None => Forward::Exit,
    }
}

/// Events are delivered in the order in which the session emitted them, one
/// record for each, none left out, added or merged; what the stream holds
/// after its end is never delivered.
pub proof fn lemma_events_delivered_in_emission_order(
    events: Seq<PlayerEvent>,
    after_end: Seq<Option<PlayerEvent>>,
)
    ensures
        delivered(arrivals(events)) == Seq::new(events.len(), |i: int| encoded(events[i])),
        delivered(arrivals(events) + seq![None] + after_end) == delivered(arrivals(events)),
    decreases events.len(),
{
    let records = Seq::new(events.len(), |i: int| encoded(events[i]));
    let whole = arrivals(events) + seq![None] + after_end;
    if events.len() == 0 {
        assert(delivered(arrivals(events)) =~= records);
        assert(whole[0] == None::<PlayerEvent>);
    } else {
        let later = events.skip(1);
        lemma_events_delivered_in_emission_order(later, after_end);
        assert(arrivals(events).skip(1) =~= arrivals(later));
        assert(whole.skip(1) =~= arrivals(later) + seq![None] + after_end);
        assert(arrivals(events)[0] == Some(events[0]));
        assert(whole[0] == Some(events[0]));
        assert(delivered(arrivals(events)) =~= records);
    }
}

} // verus!
