//! What a backend sees of zones and frames.
//!
//! The statements here are about a [`Recording`]: about what a backend that
//! keeps every call holds after it was handed the calls that the functions of
//! this crate give. Each speaks of those calls by the functions that the
//! contracts name them with, so what is proved of `zone_end_call` is proved of
//! what [`ZoneContext::close`](crate::zone::ZoneContext::close) returns.

use vstd::prelude::*;
use crate::frame::{frame_end_call, frame_image_call, frame_mark_call, frame_start_call};
use crate::recorder::{begins_zone, Recording};
use crate::sys::{zone_context, Event, Record};
use crate::zone::{opened, zone_begin_call, zone_end_call, zone_name_call, zone_text_call};
use crate::CallstackDepth;

verus! {

/// How many of `events` end the zone `ctx`.
pub open spec fn ends_of(events: Seq<Event>, ctx: zone_context) -> nat
    decreases events.len(),
{
    if events.len() == 0 {
        0
    } else {
        ends_of(events.drop_last(), ctx) + if events.last() == (Event::ZoneEnd { ctx }) {
            1nat
        } else {
            0nat
        }
    }
}

/// How many of `events` begin a zone.
pub open spec fn begins_in(events: Seq<Event>) -> nat
    decreases events.len(),
{
    if events.len() == 0 {
        0
    } else {
        begins_in(events.drop_last()) + if begins_zone(events.last()) {
            1nat
        } else {
            0nat
        }
    }
}

/// The record only grows at its end: after a run of events it holds what
/// it held before, then the run, in the order in which it came.
pub proof fn lemma_record_appends(before: Recording, events: Seq<Event>)
    ensures
        before.after_all(events).events == before.events + events,
    decreases events.len(),
{
    if events.len() == 0 {
        assert(before.events + events =~= before.events);
    } else {
        lemma_record_appends(before, events.drop_last());
        assert(before.events + events =~= (before.events + events.drop_last()).push(events.last()));
    }
}

/// The end calls for a zone in two runs of events, one after the other, are
/// those of the first and those of the second.
pub proof fn lemma_ends_of_concat(first: Seq<Event>, second: Seq<Event>, ctx: zone_context)
    ensures
        ends_of(first + second, ctx) == ends_of(first, ctx) + ends_of(second, ctx),
    decreases second.len(),
{
    if second.len() == 0 {
        assert(first + second =~= first);
    } else {
        lemma_ends_of_concat(first, second.drop_last(), ctx);
        assert((first + second).drop_last() =~= first + second.drop_last());
    }
}

/// A run of events in which nothing ends the zone `ctx` holds no end call
/// for it.
pub proof fn lemma_no_end_among(events: Seq<Event>, ctx: zone_context)
    requires
        forall|i: int| 0 <= i < events.len() ==> events[i] != (Event::ZoneEnd { ctx }),
    ensures
        ends_of(events, ctx) == 0,
    decreases events.len(),
{
    if events.len() > 0 {
        lemma_no_end_among(events.drop_last(), ctx);
    }
}

/// The identifier that the recorder gives out after a run of events is the
/// one before the run, moved on once for each begin call in the run.
pub proof fn lemma_next_id_counts_begins(before: Recording, events: Seq<Event>)
    ensures
        before.after_all(events).next_id as int == (before.next_id + begins_in(events))
            % 0x1_0000_0000,
    decreases events.len(),
{
    if events.len() > 0 {
        lemma_next_id_counts_begins(before, events.drop_last());
    }
}

/// A zone is ended once, with the identifier it was given.
///
/// Take the begin call of a zone, then the handle that is opened with the
/// backend's answer, then any run of events that does not end that zone (its
/// own annotations, other zones, frame markers), then the call that the
/// handle gives when it is closed. That call ends the zone under the very
/// context that the backend answered with, it is the last event recorded, and
/// the record holds exactly one more end call for the zone than before.
pub proof fn lemma_zone_ends_once(
    before: Recording,
    record: Record,
    depth: Option<CallstackDepth>,
    active: bool,
    others: Seq<Event>,
)
    requires
        forall|i: int|
            0 <= i < others.len() ==> Some(others[i]) != zone_end_call(
                opened(true, before.answer(zone_begin_call(true, record, depth, active))),
            ),
    ensures
        ({
            let begin = zone_begin_call(true, record, depth, active);
            let zone = opened(true, before.answer(begin));
            let last = before.after(begin).after_all(others).after(zone_end_call(zone));
            &&& zone is Some
            &&& zone == before.answer(begin)
            &&& zone_end_call(zone) == Some(Event::ZoneEnd { ctx: zone->0 })
            &&& last.events.last() == (Event::ZoneEnd { ctx: zone->0 })
            &&& ends_of(last.events, zone->0) == ends_of(before.events, zone->0) + 1
        }),
{
    let begin = zone_begin_call(true, record, depth, active);
    let ctx = before.answer(begin)->0;
    let end = Event::ZoneEnd { ctx };
    let begun = before.after(begin);
    let last = begun.after_all(others).after(Some(end));
    lemma_record_appends(begun, others);
    assert(last.events =~= before.events + (seq![begin->0] + others + seq![end]));
    lemma_ends_of_concat(before.events, seq![begin->0] + others + seq![end], ctx);
    lemma_ends_of_concat(seq![begin->0] + others, seq![end], ctx);
    lemma_ends_of_concat(seq![begin->0], others, ctx);
    lemma_no_end_among(others, ctx);
    lemma_no_end_among(seq![begin->0], ctx);
    assert(ends_of(seq![end].drop_last(), ctx) == 0);
}

/// Closing one handle ends no other zone: the call that a handle of `zone`
/// gives when it is closed adds nothing to the end calls of a zone with
/// another context.
pub proof fn lemma_end_leaves_others(before: Recording, zone: zone_context, other: zone_context)
    requires
        zone != other,
    ensures
        ends_of(before.after(zone_end_call(Some(zone))).events, other) == ends_of(
            before.events,
            other,
        ),
{
    let after = before.after(zone_end_call(Some(zone))).events;
    assert(after.drop_last() =~= before.events);
}

/// Two zones that are open at once have different identifiers.
///
/// The handle of the second of two begin calls holds another identifier
/// than the handle of the first, whatever was recorded between the two, as
/// long as that holds fewer begin calls than there are identifiers.
pub proof fn lemma_zones_get_distinct_ids(
    before: Recording,
    first: (Record, Option<CallstackDepth>, bool),
    others: Seq<Event>,
    second: (Record, Option<CallstackDepth>, bool),
)
    requires
        begins_in(others) < u32::MAX,
    ensures
        ({
            let begin_one = zone_begin_call(true, first.0, first.1, first.2);
            let begin_two = zone_begin_call(true, second.0, second.1, second.2);
            let one = opened(true, before.answer(begin_one));
            let two = opened(true, before.after(begin_one).after_all(others).answer(begin_two));
            &&& one is Some
            &&& two is Some
            &&& one->0.id != two->0.id
        }),
{
    let begin_one = zone_begin_call(true, first.0, first.1, first.2);
    lemma_next_id_counts_begins(before.after(begin_one), others);
}

/// With `ENABLED` false a zone tells the backend nothing, from its begin to
/// its end: whatever the handle is opened with, each of its calls is absent
/// and the record stays as it was.
pub proof fn lemma_disabled_zone_records_nothing(
    before: Recording,
    record: Record,
    depth: Option<CallstackDepth>,
    active: bool,
    reply: Option<zone_context>,
    text: Seq<char>,
    name: Seq<char>,
)
    ensures
        ({
            let begin = zone_begin_call(false, record, depth, active);
            let zone = opened(false, reply);
            &&& begin is None
            &&& zone_text_call(zone, text) is None
            &&& zone_name_call(zone, name) is None
            &&& zone_end_call(zone) is None
            &&& before.after(begin).after(zone_text_call(zone, text)).after(
                zone_name_call(zone, name),
            ).after(zone_end_call(zone)) == before
        }),
{
}

/// With `ENABLED` false no frame marker tells the backend anything: each call
/// is absent, and the record stays as it was.
pub proof fn lemma_disabled_frames_record_nothing(
    before: Recording,
    mark: Option<Seq<u8>>,
    name: Seq<u8>,
    image: Seq<u8>,
    width: u16,
    height: u16,
    offset: u8,
    flip: bool,
)
    ensures
        ({
            let picture = frame_image_call(false, image, width, height, offset, flip);
            &&& frame_mark_call(false, mark) is None
            &&& frame_start_call(false, name) is None
            &&& frame_end_call(false, name) is None
            &&& picture is None
            &&& before.after(frame_mark_call(false, mark)).after(
                frame_start_call(false, name),
            ).after(frame_end_call(false, name)).after(picture) == before
        }),
{
}

/// A frame's start and end stay in order.
///
/// The start marker of a frame, any run of other events, then its end
/// marker: the record holds the start before the end, with exactly that run
/// between them, in its order, and all that was there before is as it was.
pub proof fn lemma_frame_pair_keeps_order(before: Recording, name: Seq<u8>, others: Seq<Event>)
    ensures
        ({
            let last = before.after(frame_start_call(true, name)).after_all(others).after(
                frame_end_call(true, name),
            );
            let i = before.events.len() as int;
            let j = i + 1 + others.len();
            &&& last.events.len() == j + 1
            &&& last.events.subrange(0, i) == before.events
            &&& last.events[i] == (Event::FrameMarkStart { name })
            &&& last.events.subrange(i + 1, j) == others
            &&& last.events[j] == (Event::FrameMarkEnd { name })
        }),
{
    let last = before.after(frame_start_call(true, name)).after_all(others).after(
        frame_end_call(true, name),
    );
    let i = before.events.len() as int;
    let j = i + 1 + others.len();
    lemma_record_appends(before.after(frame_start_call(true, name)), others);
    assert(last.events.subrange(0, i) =~= before.events);
    assert(last.events.subrange(i + 1, j) =~= others);
}

/// Annotations add up.
///
/// Two texts attached to one zone are both recorded, the first before the
/// second; neither takes the other's place, and all that was there before is
/// as it was.
pub proof fn lemma_annotations_accumulate(
    before: Recording,
    zone: zone_context,
    first: Seq<char>,
    second: Seq<char>,
)
    ensures
        before.after(zone_text_call(Some(zone), first)).after(
            zone_text_call(Some(zone), second),
        ).events == before.events + seq![
            Event::ZoneText { ctx: zone, txt: first },
            Event::ZoneText { ctx: zone, txt: second },
        ],
{
    let one = Event::ZoneText { ctx: zone, txt: first };
    let two = Event::ZoneText { ctx: zone, txt: second };
    assert(before.events.push(one).push(two) =~= before.events + seq![one, two]);
}

} // verus!
