//! A backend that keeps what it is given.
//!
//! [`Recorder`] stands where the capture backend would: it takes the calls
//! in the order in which they come, appends each to its record, and answers
//! a begin call as a backend does, with a fresh identifier and the active
//! flag of the call. It drops nothing and reorders nothing, so its record
//! shows which calls a piece of code gives rise to, and in what order.
//! What follows from that for zones and frames is proved in
//! [`protocol`](crate::protocol).

use vstd::prelude::*;
use crate::sys::{seen, zone_context, Call, Event};

verus! {

/// `event` begins a zone: the backend answers it with a [`zone_context`].
pub open spec fn begins_zone(event: Event) -> bool {
    event is ZoneBegin || event is ZoneBeginCallstack
}

/// The identifier that follows `id`; the first follows the last.
pub open spec fn next_id(id: u32) -> u32 {
    if id == u32::MAX {
        0
    } else {
        (id + 1) as u32
    }
}

/// A [`Recorder`] by what it holds: the events it was handed so far, oldest
/// first, and the identifier it gives out next.
pub struct Recording {
    pub events: Seq<Event>,
    pub next_id: u32,
}

impl Recording {
    /// What the recorder answers when it is handed `event`: a begin call
    /// gets the next identifier and its own active flag, anything else
    /// gets nothing.
    pub open spec fn answer(self, event: Option<Event>) -> Option<zone_context> {
        match event {
            Some(Event::ZoneBegin { active, .. }) => Some(
                zone_context { id: self.next_id, active },
            ),
            Some(Event::ZoneBeginCallstack { active, .. }) => Some(
                zone_context { id: self.next_id, active },
            ),
            _ => None,
        }
    }

    /// The recorder after it was handed `event`: the event stands last, all
    /// before it is as it was, and the identifier has moved on if one was
    /// given out. Handed nothing, the recorder stays as it is.
    pub open spec fn after(self, event: Option<Event>) -> Recording {
        match event {
            Some(e) => Recording {
                events: self.events.push(e),
                next_id: if begins_zone(e) {
                    next_id(self.next_id)
                } else {
                    self.next_id
                },
            },
            None => self,
        }
    }

    /// The recorder after it was handed each of `events` in turn.
    pub open spec fn after_all(self, events: Seq<Event>) -> Recording
        decreases events.len(),
    {
        if events.len() == 0 {
            self
        } else {
            self.after_all(events.drop_last()).after(Some(events.last()))
        }
    }
}

/// A recording stand-in for the capture backend.
#[derive(Debug)]
pub struct Recorder<'a> {
    calls: Vec<Call<'a>>,
    next_id: u32,
}

impl<'a> View for Recorder<'a> {
    type V = Recording;

    closed spec fn view(&self) -> Recording {
        Recording { events: self.calls@.map_values(|call: Call<'a>| call@), next_id: self.next_id }
    }
}

impl<'a> Recorder<'a> {
    /// A recorder that has been handed nothing yet. Its first zone gets the
    /// identifier 0.
    pub fn new() -> (recorder: Self)
        ensures
            recorder@ == (Recording { events: Seq::empty(), next_id: 0 }),
    {
        let recorder = Recorder { calls: Vec::new(), next_id: 0 };
        assert(recorder@.events =~= Seq::empty());
        recorder
    }

    /// Takes `call`, if there is one, and answers it.
    pub fn perform(&mut self, call: Option<Call<'a>>) -> (reply: Option<zone_context>)
        ensures
            final(self)@ == old(self)@.after(seen(call)),
            reply == old(self)@.answer(seen(call)),
    {
        match call {
            None => None,
            Some(call) => {
                let reply = match call {
                    Call::ZoneBegin { active, .. } => Some(self.begin(active)),
                    Call::ZoneBeginCallstack { active, .. } => Some(self.begin(active)),
                    _ => None,
                };
                self.calls.push(call);
                assert(self@.events =~= old(self)@.events.push(call@));
                reply
            },
        }
    }

    /// The calls taken so far, oldest first.
    pub fn calls(&self) -> (calls: &[Call<'a>])
        ensures
            calls@.len() == self@.events.len(),
            forall|i: int| 0 <= i < calls@.len() ==> (#[trigger] calls@[i])@ == self@.events[i],
    {
        self.calls.as_slice()
    }

    /// Gives out the next identifier, with `active` beside it.
    fn begin(&mut self, active: libc::c_int) -> (reply: zone_context)
        ensures
            reply == (zone_context { id: old(self).next_id, active }),
            final(self).next_id == next_id(old(self).next_id),
            final(self).calls == old(self).calls,
    {
        let id: u32 = self.next_id;
        self.next_id = id.wrapping_add(1);
        zone_context { id, active }
    }
}

} // verus!
