//! Zones: timed regions of execution, each between a begin and an end call.
//!
//! A zone goes through three steps, each of them a change of owner:
//!
//! 1. [`ZoneContext::new`] (or [`ZoneContext::with_callstack`]) gives a
//!    [`PendingZone`], which holds the begin call that is due.
//! 2. Once that call has been performed, [`PendingZone::open`] takes what
//!    the backend returned and gives the [`ZoneContext`].
//! 3. [`ZoneContext::close`] takes the handle and gives the end call.
//!
//! Neither type can be duplicated and each step consumes the value of the
//! step before, so a zone that was begun can be ended once and no more, and
//! the end call carries exactly what the begin call returned.
//!
//! `ENABLED` is fixed where the types are named. With `false` no step gives
//! a call, whatever it is handed.

use core::marker::PhantomData;
use vstd::prelude::*;
use crate::location::SourceLocationData;
use crate::sys::{flag, seen, source_location_data, spec_flag, zone_context, Call, Event, Record};
use crate::CallstackDepth;

verus! {

/// The begin call that is due for a zone at `record`: none unless `enabled`,
/// else one that carries the record, the integer for `active` and, if asked
/// for, the depth of call stack to capture.
pub open spec fn zone_begin_call(
    enabled: bool,
    record: Record,
    depth: Option<CallstackDepth>,
    active: bool,
) -> Option<Event> {
    if !enabled {
        None
    } else {
        match depth {
            None => Some(Event::ZoneBegin { srcloc: record, active: spec_flag(active) }),
            Some(depth) => Some(
                Event::ZoneBeginCallstack { srcloc: record, depth, active: spec_flag(active) },
            ),
        }
    }
}

/// The zone that a handle holds once the backend has answered its begin call
/// with `reply`: that reply, unchanged, or none unless `enabled`.
pub open spec fn opened(enabled: bool, reply: Option<zone_context>) -> Option<zone_context> {
    if enabled {
        reply
    } else {
        None
    }
}

/// The call that attaches `text` to `zone`: none where there is no zone.
pub open spec fn zone_text_call(zone: Option<zone_context>, text: Seq<char>) -> Option<Event> {
    match zone {
        Some(ctx) => Some(Event::ZoneText { ctx, txt: text }),
        None => None,
    }
}

/// The call that names `zone`: none where there is no zone.
pub open spec fn zone_name_call(zone: Option<zone_context>, text: Seq<char>) -> Option<Event> {
    match zone {
        Some(ctx) => Some(Event::ZoneName { ctx, txt: text }),
        None => None,
    }
}

/// The call that ends `zone`: none where there is no zone.
pub open spec fn zone_end_call(zone: Option<zone_context>) -> Option<Event> {
    match zone {
        Some(ctx) => Some(Event::ZoneEnd { ctx }),
        None => None,
    }
}

/// A zone whose begin call has been decided on and not yet answered.
///
/// Its view is that call as the backend sees it, if one is due.
#[derive(Debug)]
#[must_use]
pub struct PendingZone<'a, const ENABLED: bool> {
    request: Option<Call<'a>>,
}

/// A zone that is open at the backend: the one handle through which it is
/// annotated and ended.
///
/// Its view is what the backend returned when the zone was begun: the zone's
/// identifier and the active flag. It is absent where no zone was begun, and
/// then the handle gives no calls.
///
/// The handle cannot be duplicated, and it stays on the thread on which it
/// was made.
#[derive(Debug)]
#[must_use]
pub struct ZoneContext<'a, const ENABLED: bool> {
    context: Option<zone_context>,
    marker: PhantomData<(&'a source_location_data<'a>, std::rc::Rc<()>)>,
}

impl<'a, const ENABLED: bool> View for PendingZone<'a, ENABLED> {
    type V = Option<Event>;

    closed spec fn view(&self) -> Option<Event> {
        seen(self.request)
    }
}

impl<'a, const ENABLED: bool> View for ZoneContext<'a, ENABLED> {
    type V = Option<zone_context>;

    closed spec fn view(&self) -> Option<zone_context> {
        self.context
    }
}

impl<'a, const ENABLED: bool> PendingZone<'a, ENABLED> {
    #[verifier::type_invariant]
    spec fn well_formed(self) -> bool {
        self.request is Some <==> ENABLED
    }

    /// The begin call that is due, if any.
    #[must_use]
    pub fn call(&self) -> (call: Option<Call<'a>>)
        ensures
            seen(call) == self@,
            call is Some <==> ENABLED,
    {
        proof {
            use_type_invariant(self);
        }
        self.request
    }

    /// The handle of the zone, given what the backend returned for the begin
    /// call (`None` where no call was made).
    #[must_use]
    pub fn open(self, reply: Option<zone_context>) -> (zone: ZoneContext<'a, ENABLED>)
        ensures
            zone@ == opened(ENABLED, reply),
    {
        if ENABLED {
            ZoneContext { context: reply, marker: PhantomData }
        } else {
            ZoneContext { context: None, marker: PhantomData }
        }
    }
}

impl<'a, const ENABLED: bool> ZoneContext<'a, ENABLED> {
    #[verifier::type_invariant]
    spec fn well_formed(self) -> bool {
        !ENABLED ==> self.context is None
    }

    /// Decides on a zone at `loc`.
    ///
    /// The begin call that is due carries `loc` and 1 or 0 for `active`.
    pub fn new(loc: &'a SourceLocationData<'a>, active: bool) -> (pending: PendingZone<
        'a,
        ENABLED,
    >)
        ensures
            pending@ == zone_begin_call(ENABLED, loc@, None, active),
    {
        if ENABLED {
            PendingZone {
                request: Some(Call::ZoneBegin { srcloc: loc.data(), active: flag(active) }),
            }
        } else {
            PendingZone { request: None }
        }
    }

    /// Decides on a zone at `loc` for which the backend captures `depth`
    /// levels of the call stack.
    ///
    /// `depth` is handed on as it is: the backend judges it.
    pub fn with_callstack(
        loc: &'a SourceLocationData<'a>,
        depth: CallstackDepth,
        active: bool,
    ) -> (pending: PendingZone<'a, ENABLED>)
        ensures
            pending@ == zone_begin_call(ENABLED, loc@, Some(depth), active),
    {
        if ENABLED {
            PendingZone {
                request: Some(
                    Call::ZoneBeginCallstack { srcloc: loc.data(), depth, active: flag(active) },
                ),
            }
        } else {
            PendingZone { request: None }
        }
    }

    /// What the backend returned when the zone was begun.
    pub fn context(&self) -> (context: Option<zone_context>)
        ensures
            context == self@,
            !ENABLED ==> context is None,
    {
        proof {
            use_type_invariant(self);
        }
        self.context
    }

    /// The call that attaches `text` to the zone.
    ///
    /// Each use gives a call of its own; what the backend makes of several
    /// is its affair.
    #[must_use]
    pub fn annotate_text<'t>(&self, text: &'t str) -> (call: Option<Call<'t>>)
        ensures
            seen(call) == zone_text_call(self@, text@),
            !ENABLED ==> call is None,
    {
        proof {
            use_type_invariant(self);
        }
        if ENABLED {
            match self.context {
                Some(ctx) => Some(Call::ZoneText { ctx, txt: text }),
                None => None,
            }
        } else {
            None
        }
    }

    /// The call that names the zone `text` for this one run.
    #[must_use]
    pub fn annotate_name<'t>(&self, text: &'t str) -> (call: Option<Call<'t>>)
        ensures
            seen(call) == zone_name_call(self@, text@),
            !ENABLED ==> call is None,
    {
        proof {
            use_type_invariant(self);
        }
        if ENABLED {
            match self.context {
                Some(ctx) => Some(Call::ZoneName { ctx, txt: text }),
                None => None,
            }
        } else {
            None
        }
    }

    /// Gives up the handle for the call that ends the zone.
    ///
    /// The call carries what the backend returned at the begin, unchanged.
    #[must_use]
    pub fn close(self) -> (call: Option<Call<'static>>)
        ensures
            seen(call) == zone_end_call(self@),
            !ENABLED ==> call is None,
    {
        proof {
            use_type_invariant(&self);
        }
        if ENABLED {
            match self.context {
                Some(ctx) => Some(Call::ZoneEnd { ctx }),
                None => None,
            }
        } else {
            None
        }
    }
}

} // verus!
