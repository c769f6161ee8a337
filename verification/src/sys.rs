//! What crosses the boundary to the capture backend.
//!
//! The backend is a sink outside this crate. Nothing here calls it: each of
//! its operations is a variant of [`Call`], a plain value that says which
//! operation is meant and with what arguments. The rest of the crate decides
//! which calls are due; whoever links the backend performs them in the order
//! in which they were handed out, and hands back what a begin call returned.

use vstd::prelude::*;
use libc::c_int;
use crate::text::CText;

verus! {

/// A code position with its display hints, as the backend reads it.
///
/// `name` is absent for a zone that goes by its function's name; `color` is a
/// 24-bit RGB value, 0 when none was chosen.
#[allow(non_camel_case_types)]
#[derive(Clone, Copy, PartialEq, Eq, Debug)]
pub struct source_location_data<'a> {
    pub name: Option<CText<'a>>,
    pub function: CText<'a>,
    pub file: CText<'a>,
    pub line: u32,
    pub color: u32,
}

/// What the backend returns for a begin call: the identifier it gave the
/// zone, and the active flag it was handed.
#[allow(non_camel_case_types)]
#[derive(Clone, Copy, PartialEq, Eq, Debug)]
pub struct zone_context {
    pub id: u32,
    pub active: c_int,
}

/// One operation of the backend, with its arguments.
#[allow(inconsistent_fields)]
#[derive(Clone, Copy, PartialEq, Eq, Debug)]
pub enum Call<'a> {
    /// Begin a zone at `srcloc`. The backend answers with a [`zone_context`].
    ZoneBegin { srcloc: &'a source_location_data<'a>, active: c_int },
    /// Begin a zone at `srcloc` and capture `depth` levels of the call stack.
    /// The backend answers with a [`zone_context`].
    ZoneBeginCallstack { srcloc: &'a source_location_data<'a>, depth: c_int, active: c_int },
    /// End the zone `ctx`.
    ZoneEnd { ctx: zone_context },
    /// Attach `txt` to the zone `ctx`.
    ZoneText { ctx: zone_context, txt: &'a str },
    /// Give the zone `ctx` the name `txt` for this one run.
    ZoneName { ctx: zone_context, txt: &'a str },
    /// A frame ends here: the main frame if `name` is absent.
    FrameMark { name: Option<CText<'a>> },
    /// The frame `name` starts here.
    FrameMarkStart { name: CText<'a> },
    /// The frame `name` ends here.
    FrameMarkEnd { name: CText<'a> },
    /// A picture of the frame: `w` by `h` pixels, taken `offset` frames ago.
    FrameImage { image: &'a [u8], w: u16, h: u16, offset: u8, flip: c_int },
}

/// The integer that stands for a flag at the backend: 1 when set, else 0.
pub open spec fn spec_flag(set: bool) -> c_int {
    if set {
        1
    } else {
        0
    }
}

/// The integer that stands for a flag at the backend: 1 when set, else 0.
#[verifier::when_used_as_spec(spec_flag)]
pub fn flag(set: bool) -> (raw: c_int)
    ensures
        raw == spec_flag(set),
{
    if set {
        1
    } else {
        0
    }
}

/// A text that may be absent, by what it holds.
pub open spec fn text_of(text: Option<CText<'_>>) -> Option<Seq<u8>> {
    match text {
        Some(text) => Some(text@),
        None => None,
    }
}

/// A [`source_location_data`] by what it holds.
pub struct Record {
    pub name: Option<Seq<u8>>,
    pub function: Seq<u8>,
    pub file: Seq<u8>,
    pub line: u32,
    pub color: u32,
}

/// A [`Call`] by what it holds: what a backend sees of it.
#[allow(inconsistent_fields)]
pub enum Event {
    ZoneBegin { srcloc: Record, active: c_int },
    ZoneBeginCallstack { srcloc: Record, depth: c_int, active: c_int },
    ZoneEnd { ctx: zone_context },
    ZoneText { ctx: zone_context, txt: Seq<char> },
    ZoneName { ctx: zone_context, txt: Seq<char> },
    FrameMark { name: Option<Seq<u8>> },
    FrameMarkStart { name: Seq<u8> },
    FrameMarkEnd { name: Seq<u8> },
    FrameImage { image: Seq<u8>, w: u16, h: u16, offset: u8, flip: c_int },
}

impl<'a> View for source_location_data<'a> {
    type V = Record;

    open spec fn view(&self) -> Record {
        Record {
            name: text_of(self.name),
            function: self.function@,
            file: self.file@,
            line: self.line,
            color: self.color,
        }
    }
}

impl<'a> View for Call<'a> {
    type V = Event;

    open spec fn view(&self) -> Event {
        match *self {
            Call::ZoneBegin { srcloc, active } => Event::ZoneBegin { srcloc: srcloc@, active },
            Call::ZoneBeginCallstack { srcloc, depth, active } => Event::ZoneBeginCallstack {
                srcloc: srcloc@,
                depth,
                active,
            },
            Call::ZoneEnd { ctx } => Event::ZoneEnd { ctx },
            Call::ZoneText { ctx, txt } => Event::ZoneText { ctx, txt: txt@ },
            Call::ZoneName { ctx, txt } => Event::ZoneName { ctx, txt: txt@ },
            Call::FrameMark { name } => Event::FrameMark { name: text_of(name) },
            Call::FrameMarkStart { name } => Event::FrameMarkStart { name: name@ },
            Call::FrameMarkEnd { name } => Event::FrameMarkEnd { name: name@ },
            Call::FrameImage { image, w, h, offset, flip } => Event::FrameImage {
                image: image@,
                w,
                h,
                offset,
                flip,
            },
        }
    }
}

/// What a backend sees of a call that may not be due.
pub open spec fn seen(call: Option<Call<'_>>) -> Option<Event> {
    match call {
        Some(call) => Some(call@),
        None => None,
    }
}

} // verus!
