//! The client side of a frame profiler.
//!
//! Instrumented code marks regions of its execution (zones) and the
//! boundaries of its frames; a capture backend collects these for display.
//! This crate is the part that decides what the backend is told: it checks
//! the texts, builds the records that describe call sites, and for each
//! zone and frame marker it gives the backend calls that are due, as plain
//! values ([`sys::Call`]). It makes none of these calls itself. Whoever links
//! the backend performs them, in the order in which they were given, and
//! hands back what a begin call returned:
//!
//! ```text
//! let pending = ZoneContext::<true>::new(&record, true);
//! let reply = backend.perform(pending.call());     // the begin call
//! let zone = pending.open(reply);                  // the handle
//! backend.perform(zone.annotate_text("level 3"));
//! backend.perform(zone.close());                   // the end call
//! ```
//!
//! Every function that gives calls takes a constant `ENABLED`. It is meant to
//! be fixed once for a build. With `false` no function gives a call, and a
//! build that names only `false` holds no code that could.
//!
//! [`recorder::Recorder`] is a backend that only keeps what it is
//! handed. The contracts of this crate are stated over what such a backend
//! sees, and so is what [`protocol`] proves of them: that a zone is ended
//! once, with the identifier it was given; that the start and the end of a
//! frame stay in order whatever comes between; that annotations add up; that
//! nothing is recorded where `ENABLED` is `false`.

use vstd::prelude::*;

pub mod frame;
pub mod location;
pub mod protocol;
pub mod recorder;
pub mod sys;
pub mod text;
pub mod zone;

pub use frame::{frame_mark, frame_mark_end, frame_mark_image_unchecked, frame_mark_start};
pub use location::{SourceLocation, SourceLocationData};
pub use recorder::Recorder;
pub use text::CText;
pub use zone::{PendingZone, ZoneContext};

verus! {

/// Number of call-stack levels that the backend is asked to capture.
pub type CallstackDepth = libc::c_int;

/// A 24-bit RGB value; 0 stands for no color.
pub type ColorType = u32;

} // verus!
