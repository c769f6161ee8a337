//! Frame markers: the calls that mark where one turn of a loop ends and the
//! next begins.
//!
//! Nothing is kept between two markers. A frame that is started by name is
//! expected to be ended under the same name; that is the caller's part, and
//! the backend's to complain of.
//!
//! `ENABLED` is fixed at each use. With `false` no marker gives a call.

use vstd::prelude::*;
use crate::sys::{flag, seen, spec_flag, text_of, Call, Event};
use crate::text::CText;

verus! {

/// The call that marks the end of a frame: none unless `enabled`.
pub open spec fn frame_mark_call(enabled: bool, name: Option<Seq<u8>>) -> Option<Event> {
    if enabled {
        Some(Event::FrameMark { name })
    } else {
        None
    }
}

/// The call that marks the start of the frame `name`: none unless `enabled`.
pub open spec fn frame_start_call(enabled: bool, name: Seq<u8>) -> Option<Event> {
    if enabled {
        Some(Event::FrameMarkStart { name })
    } else {
        None
    }
}

/// The call that marks the end of the frame `name`: none unless `enabled`.
pub open spec fn frame_end_call(enabled: bool, name: Seq<u8>) -> Option<Event> {
    if enabled {
        Some(Event::FrameMarkEnd { name })
    } else {
        None
    }
}

/// The call that hands over a picture of a frame: none unless `enabled`, else
/// one that carries every argument as it was given, and the integer for
/// `flip`.
pub open spec fn frame_image_call(
    enabled: bool,
    image: Seq<u8>,
    width: u16,
    height: u16,
    offset: u8,
    flip: bool,
) -> Option<Event> {
    if enabled {
        Some(Event::FrameImage { image, w: width, h: height, offset, flip: spec_flag(flip) })
    } else {
        None
    }
}

/// The call that marks the end of a frame: of the main frame where `name` is
/// absent, else of the frame of that name.
#[must_use]
pub fn frame_mark<'a, const ENABLED: bool>(name: Option<CText<'a>>) -> (call: Option<Call<'a>>)
    ensures
        seen(call) == frame_mark_call(ENABLED, text_of(name)),
{
    if ENABLED {
        Some(Call::FrameMark { name })
    } else {
        None
    }
}

/// The call that marks the start of the frame `name`.
#[must_use]
pub fn frame_mark_start<'a, const ENABLED: bool>(name: CText<'a>) -> (call: Option<Call<'a>>)
    ensures
        seen(call) == frame_start_call(ENABLED, name@),
{
    if ENABLED {
        Some(Call::FrameMarkStart { name })
    } else {
        None
    }
}

/// The call that marks the end of the frame `name`.
#[must_use]
pub fn frame_mark_end<'a, const ENABLED: bool>(name: CText<'a>) -> (call: Option<Call<'a>>)
    ensures
        seen(call) == frame_end_call(ENABLED, name@),
{
    if ENABLED {
        Some(Call::FrameMarkEnd { name })
    } else {
        None
    }
}

/// The call that hands the backend a picture of a frame.
///
/// `image` holds `width` by `height` pixels, and the picture shows the frame
/// that ended `offset` frames ago. Neither the dimensions nor the length of
/// `image` are looked at here: the backend judges them.
#[must_use]
pub fn frame_mark_image_unchecked<'a, const ENABLED: bool>(
    image: &'a [u8],
    width: u16,
    height: u16,
    offset: u8,
    flip: bool,
) -> (call: Option<Call<'a>>)
    ensures
        seen(call) == frame_image_call(ENABLED, image@, width, height, offset, flip),
{
    if ENABLED {
        Some(Call::FrameImage { image, w: width, h: height, offset, flip: flag(flip) })
    } else {
        None
    }
}

} // verus!
