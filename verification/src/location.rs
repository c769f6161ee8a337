//! Code positions, and the records that zones are opened with.

use vstd::prelude::*;
use crate::sys::{source_location_data, Record};
use crate::text::CText;
use crate::ColorType;

verus! {

/// A position in the code: the function, the file and the line.
///
/// The texts are borrowed, never copied; they outlive the location and every
/// record made from it.
#[derive(Clone, Copy, PartialEq, Eq, Debug)]
pub struct SourceLocation<'a> {
    pub function: CText<'a>,
    pub file: CText<'a>,
    pub line: u32,
}

/// A code position together with the name and the color under which its
/// zones are shown.
///
/// A record is made once for a call site and read by every zone opened
/// there. It cannot be changed after it is made.
#[derive(Clone, Copy, PartialEq, Eq, Debug)]
pub struct SourceLocationData<'a> {
    data: source_location_data<'a>,
}

impl<'a> View for SourceLocationData<'a> {
    type V = Record;

    closed spec fn view(&self) -> Record {
        self.data@
    }
}

impl<'a> SourceLocationData<'a> {
    /// The record of `loc`, shown as `name` in `color`.
    pub fn with_name_and_color(
        loc: &SourceLocation<'a>,
        name: CText<'a>,
        color: ColorType,
    ) -> (record: Self)
        ensures
            record@ == (Record {
                name: Some(name@),
                function: loc.function@,
                file: loc.file@,
                line: loc.line,
                color,
            }),
    {
        Self {
            data: source_location_data {
                name: Some(name),
                function: loc.function,
                file: loc.file,
                line: loc.line,
                color,
            },
        }
    }

    /// The record of `loc`, shown in `color` under its function's name.
    pub fn with_color(loc: &SourceLocation<'a>, color: ColorType) -> (record: Self)
        ensures
            record@ == (Record {
                name: None,
                function: loc.function@,
                file: loc.file@,
                line: loc.line,
                color,
            }),
    {
        Self {
            data: source_location_data {
                name: None,
                function: loc.function,
                file: loc.file,
                line: loc.line,
                color,
            },
        }
    }

    /// The record of `loc`, shown as `name` with no color chosen.
    pub fn with_name(loc: &SourceLocation<'a>, name: CText<'a>) -> (record: Self)
        ensures
            record@ == (Record {
                name: Some(name@),
                function: loc.function@,
                file: loc.file@,
                line: loc.line,
                color: 0,
            }),
    {
        Self::with_name_and_color(loc, name, 0)
    }

    /// The record of `loc`, with neither a name nor a color.
    pub fn without_name_or_color(loc: &SourceLocation<'a>) -> (record: Self)
        ensures
            record@ == (Record {
                name: None,
                function: loc.function@,
                file: loc.file@,
                line: loc.line,
                color: 0,
            }),
    {
        Self::with_color(loc, 0)
    }

    /// The record as the backend reads it.
    pub fn data(&self) -> (data: &source_location_data<'a>)
        ensures
            data@ == self@,
    {
        &self.data
    }
}

} // verus!
