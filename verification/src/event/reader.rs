//! Sorting the lines of a source: every line is an event, a tagged line
//! that could not be read, a line of free text, or blank.

use crate::event::decode::{line_event, line_legacy_event, parse_event_line, parse_unified_event_line};
use crate::event::types::{DevEvent, UnifiedEvent, UnifiedEventView, DEV_EVENT_MAGIC};
use crate::text::{
    chars_of, contains_text, contains_text_exec, is_blank, is_blank_exec, string_from_chars,
    trim_end, trim_end_exec,
};
use vstd::prelude::*;

verus! {

/// What a line of the source is.
#[derive(Debug)]
pub enum LineClass {
    /// Nothing but white space.
    Blank,
    /// An event.
    Event(UnifiedEvent),
    /// A line that holds the marker and denotes no event.
    ParseFailure,
    /// Any other line: free text for the log, without its trailing white space.
    Log(String),
}

/// The mathematical value of a [`LineClass`].
pub enum LineClassView {
    Blank,
    Event(UnifiedEventView),
    ParseFailure,
    Log(Seq<char>),
}

impl View for LineClass {
    type V = LineClassView;

    open spec fn view(&self) -> LineClassView {
        match self {
            LineClass::Blank => LineClassView::Blank,
            LineClass::Event(e) => LineClassView::Event(e@),
            LineClass::ParseFailure => LineClassView::ParseFailure,
            LineClass::Log(t) => LineClassView::Log(t@),
        }
    }
}

/// What a line is: it is read without its trailing white space; a line that
/// denotes no event counts as a failure only where it holds the marker, so
/// that ordinary output is never taken for a broken event.
pub open spec fn line_class(line: Seq<char>) -> LineClassView {
    let content = trim_end(line);
    if is_blank(line) {
        LineClassView::Blank
    } else {
        match line_event(content) {
            Some(e) => LineClassView::Event(e),
            None => if contains_text(content, DEV_EVENT_MAGIC@) {
                LineClassView::ParseFailure
            } else {
                LineClassView::Log(content)
            },
        }
    }
}

/// Says what a line of the source is.
pub fn classify_line(line: &str) -> (r: LineClass)
    ensures
        r@ == line_class(line@),
{
    let chars = chars_of(line);
    if is_blank_exec(&chars) {
        return LineClass::Blank;
    }
    let content_chars = trim_end_exec(&chars);
    let content = string_from_chars(&content_chars);
    match parse_unified_event_line(content.as_str()) {
        Some(e) => LineClass::Event(e),
        None => {
            let magic = chars_of(DEV_EVENT_MAGIC);
            if contains_text_exec(&content_chars, &magic) {
                LineClass::ParseFailure
            } else {
                LineClass::Log(content)
            }
        },
    }
}

/// Reads events of the first schema from the lines of a source.
#[derive(Debug, Clone, Copy)]
pub struct EventReader {}

impl EventReader {
    pub fn new() -> (r: EventReader) {
        EventReader {  }
    }

    /// The event of the first schema that a line denotes, if it denotes one.
    pub fn read_line(&self, line: &str) -> (r: Option<DevEvent>)
        ensures
            r.deep_view() == line_legacy_event(line@),
    {
        parse_event_line(line)
    }
}

impl Default for EventReader {
    fn default() -> (r: EventReader) {
        EventReader::new()
    }
}

} // verus!
