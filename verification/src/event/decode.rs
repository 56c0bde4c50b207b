//! Reading an event from one line, in whichever of the two schemas it comes.

use crate::event::types::{
    DevBusLogEvent, DevBusLogEventView, DevEvent, DevEventMessage, DevEventMessageView,
    DevEventView, UnifiedEvent, UnifiedEventView, DEV_EVENT_MAGIC,
};
use crate::json::{parse_json, parsed_json, Json, JsonView};
use crate::text::{
    chars_of, contains_text, contains_text_exec, occurs_at_exec, slice_chars, starts_with,
    str_eq, string_from_chars,
};
use vstd::prelude::*;

verus! {

/// The event that the JSON after the marker denotes. Three readings are
/// tried in order, and the first that fits wins: the envelope of the first
/// schema; the second schema, where its category is `trace` or `log`; the
/// first schema without envelope.
pub open spec fn marked_event(j: JsonView) -> Option<UnifiedEventView> {
    match DevEventMessageView::decode(j) {
        Some(m) => Some(UnifiedEventView::Legacy(m.event)),
        None => match DevBusLogEventView::decode(j) {
            Some(e) => if e.category == "trace"@ || e.category == "log"@ {
                Some(UnifiedEventView::LogTransport(e))
            } else {
                match DevEventView::decode(j) {
                    Some(e) => Some(UnifiedEventView::Legacy(e)),
                    None => None,
                }
            },
            None => match DevEventView::decode(j) {
                Some(e) => Some(UnifiedEventView::Legacy(e)),
                None => None,
            },
        },
    }
}

/// The event that a line without the marker in front denotes: it must be
/// the envelope of the first schema, tagged with the marker.
pub open spec fn enveloped_event(j: JsonView) -> Option<UnifiedEventView> {
    match DevEventMessageView::decode(j) {
        Some(m) => if m.msg_type == DEV_EVENT_MAGIC@ {
            Some(UnifiedEventView::Legacy(m.event))
        } else {
            None
        },
        None => None,
    }
}

/// Whether a line may hold an envelope: it begins with a brace and holds
/// the marker somewhere.
pub open spec fn looks_enveloped(line: Seq<char>) -> bool {
    line.len() > 0 && line[0] == '{' && contains_text(line, DEV_EVENT_MAGIC@)
}

/// The event that a line denotes, if it denotes one.
pub open spec fn line_event(line: Seq<char>) -> Option<UnifiedEventView> {
    if starts_with(line, DEV_EVENT_MAGIC@) {
        match parsed_json(line.skip(DEV_EVENT_MAGIC@.len() as int)) {
            Some(j) => marked_event(j),
            None => None,
        }
    } else if looks_enveloped(line) {
        match parsed_json(line) {
            Some(j) => enveloped_event(j),
            None => None,
        }
    } else {
        None
    }
}

/// The event of the first schema that a line denotes, if it denotes one.
pub open spec fn line_legacy_event(line: Seq<char>) -> Option<DevEventView> {
    match line_event(line) {
        Some(UnifiedEventView::Legacy(e)) => Some(e),
        _ => None,
    }
}

/// Reads the event that the JSON after the marker denotes.
pub fn decode_marked(j: &Json) -> (r: Option<UnifiedEvent>)
    ensures
        r.deep_view() == marked_event(j@),
{
    match DevEventMessage::decode(j) {
        Some(m) => {
            return Some(UnifiedEvent::Legacy(m.event));
        },
        None => {},
    }
    match DevBusLogEvent::decode(j) {
        Some(e) => {
            if str_eq(e.category.as_str(), "trace") || str_eq(e.category.as_str(), "log") {
                return Some(UnifiedEvent::LogTransport(e));
            }
        },
        None => {},
    }
    match DevEvent::decode(j) {
        Some(e) => Some(UnifiedEvent::Legacy(e)),
        None => None,
    }
}

/// Reads the event that the JSON of a line without the marker in front denotes.
pub fn decode_enveloped(j: &Json) -> (r: Option<UnifiedEvent>)
    ensures
        r.deep_view() == enveloped_event(j@),
{
    match DevEventMessage::decode(j) {
        Some(m) => {
            if m.is_valid() {
                Some(UnifiedEvent::Legacy(m.event))
            } else {
                None
            }
        },
        None => None,
    }
}

/// Reads the event that a line denotes. A line that denotes none gives
/// `None`, whatever it holds.
pub fn parse_unified_event_line(line: &str) -> (r: Option<UnifiedEvent>)
    ensures
        r.deep_view() == line_event(line@),
{
    let chars = chars_of(line);
    let magic = chars_of(DEV_EVENT_MAGIC);
    if occurs_at_exec(&chars, &magic, 0) {
        let rest = slice_chars(&chars, magic.len(), chars.len());
        let text = string_from_chars(&rest);
        match parse_json(text.as_str()) {
            Some(j) => decode_marked(&j),
            None => None,
        }
    } else if chars.len() > 0 && chars[0] == '{' && contains_text_exec(&chars, &magic) {
        match parse_json(line) {
            Some(j) => decode_enveloped(&j),
            None => None,
        }
    } else {
        None
    }
}

/// Reads the event of the first schema that a line denotes.
pub fn parse_event_line(line: &str) -> (r: Option<DevEvent>)
    ensures
        r.deep_view() == line_legacy_event(line@),
{
    match parse_unified_event_line(line) {
        Some(UnifiedEvent::Legacy(e)) => Some(e),
        _ => None,
    }
}

} // verus!
