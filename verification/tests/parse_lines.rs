//! Reading events of the first schema from lines.

use frontmcp_tui::event::decode::{parse_event_line, parse_unified_event_line};
use frontmcp_tui::event::reader::{classify_line, EventReader, LineClass};
use frontmcp_tui::event::types::{DevEvent, RegistryEventType, ServerEventType, UnifiedEvent};

#[test]
fn test_parse_server_event_with_prefix() {
    let line = r#"__FRONTMCP_DEV_EVENT__{"id":"test-1","timestamp":1705276800000,"category":"server","type":"server:starting","scopeId":"test-scope","data":{}}"#;
    let event = parse_event_line(line);
    assert!(event.is_some(), "Failed to parse server event with prefix");
    if let Some(DevEvent::Server(e)) = event {
        assert_eq!(e.event_type, ServerEventType::Starting);
    } else {
        panic!("Wrong event type");
    }
}

#[test]
fn test_parse_server_ready_event() {
    let line = r#"__FRONTMCP_DEV_EVENT__{"id":"test-2","timestamp":1705276801000,"category":"server","type":"server:ready","scopeId":"test-scope","data":{"serverInfo":{"name":"test","version":"1.0"},"address":"http://localhost:3000"}}"#;
    let event = parse_event_line(line);
    assert!(event.is_some(), "Failed to parse server ready event");
    if let Some(DevEvent::Server(e)) = event {
        assert_eq!(e.event_type, ServerEventType::Ready);
        assert_eq!(e.data.address, Some("http://localhost:3000".to_string()));
    } else {
        panic!("Wrong event type");
    }
}

#[test]
fn test_parse_ipc_wrapped_event() {
    let line = r#"{"type":"__FRONTMCP_DEV_EVENT__","event":{"id":"test-3","timestamp":1705276802000,"category":"registry","type":"registry:tool:added","scopeId":"test-scope","data":{"registryType":"tool","entryNames":["my_tool"],"changeKind":"added","changeScope":"global","snapshotCount":1,"version":1}}}"#;
    let event = parse_event_line(line);
    assert!(event.is_some(), "Failed to parse IPC wrapped event");
}

#[test]
fn envelope_after_the_marker_wins_over_the_other_readings() {
    let line = r#"__FRONTMCP_DEV_EVENT__{"type":"anything","event":{"id":"e","timestamp":1,"category":"registry","type":"registry:prompt:reset","scopeId":"s","data":{"registryType":"prompt","changeKind":"reset","changeScope":"global","snapshotCount":0,"version":3}}}"#;
    match parse_unified_event_line(line) {
        Some(UnifiedEvent::Legacy(DevEvent::Registry(e))) => {
            assert_eq!(e.event_type, RegistryEventType::PromptReset);
            assert_eq!(e.data.version, 3);
            assert!(e.data.entry_names.is_none());
        }
        other => panic!("unexpected: {:?}", other),
    }
}

#[test]
fn envelope_without_marker_in_front_must_be_tagged_with_it() {
    let tagged = r#"{"type":"__FRONTMCP_DEV_EVENT__","event":{"id":"e","timestamp":1,"category":"config","type":"config:missing","scopeId":"s","data":{"missingKeys":["A"]}}}"#;
    assert!(matches!(
        parse_unified_event_line(tagged),
        Some(UnifiedEvent::Legacy(DevEvent::Config(_)))
    ));
    // The marker stands in the body, but the envelope is tagged otherwise.
    let other = r#"{"type":"other","note":"__FRONTMCP_DEV_EVENT__","event":{"id":"e","timestamp":1,"category":"config","type":"config:missing","scopeId":"s","data":{}}}"#;
    assert!(parse_unified_event_line(other).is_none());
}

#[test]
fn a_record_with_a_field_of_the_wrong_kind_is_no_event() {
    // The timestamp must be an unsigned integer.
    let line = r#"__FRONTMCP_DEV_EVENT__{"id":"x","timestamp":"soon","category":"server","type":"server:ready","scopeId":"s","data":{}}"#;
    assert!(parse_unified_event_line(line).is_none());
    // A required field is missing.
    let line = r#"__FRONTMCP_DEV_EVENT__{"id":"x","timestamp":1,"category":"server","type":"server:ready","data":{}}"#;
    assert!(parse_unified_event_line(line).is_none());
    // An optional field may be null, and unknown fields are passed over.
    let line = r#"__FRONTMCP_DEV_EVENT__{"id":"x","timestamp":1,"category":"server","type":"server:ready","scopeId":"s","sessionId":null,"extra":[1,2],"data":{"address":null}}"#;
    assert!(parse_unified_event_line(line).is_some());
    // A category of the second schema that is neither trace nor log.
    let line = r#"__FRONTMCP_DEV_EVENT__{"id":"x","timestamp":1,"category":"metric","type":"t","prefix":"p","scopeId":"s","sessionId":"a","requestId":"b"}"#;
    assert!(parse_unified_event_line(line).is_none());
}

#[test]
fn lines_are_sorted_into_events_failures_and_free_text() {
    assert!(matches!(classify_line("   \t"), LineClass::Blank));
    assert!(matches!(classify_line(""), LineClass::Blank));
    let event = r#"__FRONTMCP_DEV_EVENT__{"id":"x","timestamp":1,"category":"server","type":"server:ready","scopeId":"s","data":{}}  "#;
    assert!(matches!(classify_line(event), LineClass::Event(_)));
    assert!(matches!(
        classify_line("__FRONTMCP_DEV_EVENT__{broken"),
        LineClass::ParseFailure
    ));
    assert!(matches!(
        classify_line("note: __FRONTMCP_DEV_EVENT__ seen"),
        LineClass::ParseFailure
    ));
    match classify_line("  listening on port 3000 \n") {
        LineClass::Log(text) => assert_eq!(text, "  listening on port 3000"),
        other => panic!("unexpected: {:?}", other),
    }
    // JSON that is no event and holds no marker is free text too.
    assert!(matches!(classify_line(r#"{"a":1}"#), LineClass::Log(_)));
}

#[test]
fn the_reader_reads_events_of_the_first_schema_only() {
    let reader = EventReader::new();
    let legacy = r#"__FRONTMCP_DEV_EVENT__{"id":"x","timestamp":1,"category":"session","type":"session:idle","scopeId":"s","data":{"sessionId":"s1"}}"#;
    assert!(matches!(reader.read_line(legacy), Some(DevEvent::Session(_))));
    let trace = r#"__FRONTMCP_DEV_EVENT__{"id":"x","timestamp":1,"category":"trace","type":"t","prefix":"p","scopeId":"s","sessionId":"a","requestId":"b"}"#;
    assert!(reader.read_line(trace).is_none());
    assert!(reader.read_line("plain text").is_none());
}
