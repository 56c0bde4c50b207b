//! The manager socket: what comes in, what goes out, and giving up on a
//! socket that does not appear.

use frontmcp_tui::event::socket_client::{
    after_missed_check, classify_socket_line, CommandMessage, ConnectionError, ManagerCommand,
    SimulateClientOptions, SocketMessage, WaitStep,
};
use frontmcp_tui::event::types::{DevEvent, UnifiedEvent};
use frontmcp_tui::json::Json;
use frontmcp_tui::state::model::{DashboardState, LogLevel};

#[test]
fn messages_are_sorted_by_their_type() {
    assert!(matches!(classify_socket_line("  \n"), SocketMessage::Ignored));
    assert!(matches!(classify_socket_line("not json"), SocketMessage::Ignored));
    assert!(matches!(classify_socket_line(r#"{"type":"other"}"#), SocketMessage::Ignored));
    assert!(matches!(classify_socket_line(r#"{"type":7}"#), SocketMessage::Ignored));
    match classify_socket_line(
        r#" {"type":"welcome","serverId":"a","serverVersion":"1.0","protocolVersion":"2"} "#,
    ) {
        SocketMessage::Welcome(w) => {
            assert_eq!(w.server_version, "1.0");
            assert_eq!(w.protocol_version, "2");
        }
        other => panic!("unexpected: {:?}", other),
    }
    // A greeting that lacks a field is ignored.
    assert!(matches!(
        classify_socket_line(r#"{"type":"welcome","serverId":"a"}"#),
        SocketMessage::Ignored
    ));
    match classify_socket_line(
        r#"{"type":"response","commandId":"cmd-3","success":false,"error":{"code":"E1","message":"no"}}"#,
    ) {
        SocketMessage::Response(r) => {
            assert_eq!(r.command_id, "cmd-3");
            assert!(!r.success);
            assert_eq!(r.error.unwrap().code, "E1");
        }
        other => panic!("unexpected: {:?}", other),
    }
}

#[test]
fn a_state_message_that_does_not_fit_becomes_a_fault() {
    match classify_socket_line(r#"{"type":"state","id":"m","timestamp":1,"state":{"scopes":[]}}"#) {
        SocketMessage::Event(UnifiedEvent::Error(text)) => {
            assert!(text.starts_with("State parse error: "));
        }
        other => panic!("unexpected: {:?}", other),
    }
}

#[test]
fn an_event_is_read_in_the_first_schema_or_else_by_its_shape() {
    let first = r#"{"type":"event","id":"m","timestamp":9,"event":{"id":"e","timestamp":1,"category":"server","type":"server:starting","scopeId":"s","data":{}}}"#;
    assert!(matches!(
        classify_socket_line(first),
        SocketMessage::Event(UnifiedEvent::Legacy(DevEvent::Server(_)))
    ));
    let raw = r#"{"type":"event","id":"m7","timestamp":9,"event":{"id":"e","timestamp":1,"category":"trace","type":"tool:execute","scopeId":"s","sessionId":"s1","traceContext":{"traceId":"t1","parentId":"up"},"data":{"entryName":"x"}}}"#;
    match classify_socket_line(raw) {
        SocketMessage::Event(UnifiedEvent::LogTransport(e)) => {
            assert_eq!(e.id, "m7");
            assert_eq!(e.timestamp, 9);
            assert_eq!(e.category, "trace");
            assert_eq!(e.event_type, "tool:execute");
            assert_eq!(e.prefix, "manager");
            assert_eq!(e.session_id, "s1");
            assert_eq!(e.request_id, "unknown");
            let context = e.trace_context.unwrap();
            assert_eq!(context.trace_id, "t1");
            assert_eq!(context.parent_id.as_deref(), Some("up"));
            assert_eq!(
                e.data.unwrap().get("entryName").and_then(|v| v.as_str()),
                Some("x")
            );
            assert_eq!(e.message, None);
        }
        other => panic!("unexpected: {:?}", other),
    }
    // Without a category the event counts as one of a request.
    let bare = r#"{"type":"event","id":"m","timestamp":9,"event":{"type":"x","scopeId":"s"}}"#;
    match classify_socket_line(bare) {
        SocketMessage::Event(UnifiedEvent::LogTransport(e)) => {
            assert_eq!(e.category, "request");
            assert_eq!(e.session_id, "unknown");
            assert!(e.data.is_none());
        }
        other => panic!("unexpected: {:?}", other),
    }
    // Without a scope it is no event.
    let no_scope = r#"{"type":"event","id":"m","timestamp":9,"event":{"type":"x"}}"#;
    assert!(matches!(classify_socket_line(no_scope), SocketMessage::Ignored));
}

#[test]
fn a_log_event_by_shape_takes_its_level_in_lower_case() {
    let raw = r#"{"type":"event","id":"m","timestamp":9,"event":{"category":"log","type":"log","scopeId":"s","data":{"message":"disk full","level":"ERROR","prefix":"fs"}}}"#;
    let mut state = DashboardState::default();
    state.take_message(classify_socket_line(raw), 5);
    assert_eq!(state.logs.len(), 1);
    assert_eq!(state.logs[0].level, LogLevel::Error);
    assert_eq!(state.logs[0].message, "disk full");
    assert_eq!(state.logs[0].source, "fs");
    assert_eq!(state.logs[0].timestamp, 5);
    assert_eq!(state.events_received, 1);
    let no_prefix = r#"{"type":"event","id":"m","timestamp":9,"event":{"category":"log","type":"log","scopeId":"s","data":{"message":"m"}}}"#;
    state.take_message(classify_socket_line(no_prefix), 6);
    assert_eq!(state.logs[1].source, "sdk");
    assert_eq!(state.logs[1].level, LogLevel::Info);
}

#[test]
fn answers_to_commands_are_logged_in_one_line() {
    let mut state = DashboardState::default();
    let answers = [
        (
            r#"{"type":"response","commandId":"cmd-0","success":true,"data":{"b":1,"a":[1,2]}}"#,
            LogLevel::Info,
            "Command cmd-0 succeeded: 2 fields".to_string(),
        ),
        (
            r#"{"type":"response","commandId":"cmd-1","success":true}"#,
            LogLevel::Info,
            "Command cmd-1 succeeded: no data".to_string(),
        ),
        (
            r#"{"type":"response","commandId":"cmd-2","success":true,"data":"pong"}"#,
            LogLevel::Info,
            "Command cmd-2 succeeded: \"pong\"".to_string(),
        ),
        (
            r#"{"type":"response","commandId":"cmd-3","success":true,"data":[1000000000,1000000001,1000000002,1000000003,1000000004,1000000005]}"#,
            LogLevel::Info,
            format!("Command cmd-3 succeeded: {}", &"[1000000000,1000000001,1000000002,1000000003,1000000004,1000000005]"[..50]),
        ),
        (
            r#"{"type":"response","commandId":"cmd-4","success":false,"error":{"code":"E_TOOL","message":"not found"}}"#,
            LogLevel::Error,
            "Command cmd-4 failed: E_TOOL: not found".to_string(),
        ),
        (
            r#"{"type":"response","commandId":"cmd-5","success":false}"#,
            LogLevel::Error,
            "Command cmd-5 failed: unknown error".to_string(),
        ),
    ];
    for (line, level, message) in answers {
        match classify_socket_line(line) {
            SocketMessage::Response(r) => state.handle_command_response_at(r, 3),
            other => panic!("unexpected: {:?}", other),
        }
        let last = state.logs.last().unwrap();
        assert_eq!(last.level, level);
        assert_eq!(last.message, message);
        assert_eq!(last.source, "socket");
    }
    // Nothing but the log changed.
    assert_eq!(state.events_received, 0);
    assert_eq!(state.logs.len(), 6);
    let r = match classify_socket_line(r#"{"type":"response","commandId":"c","success":true}"#) {
        SocketMessage::Response(r) => r,
        other => panic!("unexpected: {:?}", other),
    };
    state.handle_command_response(r);
    assert!(state.logs.last().unwrap().timestamp > 0);
}

fn fields(text: &str) -> Json {
    Json::parse(text).expect("the command is JSON")
}

#[test]
fn commands_are_written_with_their_id_and_name() {
    let ping = CommandMessage::new(0, ManagerCommand::Ping);
    assert_eq!(ping.id, "cmd-0");
    assert_eq!(ping.msg_type, "command");
    assert_eq!(ping.encode(), r#"{"command":{"name":"ping"},"id":"cmd-0","type":"command"}"#);
    let state = CommandMessage::new(12, ManagerCommand::GetState);
    assert_eq!(state.encode(), r#"{"command":{"name":"getState"},"id":"cmd-12","type":"command"}"#);
    let list = CommandMessage::new(
        18446744073709551615,
        ManagerCommand::ListTools { scope_id: "main".into() },
    );
    assert_eq!(list.id, "cmd-18446744073709551615");
    let j = fields(&list.encode());
    let command = j.get("command").unwrap();
    assert_eq!(command.get("name").and_then(|v| v.as_str()), Some("listTools"));
    assert_eq!(command.get("scopeId").and_then(|v| v.as_str()), Some("main"));
}

#[test]
fn optional_arguments_are_left_out_when_missing() {
    let call = CommandMessage::new(
        1,
        ManagerCommand::CallTool {
            scope_id: "main".into(),
            tool_name: "get \"weather\"".into(),
            arguments: Json::parse(r#"{"city":"Oslo","days":[1,2.5,-3]}"#),
        },
    );
    assert_eq!(
        call.encode(),
        r#"{"command":{"arguments":{"city":"Oslo","days":[1,2.5,-3]},"name":"callTool","scopeId":"main","toolName":"get \"weather\""},"id":"cmd-1","type":"command"}"#
    );
    let bare = CommandMessage::new(
        2,
        ManagerCommand::CallTool { scope_id: "s".into(), tool_name: "t".into(), arguments: None },
    );
    assert!(fields(&bare.encode()).get("command").unwrap().get("arguments").is_none());
    let simulate = CommandMessage::new(
        3,
        ManagerCommand::SimulateClient {
            scope_id: "s".into(),
            options: Some(SimulateClientOptions {
                client_name: Some("probe".into()),
                client_version: None,
            }),
        },
    );
    assert_eq!(
        simulate.encode(),
        r#"{"command":{"name":"simulateClient","options":{"clientName":"probe","clientVersion":null},"scopeId":"s"},"id":"cmd-3","type":"command"}"#
    );
    let plain = CommandMessage::new(
        4,
        ManagerCommand::SimulateClient { scope_id: "s".into(), options: None },
    );
    assert!(fields(&plain.encode()).get("command").unwrap().get("options").is_none());
}

#[test]
fn the_client_gives_up_on_a_socket_that_does_not_appear() {
    assert!(matches!(after_missed_check(0, "/tmp/x.sock"), WaitStep::Retry(1)));
    assert!(matches!(after_missed_check(49, "/tmp/x.sock"), WaitStep::Retry(50)));
    match after_missed_check(50, "/tmp/x.sock") {
        WaitStep::GiveUp(e) => {
            assert_eq!(
                e.message,
                "Socket not found after 5s. Server may not be running.\nPath: /tmp/x.sock"
            );
            assert_eq!(e.socket_path, "/tmp/x.sock");
            assert_eq!(e.describe(), e.message);
        }
        other => panic!("unexpected: {:?}", other),
    }
    assert!(matches!(after_missed_check(u32::MAX, "p"), WaitStep::GiveUp(_)));
}

#[test]
fn each_connection_fault_names_its_cause() {
    let refused = ConnectionError::refused("Connection refused (os error 111)", "/run/m.sock");
    assert_eq!(
        refused.message,
        "Failed to connect to server socket: Connection refused (os error 111)\nPath: /run/m.sock"
    );
    assert_eq!(refused.socket_path, "/run/m.sock");
    let split = ConnectionError::not_split("too many open files", "/run/m.sock");
    assert_eq!(split.message, "Failed to clone socket for reading: too many open files");
    assert_eq!(split.socket_path, "/run/m.sock");
    let missing = ConnectionError::not_found("");
    assert_eq!(missing.message, "Socket not found after 5s. Server may not be running.\nPath: ");
}
