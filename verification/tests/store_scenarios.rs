//! What the store does with events, lines and snapshots, on given values.

use frontmcp_tui::event::decode::parse_unified_event_line;
use frontmcp_tui::event::socket_client::{classify_socket_line, SocketMessage};
use frontmcp_tui::event::types::UnifiedEvent;
use frontmcp_tui::state::model::{DashboardState, LogFilter, LogLevel};

const T0: u64 = 1_700_000_000_000;

fn trace(event_type: &str, session: &str, request: &str, data: &str) -> UnifiedEvent {
    let line = format!(
        "__FRONTMCP_DEV_EVENT__{{\"id\":\"e\",\"timestamp\":42,\"category\":\"trace\",\"type\":\"{}\",\"prefix\":\"t\",\"scopeId\":\"sc\",\"sessionId\":\"{}\",\"requestId\":\"{}\",\"data\":{}}}",
        event_type, session, request, data
    );
    parse_unified_event_line(&line).expect("a trace event")
}

fn legacy(category: &str, event_type: &str, extra: &str, data: &str) -> UnifiedEvent {
    let line = format!(
        "__FRONTMCP_DEV_EVENT__{{\"id\":\"e\",\"timestamp\":42,\"category\":\"{}\",\"type\":\"{}\",\"scopeId\":\"sc\"{},\"data\":{}}}",
        category, event_type, extra, data
    );
    match parse_unified_event_line(&line) {
        Some(UnifiedEvent::Legacy(e)) => UnifiedEvent::Legacy(e),
        other => panic!("no event of the first schema: {:?}", other),
    }
}

fn registry_data(names: &str, rest: &str) -> String {
    format!(
        "{{\"registryType\":\"x\",\"entryNames\":{},\"changeKind\":\"k\",\"changeScope\":\"global\",\"snapshotCount\":1,\"version\":1{}}}",
        names, rest
    )
}

fn tool_names(state: &DashboardState) -> Vec<&str> {
    state.tools.iter().map(|t| t.name.as_str()).collect()
}

#[test]
fn connect_then_disconnect_keeps_the_session_and_marks_it_inactive() {
    let mut state = DashboardState::default();
    state.handle_unified_event_at(trace("session:connect", "s1", "unknown", r#"{"sessionId":"s1"}"#), T0);
    assert_eq!(state.overview.total_sessions, 1);
    assert_eq!(state.overview.active_sessions, 1);
    state.handle_unified_event_at(trace("session:disconnect", "s1", "unknown", "{}"), T0 + 1);
    let s = state.session("s1").expect("the session stays");
    assert!(!s.is_active);
    assert_eq!(s.connected_at, 42);
    assert_eq!(state.sessions.len(), 1);
    assert_eq!(state.overview.total_sessions, 1);
    assert_eq!(state.overview.active_sessions, 0);
    // Both steps were logged, in the log of the session too.
    assert_eq!(state.logs.len(), 2);
    assert_eq!(state.logs[0].message, "Session connected: s1");
    assert_eq!(state.logs[1].message, "Session disconnected: s1");
    assert_eq!(state.logs[1].timestamp, T0 + 1);
    assert_eq!(state.session_logs.len(), 1);
    assert_eq!(state.session_logs[0].entries.len(), 2);
}

#[test]
fn a_session_without_id_is_not_recorded() {
    let mut state = DashboardState::default();
    state.handle_unified_event_at(trace("session:connect", "unknown", "unknown", "{}"), T0);
    assert!(state.sessions.is_empty());
    assert!(state.logs.is_empty());
    assert_eq!(state.events_received, 1);
}

#[test]
fn the_first_schema_connects_and_disconnects_too() {
    let mut state = DashboardState::default();
    state.handle_unified_event_at(
        legacy(
            "session",
            "session:connect",
            "",
            r#"{"sessionId":"s1","transportType":"sse","clientInfo":{"name":"cli","version":"2"},"authUser":{"name":"ann"},"isAnonymous":false}"#,
        ),
        T0,
    );
    let s = state.session("s1").unwrap();
    assert_eq!(s.client_name.as_deref(), Some("cli"));
    assert_eq!(s.client_version.as_deref(), Some("2"));
    assert_eq!(s.auth_user_name.as_deref(), Some("ann"));
    assert_eq!(s.auth_user_email, None);
    assert_eq!(s.is_anonymous, Some(false));
    state.handle_unified_event_at(legacy("session", "session:idle", "", r#"{"sessionId":"s1"}"#), T0);
    assert_eq!(state.logs.last().unwrap().level, LogLevel::Debug);
    assert_eq!(state.logs.last().unwrap().message, "Session idle: s1");
    state.handle_unified_event_at(
        legacy("session", "session:disconnect", "", r#"{"sessionId":"s1"}"#),
        T0,
    );
    assert!(!state.session("s1").unwrap().is_active);
    assert_eq!(state.overview.total_sessions, 1);
}

#[test]
fn adding_the_same_names_twice_adds_them_once() {
    let mut state = DashboardState::default();
    for _ in 0..2 {
        state.handle_unified_event_at(
            trace("registry:tool:added", "unknown", "unknown", r#"{"entryNames":["a","b"]}"#),
            T0,
        );
    }
    assert_eq!(tool_names(&state), vec!["a", "b"]);
    // The first schema passes over the names that are there as well.
    for _ in 0..2 {
        state.handle_unified_event_at(
            legacy("registry", "registry:tool:added", "", &registry_data(r#"["b","c","c"]"#, "")),
            T0,
        );
    }
    assert_eq!(tool_names(&state), vec!["a", "b", "c"]);
    assert_eq!(state.logs.last().unwrap().message, "Tools added: b, c, c");
}

#[test]
fn a_reset_leaves_exactly_the_names_it_carries() {
    let mut state = DashboardState::default();
    state.handle_unified_event_at(
        trace("registry:prompt:added", "unknown", "unknown", r#"{"entryNames":["old1","old2"]}"#),
        T0,
    );
    state.handle_unified_event_at(
        trace("registry:prompt:reset", "unknown", "unknown", r#"{"entryNames":["n1","n2","n1"]}"#),
        T0,
    );
    let names: Vec<&str> = state.prompts.iter().map(|p| p.name.as_str()).collect();
    assert_eq!(names, vec!["n1", "n2"]);
    assert_eq!(state.logs.last().unwrap().message, "Prompts registered: n1, n2, n1");
    // A reset to nothing empties the registry and logs nothing.
    let logged = state.logs.len();
    state.handle_unified_event_at(trace("registry:prompt:reset", "unknown", "unknown", "{}"), T0);
    assert!(state.prompts.is_empty());
    assert_eq!(state.logs.len(), logged);
}

#[test]
fn a_rich_reset_brings_the_details_and_a_bare_one_drops_them() {
    let mut state = DashboardState::default();
    let rich = registry_data(
        "null",
        r#","entries":[{"name":"t1","description":"d","inputSchema":{"type":"object"},"owner":{"kind":"app","id":"A"}},{"name":"t2"}]"#,
    );
    state.handle_unified_event_at(legacy("registry", "registry:tool:reset", "", &rich), T0);
    assert_eq!(tool_names(&state), vec!["t1", "t2"]);
    assert_eq!(state.tools[0].description.as_deref(), Some("d"));
    assert_eq!(state.tools[0].input_schema.as_deref(), Some(r#"{"type":"object"}"#));
    assert_eq!(state.tools[0].owner_id.as_deref(), Some("A"));
    assert_eq!(state.overview.registered_apps, 1);
    assert_eq!(state.logs.last().unwrap().message, "Tools reset");
    let bare = registry_data(r#"["t1"]"#, "");
    state.handle_unified_event_at(legacy("registry", "registry:tool:reset", "", &bare), T0);
    assert_eq!(tool_names(&state), vec!["t1"]);
    assert_eq!(state.tools[0].description, None);
    assert_eq!(state.tools[0].input_schema, None);
    assert_eq!(state.overview.registered_apps, 0);
}

#[test]
fn updates_are_logged_and_change_no_entry() {
    let mut state = DashboardState::default();
    state.handle_unified_event_at(
        trace("registry:resource:added", "unknown", "unknown", r#"{"entryNames":["r"]}"#),
        T0,
    );
    state.handle_unified_event_at(
        trace(
            "registry:resource:updated",
            "unknown",
            "unknown",
            r#"{"entryNames":["r"],"owner":{"kind":"app","id":"A"}}"#,
        ),
        T0,
    );
    assert_eq!(state.resources.len(), 1);
    assert_eq!(state.resources[0].owner_id, None);
    assert_eq!(state.logs.last().unwrap().message, "Resources updated: r");
    // Agents have no registry: their events are logged.
    state.handle_unified_event_at(
        legacy("registry", "registry:agent:added", "", &registry_data(r#"["x","y"]"#, "")),
        T0,
    );
    assert_eq!(state.logs.last().unwrap().message, "Agent k: x, y");
}

#[test]
fn the_later_entry_name_wins_and_a_missing_one_keeps_the_earlier() {
    let mut state = DashboardState::default();
    state.handle_unified_event_at(
        trace("request:start", "s", "r1", r#"{"flowName":"tools:call-tool","entryName":"early"}"#),
        T0,
    );
    state.handle_unified_event_at(
        trace("request:start", "s", "r2", r#"{"flowName":"tools:call-tool","entryName":"kept"}"#),
        T0,
    );
    state.handle_unified_event_at(
        trace(
            "request:complete",
            "s",
            "r1",
            r#"{"flowName":"tools:call-tool","entryName":"late","durationMs":7}"#,
        ),
        T0,
    );
    state.handle_unified_event_at(
        trace("request:error", "s", "r2", r#"{"flowName":"tools:call-tool","durationMs":9}"#),
        T0,
    );
    assert_eq!(state.requests.len(), 2);
    assert_eq!(state.requests[0].entry_name.as_deref(), Some("late"));
    assert_eq!(state.requests[0].duration_ms, Some(7));
    assert!(!state.requests[0].is_error);
    assert_eq!(state.requests[1].entry_name.as_deref(), Some("kept"));
    assert!(state.requests[1].is_error);
    assert_eq!(state.requests[1].error_message.as_deref(), Some("Unknown error"));
    assert_eq!(state.metrics.tool_calls("late"), 1);
    assert_eq!(state.metrics.tool_calls("kept"), 1);
    assert_eq!(state.metrics.tool_calls("early"), 0);
    assert_eq!(state.metrics.total_duration_ms, 16);
    assert_eq!(state.logs[2].message, "Request complete: tools:call-tool [late] (7ms)");
    assert_eq!(state.logs[3].message, "Request error: tools:call-tool [kept] - Unknown error");
    assert_eq!(state.logs[3].level, LogLevel::Error);
    // Newest first.
    assert_eq!(state.overview.last_tool_calls[0].name, "kept");
    assert!(!state.overview.last_tool_calls[0].success);
    assert_eq!(state.overview.last_tool_calls[1].name, "late");
}

#[test]
fn the_end_of_an_unseen_request_counts_and_adds_no_record() {
    let mut state = DashboardState::default();
    state.handle_unified_event_at(
        trace("request:complete", "s", "nobody", r#"{"flowName":"resources:read","entryName":"x"}"#),
        T0,
    );
    assert!(state.requests.is_empty());
    assert_eq!(state.metrics.total_requests, 1);
    assert_eq!(state.metrics.successful_requests, 1);
    // No tool flow: the name is neither counted nor shown.
    assert!(state.metrics.tool_usage.is_empty());
    assert!(state.overview.last_tool_calls.is_empty());
    assert_eq!(state.logs[0].message, "Request complete: resources:read [x]");
}

#[test]
fn a_request_of_the_first_schema_counts_its_traffic() {
    let mut state = DashboardState::default();
    state.handle_unified_event_at(
        legacy("request", "request:start", r#","requestId":"r""#, r#"{"flowName":"tools:call","method":"m"}"#),
        T0,
    );
    assert_eq!(state.logs[0].message, "Request started: tools:call [m]");
    state.handle_unified_event_at(
        legacy(
            "request",
            "request:complete",
            r#","requestId":"r""#,
            r#"{"flowName":"tools:call","entryName":"t","requestBody":{"a":[1,2,3]},"responseBody":"12345678901234","isError":true}"#,
        ),
        T0,
    );
    // {"a":[1,2,3]} takes 13 bytes, "12345678901234" with its quotes 16.
    assert_eq!(state.metrics.inbound_bytes, 13);
    assert_eq!(state.metrics.outbound_bytes, 16);
    assert_eq!(state.metrics.prompt_tokens, 3);
    assert_eq!(state.metrics.completion_tokens, 4);
    assert_eq!(state.metrics.total_tokens, 7);
    assert_eq!(state.metrics.failed_requests, 1);
    assert!(state.requests[0].is_error);
    assert_eq!(state.requests[0].entry_name.as_deref(), Some("t"));
}

#[test]
fn the_port_is_taken_from_the_end_of_the_address() {
    let mut state = DashboardState::default();
    state.handle_unified_event_at(
        trace("server:ready", "unknown", "unknown", r#"{"address":"http://localhost:3000"}"#),
        T0,
    );
    assert_eq!(state.overview.server_port, Some(3000));
    // A last part that is no number leaves the port as it was.
    state.handle_unified_event_at(
        trace("server:ready", "unknown", "unknown", r#"{"address":"http://localhost:3000/path"}"#),
        T0,
    );
    assert_eq!(state.overview.server_port, Some(3000));
    assert_eq!(state.overview.server_address.as_deref(), Some("http://localhost:3000/path"));
    state.handle_unified_event_at(
        trace("server:ready", "unknown", "unknown", r#"{"address":"[::1]:+80"}"#),
        T0,
    );
    assert_eq!(state.overview.server_port, Some(80));
    // A number that does not fit in sixteen bits is no port.
    state.handle_unified_event_at(
        trace("server:ready", "unknown", "unknown", r#"{"address":"host:65536"}"#),
        T0,
    );
    assert_eq!(state.overview.server_port, Some(80));
    state.handle_unified_event_at(
        trace("server:ready", "unknown", "unknown", r#"{"address":"host:65535"}"#),
        T0,
    );
    assert_eq!(state.overview.server_port, Some(65535));
    state.handle_unified_event_at(trace("server:ready", "unknown", "unknown", "{}"), T0);
    assert_eq!(state.overview.server_address, None);
    assert_eq!(state.overview.server_port, Some(65535));
}

#[test]
fn server_and_config_events_of_the_first_schema() {
    let mut state = DashboardState::default();
    state.handle_unified_event_at(
        legacy(
            "server",
            "server:ready",
            "",
            r#"{"serverInfo":{"name":"demo","version":"1.2"},"address":"127.0.0.1:8080"}"#,
        ),
        T0,
    );
    assert!(state.server.is_ready);
    assert_eq!(state.server.name.as_deref(), Some("demo"));
    assert_eq!(state.overview.server_port, Some(8080));
    state.handle_unified_event_at(legacy("server", "server:error", "", r#"{"error":"boom"}"#), T0);
    assert_eq!(state.server.error.as_deref(), Some("boom"));
    assert_eq!(state.logs.last().unwrap().message, "Server error: boom");
    state.handle_unified_event_at(legacy("server", "server:error", "", "{}"), T0);
    assert_eq!(state.logs.last().unwrap().message, "Server error: Unknown");
    state.handle_unified_event_at(
        legacy(
            "config",
            "config:loaded",
            "",
            r#"{"configPath":"/app/.env","loadedKeys":["A","B"]}"#,
        ),
        T0,
    );
    assert!(state.config.is_loaded);
    assert_eq!(state.config.loaded_keys, vec!["A".to_string(), "B".to_string()]);
    state.handle_unified_event_at(
        legacy(
            "config",
            "config:error",
            "",
            r#"{"errors":[{"path":"A","message":"missing"},{"path":"B","message":"bad"}]}"#,
        ),
        T0,
    );
    assert_eq!(state.config.errors, vec!["missing".to_string(), "bad".to_string()]);
    state.handle_unified_event_at(
        legacy("config", "config:missing", "", r#"{"missingKeys":["C"]}"#),
        T0,
    );
    assert_eq!(state.config.missing_keys, vec!["C".to_string()]);
    assert_eq!(state.logs.last().unwrap().level, LogLevel::Warn);
}

#[test]
fn a_tagged_line_that_cannot_be_read_is_counted_once_and_folds_nothing() {
    let mut state = DashboardState::default();
    state.ingest_line("__FRONTMCP_DEV_EVENT__{\"id\":");
    assert_eq!(state.parse_failures, 1);
    assert_eq!(state.lines_read, 1);
    assert_eq!(state.events_received, 0);
    assert!(state.logs.is_empty());
    assert!(state.recent_errors.is_empty());
    // A line that is well-formed JSON of no known shape fails the same way.
    state.ingest_line("__FRONTMCP_DEV_EVENT__{\"category\":\"nothing\"}");
    assert_eq!(state.parse_failures, 2);
    assert_eq!(state.events_received, 0);
    // Ordinary output is never counted as a failure, and a blank line not at all.
    state.ingest_line("Server listening");
    state.ingest_line("   ");
    assert_eq!(state.parse_failures, 2);
    assert_eq!(state.lines_read, 3);
    assert_eq!(state.logs.len(), 1);
    assert_eq!(state.logs[0].source, "output");
    assert!(state.logs[0].timestamp > 0);
}

#[test]
fn a_fault_is_counted_shown_and_logged() {
    let mut state = DashboardState::default();
    for i in 0..7 {
        state.handle_unified_event_at(UnifiedEvent::Error(format!("fault {}", i)), T0);
    }
    assert_eq!(state.parse_failures, 7);
    assert_eq!(
        state.recent_errors,
        vec!["fault 2", "fault 3", "fault 4", "fault 5", "fault 6"]
    );
    assert_eq!(state.logs.len(), 7);
    assert_eq!(state.logs[6].source, "system");
    assert_eq!(state.events_received, 0);
}

const SNAPSHOT: &str = r#"{"type":"state","id":"m","timestamp":5,"state":{"scopes":[{"id":"main","tools":[{"name":"t1","description":"first","owner":{"kind":"app","id":"Weather"}},{"name":"t2"}],"resources":[{"uri":"file://x","name":"r1","owner":{"kind":"app","id":"Weather"}}],"prompts":[{"name":"ask","owner":{"kind":"app","id":"main"}}],"agents":[],"plugins":[{"name":"cache","version":"1.0","owner":{"kind":"app","id":"Crm"}}]},{"id":"side","tools":[{"name":"t1"}],"resources":[],"prompts":[],"agents":[],"adapters":[{"name":"rest","owner":{"kind":"scope","id":"side"}}]}],"sessions":[{"scopeId":"main","sessionId":"s9","transportType":"stdio","connectedAt":77,"authMode":"public"}],"server":{"name":"demo","version":"3.1","startedAt":1,"capabilities":{}}}}"#;

#[test]
fn a_snapshot_replaces_what_events_brought() {
    let mut state = DashboardState::default();
    for name in ["x", "y", "z"] {
        let data = format!("{{\"entryNames\":[\"{}\"],\"owner\":{{\"kind\":\"app\",\"id\":\"Old\"}}}}", name);
        state.handle_unified_event_at(trace("registry:tool:added", "unknown", "unknown", &data), T0);
    }
    assert_eq!(state.tools.len(), 3);
    assert_eq!(state.overview.registered_apps, 1);
    let snapshot = match classify_socket_line(SNAPSHOT) {
        SocketMessage::State(s) => s,
        other => panic!("no snapshot: {:?}", other),
    };
    state.handle_state_snapshot_at(snapshot, T0);
    // Exactly the tools of the snapshot, in its order, the same name twice where it has it twice.
    assert_eq!(tool_names(&state), vec!["t1", "t2", "t1"]);
    assert_eq!(state.tools[0].description.as_deref(), Some("first"));
    assert_eq!(state.tools[0].owner_kind.as_deref(), Some("app"));
    assert_eq!(state.tools[0].owner_id.as_deref(), Some("Weather"));
    // An entry without owner is owned by its scope.
    assert_eq!(state.tools[1].owner_kind.as_deref(), Some("scope"));
    assert_eq!(state.tools[1].owner_id.as_deref(), Some("main"));
    assert_eq!(state.tools[2].owner_id.as_deref(), Some("side"));
    assert_eq!(state.resources.len(), 1);
    assert_eq!(state.resources[0].uri.as_deref(), Some("file://x"));
    assert_eq!(state.plugins[0].owner_id.as_deref(), Some("Crm"));
    assert_eq!(state.adapters[0].owner_id.as_deref(), Some("side"));
    assert_eq!(state.scopes.len(), 2);
    assert_eq!(state.overview.scope_count, 2);
    // Weather owns a tool and a resource, main a prompt only.
    assert_eq!(state.overview.registered_apps, 1);
    // Apps other than the scope itself are placed in the scope.
    let placed: Vec<(&str, &str)> = state
        .app_scope_map
        .iter()
        .map(|a| (a.app_id.as_str(), a.scope_id.as_str()))
        .collect();
    assert_eq!(placed, vec![("Weather", "main"), ("Crm", "main")]);
    assert_eq!(state.apps.len(), 2);
    assert_eq!(state.apps[0].tool_count, 2);
    assert_eq!(state.apps[0].plugin_count, 1);
    assert!(state.server.is_ready);
    assert_eq!(state.server.version.as_deref(), Some("3.1"));
    let s = state.session("s9").unwrap();
    assert!(s.is_active);
    assert_eq!(s.connected_at, 77);
    assert_eq!(s.transport_type.as_deref(), Some("stdio"));
    assert_eq!(
        state.logs.last().unwrap().message,
        "Connected to server: 3 tools, 1 resources, 1 prompts, 1 plugins, 1 adapters, 1 sessions"
    );
    assert_eq!(state.logs.last().unwrap().source, "system");
}

#[test]
fn the_distinct_app_count_follows_tools_and_resources() {
    let mut state = DashboardState::default();
    let add = |state: &mut DashboardState, kind: &str, name: &str, owner_kind: &str, owner: &str| {
        let data = format!(
            "{{\"entryNames\":[\"{}\"],\"owner\":{{\"kind\":\"{}\",\"id\":\"{}\"}}}}",
            name, owner_kind, owner
        );
        state.handle_unified_event_at(
            trace(&format!("registry:{}:added", kind), "unknown", "unknown", &data),
            T0,
        );
    };
    add(&mut state, "tool", "t1", "app", "A");
    add(&mut state, "tool", "t2", "app", "A");
    add(&mut state, "resource", "r1", "app", "B");
    add(&mut state, "resource", "r2", "scope", "C");
    add(&mut state, "prompt", "ask", "app", "D");
    add(&mut state, "plugin", "pl", "app", "E");
    assert_eq!(state.overview.registered_apps, 2);
    state.update_overview_registry();
    state.update_overview_registry();
    assert_eq!(state.overview.registered_apps, 2);
    state.handle_unified_event_at(
        trace("registry:resource:removed", "unknown", "unknown", r#"{"entryNames":["r1","nothing"]}"#),
        T0,
    );
    assert_eq!(state.overview.registered_apps, 1);
    assert_eq!(state.logs.last().unwrap().message, "Resources removed: r1, nothing");
}

#[test]
fn the_logs_keep_their_newest_entries() {
    let mut state = DashboardState::default();
    for i in 0..1003u64 {
        state.add_log_with_context(
            i,
            LogLevel::Info,
            format!("m{}", i),
            "test",
            if i % 2 == 0 { Some("even".to_string()) } else { None },
            None,
        );
    }
    assert_eq!(state.logs.len(), 1000);
    assert_eq!(state.logs[0].message, "m3");
    assert_eq!(state.logs[999].message, "m1002");
    // 502 entries of the one session came in; its log keeps the newest 500.
    assert_eq!(state.session_logs.len(), 1);
    assert_eq!(state.session_logs[0].entries.len(), 500);
    assert_eq!(state.session_logs[0].entries[0].message, "m4");
    assert_eq!(state.session_logs[0].entries[499].message, "m1002");
}

#[test]
fn the_metrics_keep_sixty_samples_and_the_overview_five_calls() {
    let mut state = DashboardState::default();
    for i in 0..65u32 {
        state.metrics.update_system_metrics(i, 1000 + i as u64);
    }
    assert_eq!(state.metrics.cpu_history.len(), 60);
    assert_eq!(state.metrics.memory_history.len(), 60);
    assert_eq!(state.metrics.cpu_history[0], 5);
    assert_eq!(state.metrics.cpu_history[59], 64);
    assert_eq!(state.metrics.memory_history[0], 1005);
    assert_eq!(state.metrics.current_cpu, 64);
    assert_eq!(state.metrics.current_memory, 1064);
    for i in 0..7u64 {
        state.overview.add_tool_call_at(i, format!("tool{}", i), i % 2 == 0, Some(i));
    }
    let names: Vec<&str> = state.overview.last_tool_calls.iter().map(|c| c.name.as_str()).collect();
    assert_eq!(names, vec!["tool6", "tool5", "tool4", "tool3", "tool2"]);
    assert_eq!(state.overview.last_tool_calls[0].timestamp, 6);
    state.overview.add_tool_call("now".to_string(), true, None);
    assert_eq!(state.overview.last_tool_calls[0].name, "now");
    assert!(state.overview.last_tool_calls[0].timestamp > 0);
    assert_eq!(state.overview.last_tool_calls.len(), 5);
}

#[test]
fn totals_stop_at_the_largest_number() {
    let mut state = DashboardState::default();
    state.metrics.total_duration_ms = u64::MAX - 1;
    state.metrics.record_request(true, Some(5), Some("t"));
    assert_eq!(state.metrics.total_duration_ms, u64::MAX);
    state.metrics.record_request(false, None, Some("t"));
    assert_eq!(state.metrics.tool_calls("t"), 2);
    assert_eq!(state.metrics.total_requests, 2);
    assert_eq!(state.metrics.successful_requests, 1);
    assert_eq!(state.metrics.failed_requests, 1);
    state.metrics.record_traffic(u64::MAX, 9);
    assert_eq!(state.metrics.inbound_bytes, u64::MAX);
    assert_eq!(state.metrics.outbound_bytes, 9);
    assert_eq!(state.metrics.prompt_tokens, u64::MAX / 4);
    assert_eq!(state.metrics.completion_tokens, 2);
    state.events_received = u64::MAX;
    state.handle_unified_event_at(trace("config:error", "unknown", "unknown", "{}"), T0);
    assert_eq!(state.events_received, u64::MAX);
}

#[test]
fn raw_lines_are_read_by_their_form() {
    let mut state = DashboardState::default();
    // Without an entry to continue, a line of no form starts the log.
    state.add_raw_log_at(T0, "plain".to_string());
    assert_eq!(state.logs[0].message, "plain");
    assert_eq!(state.logs[0].source, "output");
    state.add_raw_log_at(T0, "[12:00:00.000] [server]   ERROR   it broke  ".to_string());
    assert_eq!(state.logs[1].level, LogLevel::Error);
    assert_eq!(state.logs[1].source, "server");
    assert_eq!(state.logs[1].message, "it broke  ");
    state.add_raw_log_at(T0, "    at line 3".to_string());
    assert_eq!(state.logs.len(), 2);
    assert_eq!(state.logs[1].message, "it broke  \n    at line 3");
    state.add_raw_log_at(T0, "  \t ".to_string());
    assert_eq!(state.logs.len(), 2);
    let cases = [
        ("[t] [a] WARN w", LogLevel::Warn, "w"),
        ("[t] [a] INFO i", LogLevel::Info, "i"),
        ("[t] [a] DEBUG d", LogLevel::Debug, "d"),
        ("[t] [a] VERBOSE v", LogLevel::Debug, "v"),
        ("[t] [a] NOTICE n", LogLevel::Info, "NOTICE n"),
        ("[t][a]INFOx", LogLevel::Info, "x"),
    ];
    for (line, level, message) in cases {
        state.add_raw_log_at(T0, line.to_string());
        let last = state.logs.last().unwrap();
        assert_eq!(last.level, level, "{}", line);
        assert_eq!(last.message, message, "{}", line);
        assert_eq!(last.source, "a");
    }
    // A bracket that never closes, or no second bracket: no structured line.
    let before = state.logs.len();
    state.add_raw_log_at(T0, "[t] no source".to_string());
    state.add_raw_log_at(T0, "[t".to_string());
    assert_eq!(state.logs.len(), before);
    assert!(state.logs.last().unwrap().message.ends_with("\n[t] no source\n[t"));
}

#[test]
fn log_lines_of_the_second_schema_take_their_level_and_source() {
    let mut state = DashboardState::default();
    let line = |level: &str, prefix: &str, session: &str| {
        format!(
            "__FRONTMCP_DEV_EVENT__{{\"id\":\"l\",\"timestamp\":1,\"category\":\"log\",\"type\":\"x\",\"prefix\":\"{}\",\"scopeId\":\"s\",\"sessionId\":\"{}\",\"requestId\":\"unknown\",\"message\":\"hello\",\"levelName\":\"{}\"}}",
            prefix, session, level
        )
    };
    for (level, expected) in [
        ("error", LogLevel::Error),
        ("warn", LogLevel::Warn),
        ("debug", LogLevel::Debug),
        ("verbose", LogLevel::Debug),
        ("info", LogLevel::Info),
        ("ERROR", LogLevel::Info),
    ] {
        let event = parse_unified_event_line(&line(level, "db", "s1")).unwrap();
        state.handle_unified_event_at(event, T0);
        assert_eq!(state.logs.last().unwrap().level, expected, "{}", level);
    }
    assert_eq!(state.logs.last().unwrap().source, "db");
    assert_eq!(state.logs.last().unwrap().session_id.as_deref(), Some("s1"));
    let event = parse_unified_event_line(&line("info", "", "unknown")).unwrap();
    state.handle_unified_event_at(event, T0);
    assert_eq!(state.logs.last().unwrap().source, "sdk");
    assert_eq!(state.logs.last().unwrap().session_id, None);
    assert_eq!(state.events_received, 7);
}

#[test]
fn the_filter_shows_the_entries_of_its_session_and_level() {
    let mut state = DashboardState::default();
    state.add_log_with_context(1, LogLevel::Info, "a".into(), "x", Some("s1".into()), None);
    state.add_log_with_context(2, LogLevel::Error, "b".into(), "x", Some("s1".into()), None);
    state.add_log_with_context(3, LogLevel::Error, "c".into(), "x", Some("s2".into()), None);
    state.add_log_with_context(4, LogLevel::Error, "d".into(), "x", None, None);
    assert!(!state.log_filter.is_active());
    assert_eq!(state.filtered_logs().len(), 4);
    state.log_filter = LogFilter {
        app_id: None,
        tool_id: None,
        session_id: Some("s1".into()),
        level: Some(LogLevel::Error),
    };
    assert!(state.log_filter.is_active());
    let shown: Vec<&str> = state.filtered_logs().iter().map(|e| e.message.as_str()).collect();
    assert_eq!(shown, vec!["b"]);
    assert!(state.log_filter.matches(&state.logs[1]));
    assert!(!state.log_filter.matches(&state.logs[0]));
    assert!(!state.log_filter.matches(&state.logs[3]));
    // A filter by app alone is active and lets every entry through.
    state.log_filter = LogFilter { app_id: Some("A".into()), tool_id: None, session_id: None, level: None };
    assert!(state.log_filter.is_active());
    assert_eq!(state.filtered_logs().len(), 4);
    state.log_filter.clear();
    assert!(!state.log_filter.is_active());
    state.selected_session = Some("s1".into());
    let own: Vec<&str> = state.selected_session_logs().iter().map(|e| e.message.as_str()).collect();
    assert_eq!(own, vec!["a", "b"]);
    state.selected_session = Some("nobody".into());
    assert!(state.selected_session_logs().is_empty());
}

#[test]
fn the_entry_points_that_read_the_clock_do_what_their_timed_twins_do() {
    let mut state = DashboardState::default();
    state.add_error("cannot read".to_string());
    assert_eq!(state.parse_failures, 1);
    assert_eq!(state.recent_errors, vec!["cannot read".to_string()]);
    assert_eq!(state.logs[0].level, LogLevel::Error);
    assert!(state.logs[0].timestamp > 0);
    state.add_raw_log("[t] [worker] WARN slow".to_string());
    assert_eq!(state.logs[1].source, "worker");
    assert_eq!(state.logs[1].level, LogLevel::Warn);
    let event = match legacy("server", "server:starting", "", "{}") {
        UnifiedEvent::Legacy(e) => e,
        other => panic!("unexpected: {:?}", other),
    };
    state.server.is_ready = true;
    state.handle_event(event);
    assert!(!state.server.is_ready);
    assert_eq!(state.events_received, 1);
    state.ingest_socket_line(SNAPSHOT);
    assert_eq!(state.tools.len(), 3);
    assert!(state.server.is_ready);
    state.ingest_socket_line(r#"{"type":"welcome","serverId":"a","serverVersion":"1","protocolVersion":"1"}"#);
    state.ingest_socket_line("garbage");
    assert_eq!(state.tools.len(), 3);
    let snapshot = match classify_socket_line(SNAPSHOT) {
        SocketMessage::State(s) => s,
        other => panic!("no snapshot: {:?}", other),
    };
    let logged = state.logs.len();
    state.handle_state_snapshot(snapshot);
    assert_eq!(state.tools.len(), 3);
    // The apps that a snapshot lists are added to those listed before.
    assert_eq!(state.apps.len(), 4);
    assert_eq!(state.logs.len(), logged + 1);
}

#[test]
fn a_trace_reset_that_holds_only_entries_replaces_the_resources() {
    let mut state = DashboardState::default();
    state.handle_unified_event_at(
        trace("registry:resource:added", "unknown", "unknown", r#"{"entryNames":["old://r"]}"#),
        T0,
    );
    assert_eq!(state.resources.len(), 1);
    state.handle_unified_event_at(
        trace(
            "registry:resource:reset",
            "unknown",
            "unknown",
            r#"{"entries":[{"name":"new://r","uri":"new://r"}],"owner":{"kind":"app","id":"A"}}"#,
        ),
        T0,
    );
    assert_eq!(state.resources.len(), 1);
    assert_eq!(state.resources[0].name, "new://r");
    assert_eq!(state.resources[0].uri.as_deref(), Some("new://r"));
    assert_eq!(state.resources[0].owner_kind.as_deref(), Some("app"));
    assert_eq!(state.resources[0].owner_id.as_deref(), Some("A"));
    assert_eq!(state.overview.registered_apps, 1);
    assert_eq!(state.logs.last().unwrap().message, "Resources registered: new://r");
    // Where the payload holds both, the entries are read.
    state.handle_unified_event_at(
        trace(
            "registry:resource:reset",
            "unknown",
            "unknown",
            r#"{"entryNames":["x"],"entries":[{"name":"y"},{"name":"z","uri":"u"}]}"#,
        ),
        T0,
    );
    let names: Vec<&str> = state.resources.iter().map(|r| r.name.as_str()).collect();
    assert_eq!(names, vec!["y", "z"]);
    assert_eq!(state.resources[0].uri, None);
    assert_eq!(state.resources[1].uri.as_deref(), Some("u"));
    // Entries that are no list leave the names to decide.
    state.handle_unified_event_at(
        trace(
            "registry:resource:reset",
            "unknown",
            "unknown",
            r#"{"entryNames":["x"],"entries":7}"#,
        ),
        T0,
    );
    let names: Vec<&str> = state.resources.iter().map(|r| r.name.as_str()).collect();
    assert_eq!(names, vec!["x"]);
}

#[test]
fn trace_entries_are_read_for_every_kind_of_registry() {
    let mut state = DashboardState::default();
    let data = r#"{"entries":[{"name":"n2"},{"name":"n1"}],"owner":{"kind":"app","id":"A"}}"#;
    for kind in ["tool", "resource", "prompt", "plugin", "adapter"] {
        let added = format!("registry:{}:added", kind);
        state.handle_unified_event_at(trace(&added, "unknown", "unknown", data), T0);
        state.handle_unified_event_at(trace(&added, "unknown", "unknown", data), T0);
    }
    let tools: Vec<&str> = state.tools.iter().map(|t| t.name.as_str()).collect();
    let resources: Vec<&str> = state.resources.iter().map(|t| t.name.as_str()).collect();
    let prompts: Vec<&str> = state.prompts.iter().map(|t| t.name.as_str()).collect();
    let plugins: Vec<&str> = state.plugins.iter().map(|t| t.name.as_str()).collect();
    let adapters: Vec<&str> = state.adapters.iter().map(|t| t.name.as_str()).collect();
    assert_eq!(tools, vec!["n2", "n1"]);
    assert_eq!(resources, vec!["n2", "n1"]);
    assert_eq!(prompts, vec!["n2", "n1"]);
    assert_eq!(plugins, vec!["n2", "n1"]);
    assert_eq!(adapters, vec!["n2", "n1"]);
    assert_eq!(state.prompts[0].owner_id.as_deref(), Some("A"));
    assert_eq!(state.overview.registered_apps, 1);
    for kind in ["tool", "resource", "prompt", "plugin", "adapter"] {
        let reset = format!("registry:{}:reset", kind);
        state.handle_unified_event_at(
            trace(&reset, "unknown", "unknown", r#"{"entries":[{"name":"only"}]}"#),
            T0,
        );
    }
    assert_eq!(state.tools.len(), 1);
    assert_eq!(state.resources.len(), 1);
    assert_eq!(state.prompts.len(), 1);
    assert_eq!(state.plugins.len(), 1);
    assert_eq!(state.adapters.len(), 1);
    assert_eq!(state.prompts[0].name, "only");
    assert_eq!(state.overview.registered_apps, 0);
}

#[test]
fn every_id_is_held_once_whatever_comes() {
    let mut state = DashboardState::default();
    for _ in 0..3 {
        state.handle_unified_event_at(trace("session:connect", "s1", "unknown", "{}"), T0);
        state.handle_unified_event_at(trace("session:connect", "s2", "unknown", "{}"), T0);
        state.handle_unified_event_at(trace("session:disconnect", "s1", "unknown", "{}"), T0);
        state.handle_unified_event_at(
            trace("tool:complete", "s3", "r", r#"{"entryName":"t","durationMs":3}"#),
            T0,
        );
        state.handle_unified_event_at(
            trace("tool:complete", "s3", "r", r#"{"entryName":"u","durationMs":3}"#),
            T0,
        );
    }
    let ids: Vec<&str> = state.sessions.iter().map(|s| s.id.as_str()).collect();
    assert_eq!(ids, vec!["s1", "s2"]);
    let logs: Vec<&str> = state.session_logs.iter().map(|l| l.session_id.as_str()).collect();
    assert_eq!(logs, vec!["s1", "s2", "s3"]);
    let usage: Vec<(&str, u64)> =
        state.metrics.tool_usage.iter().map(|u| (u.name.as_str(), u.count)).collect();
    assert_eq!(usage, vec![("t", 3), ("u", 3)]);
    state.expand_graph_node("A");
    state.expand_graph_node("A");
    state.toggle_graph_expand("B");
    state.toggle_graph_expand("C");
    state.toggle_graph_expand("B");
    state.collapse_graph_node("missing");
    assert_eq!(state.graph_expanded, vec!["A".to_string(), "C".to_string()]);
}
