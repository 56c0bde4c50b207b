//! Every kind of trace event: how it is read from a line, and what it does to the state.

use frontmcp_tui::event::decode::parse_unified_event_line;
use frontmcp_tui::event::types::{DevBusLogEvent, UnifiedEvent, DEV_EVENT_MAGIC};
use frontmcp_tui::json::Json;
use frontmcp_tui::state::model::DashboardState;
use std::time::{SystemTime, UNIX_EPOCH};

/// A trace event as a line with the marker in front.
fn make_trace_event(event_type: &str, data: &str) -> String {
    format!(
        "{}{{\"id\":\"test-{}\",\"timestamp\":1705276800000,\"category\":\"trace\",\"type\":\"{}\",\"prefix\":\"test\",\"scopeId\":\"test-scope\",\"sessionId\":\"test-session\",\"requestId\":\"test-request\",\"data\":{}}}",
        DEV_EVENT_MAGIC,
        uuid_v4(),
        event_type,
        data
    )
}

fn uuid_v4() -> String {
    let nanos = SystemTime::now().duration_since(UNIX_EPOCH).unwrap().as_nanos();
    format!("{:032x}", nanos)
}

fn parse_trace_event(line: &str) -> DevBusLogEvent {
    match parse_unified_event_line(line) {
        Some(UnifiedEvent::LogTransport(event)) => event,
        other => panic!("Expected LogTransport event, got: {:?}", other),
    }
}

fn text_at<'a>(data: &'a Json, key: &str) -> Option<&'a str> {
    data.get(key).and_then(|v| v.as_str())
}

fn number_at(data: &Json, key: &str) -> Option<u64> {
    data.get(key).and_then(|v| v.as_u64())
}

fn fold(state: &mut DashboardState, event_type: &str, data: &str) {
    let line = make_trace_event(event_type, data);
    state.handle_unified_event(UnifiedEvent::LogTransport(parse_trace_event(&line)));
}

#[test]
fn test_session_connect_event() {
    let line = make_trace_event(
        "session:connect",
        r#"{"sessionId":"sess-123","transportType":"sse"}"#,
    );
    let event = parse_trace_event(&line);
    assert_eq!(event.event_type, "session:connect");
    assert_eq!(event.category, "trace");
    let data = event.data.unwrap();
    assert_eq!(text_at(&data, "transportType"), Some("sse"));
}

#[test]
fn test_session_connect_updates_state() {
    let mut state = DashboardState::default();
    fold(&mut state, "session:connect", r#"{"sessionId":"sess-123","transportType":"sse"}"#);
    assert_eq!(state.sessions.len(), 1);
    let session = state.session("test-session").unwrap();
    assert!(session.is_active);
    assert_eq!(session.transport_type, Some("sse".to_string()));
}

#[test]
fn test_session_disconnect_event() {
    let line = make_trace_event(
        "session:disconnect",
        r#"{"sessionId":"sess-123","transportType":"sse","reason":"client closed"}"#,
    );
    let event = parse_trace_event(&line);
    assert_eq!(event.event_type, "session:disconnect");
}

#[test]
fn test_session_disconnect_updates_state() {
    let mut state = DashboardState::default();
    fold(&mut state, "session:connect", r#"{"transportType":"sse"}"#);
    assert!(state.session("test-session").unwrap().is_active);
    fold(&mut state, "session:disconnect", "{}");
    assert!(!state.session("test-session").unwrap().is_active);
}

#[test]
fn test_request_start_event() {
    let line = make_trace_event(
        "request:start",
        r#"{"flowName":"tools:call-tool","method":"tools/call","entryName":"get_weather"}"#,
    );
    let event = parse_trace_event(&line);
    assert_eq!(event.event_type, "request:start");
    let data = event.data.unwrap();
    assert_eq!(text_at(&data, "flowName"), Some("tools:call-tool"));
    assert_eq!(text_at(&data, "method"), Some("tools/call"));
    assert_eq!(text_at(&data, "entryName"), Some("get_weather"));
}

#[test]
fn test_request_start_updates_state() {
    let mut state = DashboardState::default();
    fold(
        &mut state,
        "request:start",
        r#"{"flowName":"tools:call-tool","method":"tools/call","entryName":"get_weather"}"#,
    );
    assert_eq!(state.requests.len(), 1);
    assert_eq!(state.requests[0].entry_name, Some("get_weather".to_string()));
}

#[test]
fn test_request_complete_event() {
    let line = make_trace_event(
        "request:complete",
        r#"{"flowName":"tools:call-tool","method":"tools/call","entryName":"get_weather","durationMs":150}"#,
    );
    let event = parse_trace_event(&line);
    assert_eq!(event.event_type, "request:complete");
    let data = event.data.unwrap();
    assert_eq!(number_at(&data, "durationMs"), Some(150));
}

#[test]
fn test_request_complete_updates_metrics() {
    let mut state = DashboardState::default();
    fold(
        &mut state,
        "request:start",
        r#"{"flowName":"tools:call-tool","entryName":"get_weather"}"#,
    );
    fold(
        &mut state,
        "request:complete",
        r#"{"flowName":"tools:call-tool","entryName":"get_weather","durationMs":150}"#,
    );
    assert_eq!(state.metrics.total_requests, 1);
    assert_eq!(state.metrics.successful_requests, 1);
    assert_eq!(state.metrics.failed_requests, 0);
    assert!(state.metrics.tool_usage.iter().any(|u| u.name == "get_weather"));
}

#[test]
fn test_request_error_event() {
    let line = make_trace_event(
        "request:error",
        r#"{"flowName":"tools:call-tool","entryName":"failing_tool","durationMs":50,"error":{"name":"ToolError","message":"Tool execution failed","code":-32603}}"#,
    );
    let event = parse_trace_event(&line);
    assert_eq!(event.event_type, "request:error");
    let data = event.data.unwrap();
    assert_eq!(
        data.get("error").and_then(|e| text_at(e, "message")),
        Some("Tool execution failed")
    );
}

#[test]
fn test_request_error_updates_metrics() {
    let mut state = DashboardState::default();
    fold(
        &mut state,
        "request:error",
        r#"{"flowName":"tools:call-tool","entryName":"failing_tool","durationMs":50,"error":{"message":"Tool execution failed"}}"#,
    );
    assert_eq!(state.metrics.total_requests, 1);
    assert_eq!(state.metrics.successful_requests, 0);
    assert_eq!(state.metrics.failed_requests, 1);
}

#[test]
fn test_tool_execute_event() {
    let line = make_trace_event(
        "tool:execute",
        r#"{"flowName":"tools:call-tool","entryName":"get_weather","entryOwner":{"kind":"app","id":"WeatherMcpApp"}}"#,
    );
    let event = parse_trace_event(&line);
    assert_eq!(event.event_type, "tool:execute");
    let data = event.data.unwrap();
    assert_eq!(text_at(&data, "entryName"), Some("get_weather"));
    let owner = data.get("entryOwner").unwrap();
    assert_eq!(text_at(owner, "kind"), Some("app"));
    assert_eq!(text_at(owner, "id"), Some("WeatherMcpApp"));
}

#[test]
fn test_tool_complete_event() {
    let line = make_trace_event(
        "tool:complete",
        r#"{"flowName":"tools:call-tool","entryName":"get_weather","durationMs":120,"entryOwner":{"kind":"app","id":"WeatherMcpApp"}}"#,
    );
    let event = parse_trace_event(&line);
    assert_eq!(event.event_type, "tool:complete");
    let data = event.data.unwrap();
    assert_eq!(number_at(&data, "durationMs"), Some(120));
}

#[test]
fn test_tool_complete_updates_overview() {
    let mut state = DashboardState::default();
    fold(&mut state, "tool:complete", r#"{"entryName":"get_weather","durationMs":120}"#);
    assert_eq!(state.overview.last_tool_calls.len(), 1);
    assert_eq!(state.overview.last_tool_calls[0].name, "get_weather");
    assert!(state.overview.last_tool_calls[0].success);
}

#[test]
fn test_registry_tool_added_event() {
    let line = make_trace_event(
        "registry:tool:added",
        r#"{"registryType":"tool","changeKind":"added","changeScope":"global","entryNames":["get_weather","get_forecast"],"owner":{"kind":"app","id":"WeatherMcpApp"},"snapshotCount":2,"version":1}"#,
    );
    let event = parse_trace_event(&line);
    assert_eq!(event.event_type, "registry:tool:added");
    let data = event.data.unwrap();
    let entry_names = data.get("entryNames").and_then(|v| v.as_array()).unwrap();
    assert_eq!(entry_names.len(), 2);
}

#[test]
fn test_registry_tool_added_updates_state() {
    let mut state = DashboardState::default();
    fold(
        &mut state,
        "registry:tool:added",
        r#"{"registryType":"tool","changeKind":"added","entryNames":["get_weather","get_forecast"],"owner":{"kind":"app","id":"WeatherMcpApp"},"snapshotCount":2,"version":1}"#,
    );
    assert_eq!(state.tools.len(), 2);
    assert!(state.tools.iter().any(|t| t.name == "get_weather"));
    assert!(state.tools.iter().any(|t| t.name == "get_forecast"));
    let tool = state.tools.iter().find(|t| t.name == "get_weather").unwrap();
    assert_eq!(tool.owner_kind, Some("app".to_string()));
    assert_eq!(tool.owner_id, Some("WeatherMcpApp".to_string()));
}

#[test]
fn test_registry_tool_added_with_entries_format() {
    let line = make_trace_event(
        "registry:tool:added",
        r#"{"registryType":"tool","changeKind":"added","entries":[{"name":"get_weather","description":"Get current weather for a location","inputSchema":"{\"type\":\"object\",\"properties\":{\"city\":{\"type\":\"string\"}}}"}],"owner":{"kind":"app","id":"WeatherMcpApp"},"snapshotCount":1,"version":1}"#,
    );
    let mut state = DashboardState::default();
    state.handle_unified_event(UnifiedEvent::LogTransport(parse_trace_event(&line)));
    assert_eq!(state.tools.len(), 1);
    let tool = &state.tools[0];
    assert_eq!(tool.name, "get_weather");
    assert_eq!(tool.description, Some("Get current weather for a location".to_string()));
    assert!(tool.input_schema.is_some());
}

#[test]
fn test_registry_tool_removed_event() {
    let mut state = DashboardState::default();
    fold(
        &mut state,
        "registry:tool:added",
        r#"{"entryNames":["tool_a","tool_b"],"owner":{"kind":"app","id":"TestApp"},"snapshotCount":2,"version":1}"#,
    );
    assert_eq!(state.tools.len(), 2);
    fold(
        &mut state,
        "registry:tool:removed",
        r#"{"entryNames":["tool_a"],"snapshotCount":1,"version":2}"#,
    );
    assert_eq!(state.tools.len(), 1);
    assert!(state.tools.iter().any(|t| t.name == "tool_b"));
    assert!(!state.tools.iter().any(|t| t.name == "tool_a"));
}

#[test]
fn test_registry_tool_reset_event() {
    let mut state = DashboardState::default();
    fold(
        &mut state,
        "registry:tool:added",
        r#"{"entryNames":["old_tool"],"snapshotCount":1,"version":1}"#,
    );
    assert_eq!(state.tools.len(), 1);
    fold(
        &mut state,
        "registry:tool:reset",
        r#"{"entryNames":["new_tool_1","new_tool_2"],"owner":{"kind":"app","id":"NewApp"},"snapshotCount":2,"version":2}"#,
    );
    assert_eq!(state.tools.len(), 2);
    assert!(!state.tools.iter().any(|t| t.name == "old_tool"));
    assert!(state.tools.iter().any(|t| t.name == "new_tool_1"));
}

#[test]
fn test_registry_resource_added_event() {
    let line = make_trace_event(
        "registry:resource:added",
        r#"{"registryType":"resource","changeKind":"added","entryNames":["config://app/settings","file://data/users.json"],"owner":{"kind":"app","id":"ConfigApp"},"snapshotCount":2,"version":1}"#,
    );
    let event = parse_trace_event(&line);
    assert_eq!(event.event_type, "registry:resource:added");
}

#[test]
fn test_registry_resource_added_updates_state() {
    let mut state = DashboardState::default();
    fold(
        &mut state,
        "registry:resource:added",
        r#"{"entryNames":["config://settings"],"owner":{"kind":"app","id":"ConfigApp"},"snapshotCount":1,"version":1}"#,
    );
    assert_eq!(state.resources.len(), 1);
    assert_eq!(state.resources[0].name, "config://settings");
    assert_eq!(state.resources[0].owner_kind, Some("app".to_string()));
    assert_eq!(state.resources[0].owner_id, Some("ConfigApp".to_string()));
}

#[test]
fn test_registry_resource_reset_clears_existing() {
    let mut state = DashboardState::default();
    fold(
        &mut state,
        "registry:resource:added",
        r#"{"entryNames":["old://resource"],"snapshotCount":1,"version":1}"#,
    );
    fold(
        &mut state,
        "registry:resource:reset",
        r#"{"entryNames":["new://resource"],"snapshotCount":1,"version":2}"#,
    );
    assert_eq!(state.resources.len(), 1);
    assert_eq!(state.resources[0].name, "new://resource");
}

#[test]
fn test_registry_prompt_added_event() {
    let line = make_trace_event(
        "registry:prompt:added",
        r#"{"registryType":"prompt","changeKind":"added","entryNames":["code_review","summarize_doc"],"owner":{"kind":"app","id":"AssistantApp"},"snapshotCount":2,"version":1}"#,
    );
    let event = parse_trace_event(&line);
    assert_eq!(event.event_type, "registry:prompt:added");
}

#[test]
fn test_registry_prompt_added_updates_state() {
    let mut state = DashboardState::default();
    fold(
        &mut state,
        "registry:prompt:added",
        r#"{"entryNames":["code_review","summarize"],"owner":{"kind":"app","id":"AssistantApp"},"snapshotCount":2,"version":1}"#,
    );
    assert_eq!(state.prompts.len(), 2);
    assert!(state.prompts.iter().any(|p| p.name == "code_review"));
    assert!(state.prompts.iter().any(|p| p.name == "summarize"));
}

#[test]
fn test_registry_plugin_added_event() {
    let line = make_trace_event(
        "registry:plugin:added",
        r#"{"registryType":"plugin","changeKind":"added","entries":[{"name":"CachePlugin","version":"1.0.0"},{"name":"AuthPlugin","version":"2.1.0"}],"owner":{"kind":"app","id":"MainApp"},"snapshotCount":2,"version":1}"#,
    );
    let event = parse_trace_event(&line);
    assert_eq!(event.event_type, "registry:plugin:added");
}

#[test]
fn test_registry_plugin_added_updates_state() {
    let mut state = DashboardState::default();
    fold(
        &mut state,
        "registry:plugin:added",
        r#"{"entries":[{"name":"CachePlugin","version":"1.0.0"}],"owner":{"kind":"app","id":"MainApp"},"snapshotCount":1}"#,
    );
    assert_eq!(state.plugins.len(), 1);
    assert_eq!(state.plugins[0].name, "CachePlugin");
    assert_eq!(state.plugins[0].version, Some("1.0.0".to_string()));
    assert_eq!(state.plugins[0].owner_id, Some("MainApp".to_string()));
}

#[test]
fn test_server_starting_event() {
    let line = make_trace_event("server:starting", "{}");
    let event = parse_trace_event(&line);
    assert_eq!(event.event_type, "server:starting");
}

#[test]
fn test_server_starting_updates_state() {
    let mut state = DashboardState::default();
    state.server.is_ready = true;
    fold(&mut state, "server:starting", "{}");
    assert!(!state.server.is_ready);
}

#[test]
fn test_server_ready_event() {
    let line = make_trace_event(
        "server:ready",
        r#"{"address":"http://localhost:3000","serverInfo":{"name":"Demo Server","version":"1.0.0"},"capabilities":{"tools":{"listChanged":true},"resources":{"listChanged":true}}}"#,
    );
    let event = parse_trace_event(&line);
    assert_eq!(event.event_type, "server:ready");
    let data = event.data.unwrap();
    assert_eq!(text_at(&data, "address"), Some("http://localhost:3000"));
}

#[test]
fn test_server_ready_updates_state() {
    let mut state = DashboardState::default();
    fold(&mut state, "server:ready", r#"{"address":"http://localhost:3000"}"#);
    assert!(state.server.is_ready);
    assert_eq!(state.server.address, Some("http://localhost:3000".to_string()));
    assert_eq!(state.overview.server_address, Some("http://localhost:3000".to_string()));
    assert_eq!(state.overview.server_port, Some(3000));
}

#[test]
fn test_server_shutdown_event() {
    let line = make_trace_event("server:shutdown", r#"{"uptimeMs":3600000}"#);
    let event = parse_trace_event(&line);
    assert_eq!(event.event_type, "server:shutdown");
    let data = event.data.unwrap();
    assert_eq!(number_at(&data, "uptimeMs"), Some(3600000));
}

#[test]
fn test_server_shutdown_updates_state() {
    let mut state = DashboardState::default();
    state.server.is_ready = true;
    fold(&mut state, "server:shutdown", r#"{"uptimeMs":3600000}"#);
    assert!(!state.server.is_ready);
    assert_eq!(state.server.uptime_ms, Some(3600000));
}

#[test]
fn test_config_loaded_event() {
    let line = make_trace_event(
        "config:loaded",
        r#"{"configPath":"/app/.env","loadedKeys":["DATABASE_URL","API_KEY"]}"#,
    );
    let event = parse_trace_event(&line);
    assert_eq!(event.event_type, "config:loaded");
}

#[test]
fn test_config_loaded_updates_state() {
    let mut state = DashboardState::default();
    fold(&mut state, "config:loaded", "{}");
    assert!(state.config.is_loaded);
}

#[test]
fn test_config_error_event() {
    let line = make_trace_event(
        "config:error",
        r#"{"errors":[{"path":"DATABASE_URL","message":"Required variable not set"}]}"#,
    );
    let event = parse_trace_event(&line);
    assert_eq!(event.event_type, "config:error");
}

#[test]
fn test_log_event_info() {
    let event = r#"{"id":"log-1","timestamp":1705276800000,"category":"log","type":"info","prefix":"app","scopeId":"test-scope","sessionId":"test-session","requestId":"test-request","message":"Application started successfully","level":30,"levelName":"info"}"#;
    let line = format!("{}{}", DEV_EVENT_MAGIC, event);
    match parse_unified_event_line(&line) {
        Some(UnifiedEvent::LogTransport(event)) => {
            assert_eq!(event.category, "log");
            assert_eq!(event.message, Some("Application started successfully".to_string()));
            assert_eq!(event.level_name, Some("info".to_string()));
        }
        other => panic!("Expected LogTransport, got: {:?}", other),
    }
}

#[test]
fn test_log_event_error() {
    let event = r#"{"id":"log-2","timestamp":1705276800000,"category":"log","type":"error","prefix":"database","scopeId":"test-scope","sessionId":"unknown","requestId":"unknown","message":"Connection failed","level":50,"levelName":"error"}"#;
    let line = format!("{}{}", DEV_EVENT_MAGIC, event);
    let mut state = DashboardState::default();
    if let Some(UnifiedEvent::LogTransport(event)) = parse_unified_event_line(&line) {
        state.handle_unified_event(UnifiedEvent::LogTransport(event));
    }
    assert!(!state.logs.is_empty());
}

#[test]
fn test_unknown_trace_event_logged() {
    let mut state = DashboardState::default();
    fold(&mut state, "custom:unknown:event", r#"{"some":"data"}"#);
    assert!(!state.logs.is_empty());
}

#[test]
fn test_event_counter_increments() {
    let mut state = DashboardState::default();
    assert_eq!(state.events_received, 0);
    fold(&mut state, "session:connect", "{}");
    assert_eq!(state.events_received, 1);
    fold(&mut state, "server:ready", "{}");
    assert_eq!(state.events_received, 2);
}

#[test]
fn test_multiple_apps_from_owner_data() {
    let mut state = DashboardState::default();
    fold(
        &mut state,
        "registry:tool:added",
        r#"{"entryNames":["weather_tool"],"owner":{"kind":"app","id":"WeatherApp"},"snapshotCount":1,"version":1}"#,
    );
    fold(
        &mut state,
        "registry:tool:added",
        r#"{"entryNames":["crm_tool"],"owner":{"kind":"app","id":"CrmApp"},"snapshotCount":1,"version":2}"#,
    );
    assert_eq!(state.overview.registered_apps, 2);
}

#[test]
fn test_no_duplicate_tools_on_multiple_adds() {
    let mut state = DashboardState::default();
    fold(
        &mut state,
        "registry:tool:added",
        r#"{"entryNames":["my_tool"],"snapshotCount":1,"version":1}"#,
    );
    fold(
        &mut state,
        "registry:tool:added",
        r#"{"entryNames":["my_tool"],"snapshotCount":1,"version":2}"#,
    );
    assert_eq!(state.tools.len(), 1);
}

#[test]
fn document_all_event_types() {
    let event_types = vec![
        ("session:connect", "A client session connected"),
        ("session:disconnect", "A client session disconnected"),
        ("request:start", "An MCP request started processing"),
        ("request:complete", "An MCP request completed successfully"),
        ("request:error", "An MCP request failed with error"),
        ("tool:execute", "A tool began execution"),
        ("tool:complete", "A tool finished execution"),
        ("registry:tool:added", "Tools were added to registry"),
        ("registry:tool:removed", "Tools were removed from registry"),
        ("registry:tool:updated", "Tools were updated in registry"),
        ("registry:tool:reset", "Tool registry was reset"),
        ("registry:resource:added", "Resources were added to registry"),
        ("registry:resource:removed", "Resources were removed from registry"),
        ("registry:resource:updated", "Resources were updated in registry"),
        ("registry:resource:reset", "Resource registry was reset"),
        ("registry:prompt:added", "Prompts were added to registry"),
        ("registry:prompt:removed", "Prompts were removed from registry"),
        ("registry:prompt:updated", "Prompts were updated in registry"),
        ("registry:prompt:reset", "Prompt registry was reset"),
        ("registry:plugin:added", "Plugins were added to registry"),
        ("registry:plugin:removed", "Plugins were removed from registry"),
        ("server:starting", "Server is starting up"),
        ("server:ready", "Server is ready to accept connections"),
        ("server:shutdown", "Server is shutting down"),
        ("config:loaded", "Configuration was loaded"),
        ("config:error", "Configuration had errors"),
    ];
    println!("\n=== TUI Trace Event Types ===\n");
    for (event_type, description) in &event_types {
        println!("  {:<30} - {}", event_type, description);
    }
    println!("\nTotal event types: {}\n", event_types.len());
    assert!(event_types.len() >= 20, "Should document at least 20 event types");
}
