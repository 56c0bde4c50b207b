//! Folding the events of the second schema into the state.

use crate::event::types::{DevBusLogEvent, DevBusLogEventView};
use crate::json::{bool_in, bool_in_exec, get_in, get_in_exec, text_in, text_in_exec, u64_in, u64_in_exec, Json, JsonView};
use crate::state::keyed::{remove_keys, without_keys};
use crate::state::logs::log_entry;
use crate::state::model::{
    AdapterInfo, ApiRequest, ApiRequestView, DashboardState, DashboardStateView, EntryDetail,
    EntryDetailView, LogLevel, OverviewDataView, PluginInfo, PromptInfo, ResourceInfo,
    ServerStatusView, SessionInfo, SessionInfoView, ToolCallSummaryView, ToolInfo,
};
use crate::state::overview::sat_add;
use crate::state::registry::{
    add_entries, detailed_entries, entry_names, extract_entries, extract_entry_names,
    names_of, names_of_exec, reset_entries, reset_to,
    with_entries,
};
use crate::state::requests::{ended_entry_name, RequestChange, RequestChangeView};
use crate::text::{clone_text, text_or, text_or_exec, 
    after_last, after_last_exec, chars_of, concat, concat3, contains_text, decimal,
    decimal_string, join, join_strings, parse_port, parse_port_exec, str_contains, str_eq,
};
use vstd::prelude::*;

verus! {

/// One of the five registries.
#[derive(Debug, Clone, Copy, PartialEq, Eq, Structural)]
pub enum RegistryKind {
    Tool,
    Resource,
    Prompt,
    Plugin,
    Adapter,
}

impl RegistryKind {
    /// The word for the entries of the registry in a log message.
    pub open spec fn spec_title(self) -> Seq<char> {
        match self {
            RegistryKind::Tool => "Tools"@,
            RegistryKind::Resource => "Resources"@,
            RegistryKind::Prompt => "Prompts"@,
            RegistryKind::Plugin => "Plugins"@,
            RegistryKind::Adapter => "Adapters"@,
        }
    }

    pub fn title(&self) -> (r: &'static str)
        ensures
            r@ == self.spec_title(),
    {
        match self {
            RegistryKind::Tool => "Tools",
            RegistryKind::Resource => "Resources",
            RegistryKind::Prompt => "Prompts",
            RegistryKind::Plugin => "Plugins",
            RegistryKind::Adapter => "Adapters",
        }
    }
}

/// What a trace event is about, as its type says.
#[derive(Debug, Clone, Copy)]
pub enum TraceKind {
    SessionConnect,
    SessionDisconnect,
    RequestStart,
    RequestComplete,
    RequestError,
    ToolExecute,
    ToolComplete,
    ServerStarting,
    ServerReady,
    ServerShutdown,
    ConfigLoaded,
    ConfigError,
    RegistryAdded(RegistryKind),
    RegistryReset(RegistryKind),
    RegistryRemoved(RegistryKind),
    RegistryUpdated(RegistryKind),
    /// A type that the dashboard does not know: it is logged, and no fault.
    Other,
}

impl TraceKind {
    /// What an event of the type is about.
    pub open spec fn named(t: Seq<char>) -> TraceKind {
        if t == "session:connect"@ {
            TraceKind::SessionConnect
        } else if t == "session:disconnect"@ {
            TraceKind::SessionDisconnect
        } else if t == "request:start"@ {
            TraceKind::RequestStart
        } else if t == "request:complete"@ {
            TraceKind::RequestComplete
        } else if t == "request:error"@ {
            TraceKind::RequestError
        } else if t == "tool:execute"@ {
            TraceKind::ToolExecute
        } else if t == "tool:complete"@ {
            TraceKind::ToolComplete
        } else if t == "server:starting"@ {
            TraceKind::ServerStarting
        } else if t == "server:ready"@ {
            TraceKind::ServerReady
        } else if t == "server:shutdown"@ {
            TraceKind::ServerShutdown
        } else if t == "config:loaded"@ {
            TraceKind::ConfigLoaded
        } else if t == "config:error"@ {
            TraceKind::ConfigError
        } else if t == "registry:tool:added"@ {
            TraceKind::RegistryAdded(RegistryKind::Tool)
        } else if t == "registry:tool:reset"@ {
            TraceKind::RegistryReset(RegistryKind::Tool)
        } else if t == "registry:tool:removed"@ {
            TraceKind::RegistryRemoved(RegistryKind::Tool)
        } else if t == "registry:tool:updated"@ {
            TraceKind::RegistryUpdated(RegistryKind::Tool)
        } else if t == "registry:resource:added"@ {
            TraceKind::RegistryAdded(RegistryKind::Resource)
        } else if t == "registry:resource:reset"@ {
            TraceKind::RegistryReset(RegistryKind::Resource)
        } else if t == "registry:resource:removed"@ {
            TraceKind::RegistryRemoved(RegistryKind::Resource)
        } else if t == "registry:resource:updated"@ {
            TraceKind::RegistryUpdated(RegistryKind::Resource)
        } else if t == "registry:prompt:added"@ {
            TraceKind::RegistryAdded(RegistryKind::Prompt)
        } else if t == "registry:prompt:reset"@ {
            TraceKind::RegistryReset(RegistryKind::Prompt)
        } else if t == "registry:prompt:removed"@ {
            TraceKind::RegistryRemoved(RegistryKind::Prompt)
        } else if t == "registry:prompt:updated"@ {
            TraceKind::RegistryUpdated(RegistryKind::Prompt)
        } else if t == "registry:plugin:added"@ {
            TraceKind::RegistryAdded(RegistryKind::Plugin)
        } else if t == "registry:plugin:reset"@ {
            TraceKind::RegistryReset(RegistryKind::Plugin)
        } else if t == "registry:plugin:removed"@ {
            TraceKind::RegistryRemoved(RegistryKind::Plugin)
        } else if t == "registry:adapter:added"@ {
            TraceKind::RegistryAdded(RegistryKind::Adapter)
        } else if t == "registry:adapter:reset"@ {
            TraceKind::RegistryReset(RegistryKind::Adapter)
        } else if t == "registry:adapter:removed"@ {
            TraceKind::RegistryRemoved(RegistryKind::Adapter)
        } else {
            TraceKind::Other
        }
    }

    pub fn from_name(t: &str) -> (r: TraceKind)
        ensures
            r == TraceKind::named(t@),
    {
        if str_eq(t, "session:connect") {
            TraceKind::SessionConnect
        } else if str_eq(t, "session:disconnect") {
            TraceKind::SessionDisconnect
        } else if str_eq(t, "request:start") {
            TraceKind::RequestStart
        } else if str_eq(t, "request:complete") {
            TraceKind::RequestComplete
        } else if str_eq(t, "request:error") {
            TraceKind::RequestError
        } else if str_eq(t, "tool:execute") {
            TraceKind::ToolExecute
        } else if str_eq(t, "tool:complete") {
            TraceKind::ToolComplete
        } else if str_eq(t, "server:starting") {
            TraceKind::ServerStarting
        } else if str_eq(t, "server:ready") {
            TraceKind::ServerReady
        } else if str_eq(t, "server:shutdown") {
            TraceKind::ServerShutdown
        } else if str_eq(t, "config:loaded") {
            TraceKind::ConfigLoaded
        } else if str_eq(t, "config:error") {
            TraceKind::ConfigError
        } else if str_eq(t, "registry:tool:added") {
            TraceKind::RegistryAdded(RegistryKind::Tool)
        } else if str_eq(t, "registry:tool:reset") {
            TraceKind::RegistryReset(RegistryKind::Tool)
        } else if str_eq(t, "registry:tool:removed") {
            TraceKind::RegistryRemoved(RegistryKind::Tool)
        } else if str_eq(t, "registry:tool:updated") {
            TraceKind::RegistryUpdated(RegistryKind::Tool)
        } else if str_eq(t, "registry:resource:added") {
            TraceKind::RegistryAdded(RegistryKind::Resource)
        } else if str_eq(t, "registry:resource:reset") {
            TraceKind::RegistryReset(RegistryKind::Resource)
        } else if str_eq(t, "registry:resource:removed") {
            TraceKind::RegistryRemoved(RegistryKind::Resource)
        } else if str_eq(t, "registry:resource:updated") {
            TraceKind::RegistryUpdated(RegistryKind::Resource)
        } else if str_eq(t, "registry:prompt:added") {
            TraceKind::RegistryAdded(RegistryKind::Prompt)
        } else if str_eq(t, "registry:prompt:reset") {
            TraceKind::RegistryReset(RegistryKind::Prompt)
        } else if str_eq(t, "registry:prompt:removed") {
            TraceKind::RegistryRemoved(RegistryKind::Prompt)
        } else if str_eq(t, "registry:prompt:updated") {
            TraceKind::RegistryUpdated(RegistryKind::Prompt)
        } else if str_eq(t, "registry:plugin:added") {
            TraceKind::RegistryAdded(RegistryKind::Plugin)
        } else if str_eq(t, "registry:plugin:reset") {
            TraceKind::RegistryReset(RegistryKind::Plugin)
        } else if str_eq(t, "registry:plugin:removed") {
            TraceKind::RegistryRemoved(RegistryKind::Plugin)
        } else if str_eq(t, "registry:adapter:added") {
            TraceKind::RegistryAdded(RegistryKind::Adapter)
        } else if str_eq(t, "registry:adapter:reset") {
            TraceKind::RegistryReset(RegistryKind::Adapter)
        } else if str_eq(t, "registry:adapter:removed") {
            TraceKind::RegistryRemoved(RegistryKind::Adapter)
        } else {
            TraceKind::Other
        }
    }
}

/// The id, unless it is the word that stands for a missing one.
pub open spec fn known_id(id: Seq<char>) -> Option<Seq<char>> {
    if id == "unknown"@ {
        None
    } else {
        Some(id)
    }
}

/// A name in square brackets after a blank; nothing where there is no name.
pub open spec fn bracketed(name: Option<Seq<char>>) -> Seq<char> {
    match name {
        Some(n) => " ["@ + n + "]"@,
        None => Seq::empty(),
    }
}

/// A duration in round brackets after a blank; nothing where there is none.
pub open spec fn duration_text(duration_ms: Option<u64>) -> Seq<char> {
    match duration_ms {
        Some(d) => " ("@ + decimal(d as nat) + "ms)"@,
        None => Seq::empty(),
    }
}

/// Whether the flow is one of a tool: its name holds the word.
pub open spec fn is_tool_flow(flow_name: Seq<char>) -> bool {
    contains_text(flow_name, "tool"@)
}

/// The port at the end of an address: what follows its last colon, where
/// that is a number that fits.
pub open spec fn port_of(address: Seq<char>) -> Option<u16> {
    parse_port(after_last(address, ':'))
}

/// The session that a trace event of a connection denotes.
pub open spec fn connected_session(sid: Seq<char>, ev: DevBusLogEventView) -> SessionInfoView {
    SessionInfoView {
        id: sid,
        transport_type: text_in(ev.data, "transportType"@),
        client_name: None,
        client_version: None,
        user_agent: None,
        connected_at: ev.timestamp,
        is_active: true,
        auth_mode: text_in(ev.data, "authMode"@),
        auth_user_name: text_in(get_in(ev.data, "authUser"@), "name"@),
        auth_user_email: text_in(get_in(ev.data, "authUser"@), "email"@),
        is_anonymous: bool_in(ev.data, "isAnonymous"@),
    }
}

/// The record of a request that a trace event of its start denotes.
pub open spec fn started_request(ev: DevBusLogEventView) -> ApiRequestView {
    ApiRequestView {
        id: text_or(known_id(ev.request_id), Seq::empty()),
        flow_name: text_or(text_in(ev.data, "flowName"@), "unknown"@),
        method: text_in(ev.data, "method"@),
        entry_name: text_in(ev.data, "entryName"@),
        started_at: ev.timestamp,
        duration_ms: None,
        is_error: false,
        error_message: None,
        session_id: known_id(ev.session_id),
    }
}

/// The name of the entry if there is one, else the method.
pub open spec fn name_or_method(entry_name: Option<Seq<char>>, method: Option<Seq<char>>) -> Option<
    Seq<char>,
> {
    if entry_name is Some {
        entry_name
    } else {
        method
    }
}

impl DashboardStateView {
    /// The state with one more event counted.
    pub open spec fn event_counted(self) -> DashboardStateView {
        DashboardStateView { events_received: sat_add(self.events_received, 1), ..self }
    }

    /// The state after the entries were added to the registry of the kind.
    pub open spec fn entries_added(
        self,
        kind: RegistryKind,
        entries: Seq<EntryDetailView>,
    ) -> DashboardStateView {
        match kind {
            RegistryKind::Tool => DashboardStateView {
                tools: with_entries::<ToolInfo>(self.tools, entries),
                ..self
            },
            RegistryKind::Resource => DashboardStateView {
                resources: with_entries::<ResourceInfo>(self.resources, entries),
                ..self
            },
            RegistryKind::Prompt => DashboardStateView {
                prompts: with_entries::<PromptInfo>(self.prompts, entries),
                ..self
            },
            RegistryKind::Plugin => DashboardStateView {
                plugins: with_entries::<PluginInfo>(self.plugins, entries),
                ..self
            },
            RegistryKind::Adapter => DashboardStateView {
                adapters: with_entries::<AdapterInfo>(self.adapters, entries),
                ..self
            },
        }
    }

    /// The state after the registry of the kind was reset to the entries.
    pub open spec fn entries_reset(
        self,
        kind: RegistryKind,
        entries: Seq<EntryDetailView>,
    ) -> DashboardStateView {
        match kind {
            RegistryKind::Tool => DashboardStateView {
                tools: reset_to::<ToolInfo>(entries),
                ..self
            },
            RegistryKind::Resource => DashboardStateView {
                resources: reset_to::<ResourceInfo>(entries),
                ..self
            },
            RegistryKind::Prompt => DashboardStateView {
                prompts: reset_to::<PromptInfo>(entries),
                ..self
            },
            RegistryKind::Plugin => DashboardStateView {
                plugins: reset_to::<PluginInfo>(entries),
                ..self
            },
            RegistryKind::Adapter => DashboardStateView {
                adapters: reset_to::<AdapterInfo>(entries),
                ..self
            },
        }
    }

    /// The state after the names were removed from the registry of the kind.
    pub open spec fn names_removed(
        self,
        kind: RegistryKind,
        names: Seq<Seq<char>>,
    ) -> DashboardStateView {
        match kind {
            RegistryKind::Tool => DashboardStateView {
                tools: without_keys::<ToolInfo>(self.tools, names),
                ..self
            },
            RegistryKind::Resource => DashboardStateView {
                resources: without_keys::<ResourceInfo>(self.resources, names),
                ..self
            },
            RegistryKind::Prompt => DashboardStateView {
                prompts: without_keys::<PromptInfo>(self.prompts, names),
                ..self
            },
            RegistryKind::Plugin => DashboardStateView {
                plugins: without_keys::<PluginInfo>(self.plugins, names),
                ..self
            },
            RegistryKind::Adapter => DashboardStateView {
                adapters: without_keys::<AdapterInfo>(self.adapters, names),
                ..self
            },
        }
    }

    /// The state after a change of names in a registry was logged at `now`;
    /// a change of no names is not logged.
    pub open spec fn names_noted(
        self,
        now: u64,
        kind: RegistryKind,
        verb: Seq<char>,
        names: Seq<Seq<char>>,
    ) -> DashboardStateView {
        if names.len() > 0 {
            self.noted(
                now,
                LogLevel::Info,
                kind.spec_title() + verb + join(names, ", "@),
                "registry"@,
            )
        } else {
            self
        }
    }

    /// The state after a tool call was counted and shown in the overview.
    pub open spec fn tool_called(
        self,
        now: u64,
        name: Seq<char>,
        success: bool,
        duration_ms: Option<u64>,
    ) -> DashboardStateView {
        DashboardStateView {
            overview: self.overview.with_tool_call(
                ToolCallSummaryView { name, timestamp: now, success, duration_ms },
            ),
            ..self
        }
    }

    /// The state after the end of a request was taken in: its record is
    /// amended, the metrics count it, and the overview shows it where it was
    /// a call of a tool with a name.
    pub open spec fn request_closed(
        self,
        now: u64,
        id: Option<Seq<char>>,
        flow_name: Seq<char>,
        success: bool,
        change: RequestChangeView,
    ) -> DashboardStateView {
        let name = ended_entry_name(self.requests, id, change);
        let counted = DashboardStateView {
            metrics: self.metrics.with_request(
                success,
                change.duration_ms,
                if is_tool_flow(flow_name) {
                    name
                } else {
                    None
                },
            ),
            ..self.request_ended(id, change)
        };
        match name {
            Some(n) => if is_tool_flow(flow_name) {
                counted.tool_called(now, n, success, change.duration_ms)
            } else {
                counted
            },
            None => counted,
        }
    }

    /// The state after the server was said to be ready at an address: the
    /// port is taken from the address where it ends in one.
    pub open spec fn server_ready(self, address: Option<Seq<char>>) -> DashboardStateView {
        DashboardStateView {
            server: ServerStatusView { is_ready: true, address, ..self.server },
            overview: OverviewDataView {
                server_address: address,
                server_port: match address {
                    Some(a) => match port_of(a) {
                        Some(p) => Some(p),
                        None => self.overview.server_port,
                    },
                    None => self.overview.server_port,
                },
                ..self.overview
            },
            ..self
        }
    }

    /// The state after a trace event was folded in at `now`.
    pub open spec fn trace_folded(self, ev: DevBusLogEventView, now: u64) -> DashboardStateView {
        let sid = known_id(ev.session_id);
        let rid = known_id(ev.request_id);
        let data = ev.data;
        match TraceKind::named(ev.event_type) {
            TraceKind::SessionConnect => match sid {
                Some(s) => self.session_opened(connected_session(s, ev)).sessions_counted().logged(
                    log_entry(
                        now,
                        LogLevel::Info,
                        "Session connected: "@ + s,
                        "session"@,
                        sid,
                        None,
                    ),
                ),
                None => self,
            },
            TraceKind::SessionDisconnect => match sid {
                Some(s) => self.session_left(s).sessions_counted().logged(
                    log_entry(
                        now,
                        LogLevel::Info,
                        "Session disconnected: "@ + s,
                        "session"@,
                        sid,
                        None,
                    ),
                ),
                None => self,
            },
            TraceKind::RequestStart => {
                let request = started_request(ev);
                self.request_started(request).logged(
                    log_entry(
                        now,
                        LogLevel::Info,
                        "Request started: "@ + request.flow_name + bracketed(
                            name_or_method(request.entry_name, request.method),
                        ),
                        "api"@,
                        sid,
                        rid,
                    ),
                )
            },
            TraceKind::RequestComplete => {
                let flow = text_or(text_in(data, "flowName"@), "unknown"@);
                let change = RequestChangeView {
                    duration_ms: u64_in(data, "durationMs"@),
                    entry_name: text_in(data, "entryName"@),
                    is_error: None,
                    error_message: None,
                };
                self.request_closed(now, rid, flow, true, change).logged(
                    log_entry(
                        now,
                        LogLevel::Info,
                        "Request complete: "@ + flow + bracketed(
                            ended_entry_name(self.requests, rid, change),
                        ) + duration_text(change.duration_ms),
                        "api"@,
                        sid,
                        rid,
                    ),
                )
            },
            TraceKind::RequestError => {
                let flow = text_or(text_in(data, "flowName"@), "unknown"@);
                let message = text_or(
                    text_in(get_in(data, "error"@), "message"@),
                    "Unknown error"@,
                );
                let change = RequestChangeView {
                    duration_ms: u64_in(data, "durationMs"@),
                    entry_name: text_in(data, "entryName"@),
                    is_error: Some(true),
                    error_message: Some(Some(message)),
                };
                self.request_closed(now, rid, flow, false, change).logged(
                    log_entry(
                        now,
                        LogLevel::Error,
                        "Request error: "@ + flow + bracketed(
                            ended_entry_name(self.requests, rid, change),
                        ) + " - "@ + message,
                        "api"@,
                        sid,
                        rid,
                    ),
                )
            },
            TraceKind::ToolExecute => self.logged(
                log_entry(
                    now,
                    LogLevel::Info,
                    "Tool executing: "@ + text_or(text_in(data, "entryName"@), "unknown"@),
                    "tool"@,
                    sid,
                    rid,
                ),
            ),
            TraceKind::ToolComplete => {
                let name = text_or(text_in(data, "entryName"@), "unknown"@);
                let duration = u64_in(data, "durationMs"@);
                DashboardStateView {
                    metrics: self.metrics.with_request(true, duration, Some(name)),
                    ..self
                }.tool_called(now, name, true, duration).logged(
                    log_entry(
                        now,
                        LogLevel::Info,
                        "Tool complete: "@ + name + duration_text(duration),
                        "tool"@,
                        sid,
                        rid,
                    ),
                )
            },
            TraceKind::ServerStarting => DashboardStateView {
                server: ServerStatusView { is_ready: false, ..self.server },
                ..self
            }.noted(now, LogLevel::Info, "Server starting..."@, "server"@),
            TraceKind::ServerReady => self.server_ready(text_in(data, "address"@)).noted(
                now,
                LogLevel::Info,
                "Server ready"@,
                "server"@,
            ),
            TraceKind::ServerShutdown => DashboardStateView {
                server: ServerStatusView {
                    is_ready: false,
                    uptime_ms: u64_in(data, "uptimeMs"@),
                    ..self.server
                },
                ..self
            }.noted(now, LogLevel::Info, "Server shutdown"@, "server"@),
            TraceKind::ConfigLoaded => DashboardStateView {
                config: crate::state::model::ConfigStatusView { is_loaded: true, ..self.config },
                ..self
            }.noted(now, LogLevel::Info, "Config loaded"@, "config"@),
            TraceKind::ConfigError => self.noted(
                now,
                LogLevel::Error,
                "Config error"@,
                "config"@,
            ),
            TraceKind::RegistryAdded(kind) => {
                let entries = detailed_entries(data);
                self.entries_added(kind, entries).names_noted(
                    now,
                    kind,
                    " registered: "@,
                    names_of(entries),
                ).registry_counted()
            },
            TraceKind::RegistryReset(kind) => {
                let entries = detailed_entries(data);
                self.entries_reset(kind, entries).names_noted(
                    now,
                    kind,
                    " registered: "@,
                    names_of(entries),
                ).registry_counted()
            },
            TraceKind::RegistryRemoved(kind) => self.names_removed(
                kind,
                entry_names(data),
            ).names_noted(now, kind, " removed: "@, entry_names(data)).registry_counted(),
            TraceKind::RegistryUpdated(kind) => self.names_noted(
                now,
                kind,
                " updated: "@,
                entry_names(data),
            ),
            TraceKind::Other => self.logged(
                log_entry(
                    now,
                    LogLevel::Debug,
                    "Trace event: "@ + ev.event_type,
                    "trace"@,
                    sid,
                    rid,
                ),
            ),
        }
    }

    /// The state after a log line of the second schema was folded in at `now`.
    pub open spec fn log_folded(self, ev: DevBusLogEventView, now: u64) -> DashboardStateView {
        self.logged(
            log_entry(
                now,
                level_named(ev.level_name),
                text_or(ev.message, Seq::empty()),
                if ev.prefix.len() == 0 {
                    "sdk"@
                } else {
                    ev.prefix
                },
                known_id(ev.session_id),
                known_id(ev.request_id),
            ),
        )
    }

    /// The state after an event of the second schema was folded in at
    /// `now`: it is counted, and folded in by its category.
    pub open spec fn transport_folded(self, ev: DevBusLogEventView, now: u64) -> DashboardStateView {
        if ev.category == "trace"@ {
            self.event_counted().trace_folded(ev, now)
        } else if ev.category == "log"@ {
            self.event_counted().log_folded(ev, now)
        } else {
            self.event_counted()
        }
    }
}

/// The level that the name of a level stands for; information for a
/// missing name and for one that is not known.
pub open spec fn level_named(name: Option<Seq<char>>) -> LogLevel {
    match name {
        Some(n) => if n == "error"@ {
            LogLevel::Error
        } else if n == "warn"@ {
            LogLevel::Warn
        } else if n == "debug"@ || n == "verbose"@ {
            LogLevel::Debug
        } else {
            LogLevel::Info
        },
        None => LogLevel::Info,
    }
}

pub fn known_id_exec(id: &String) -> (r: Option<String>)
    ensures
        r.deep_view() == known_id(id@),
{
    if str_eq(id.as_str(), "unknown") {
        None
    } else {
        Some(id.clone())
    }
}

pub fn bracketed_exec(name: &Option<String>) -> (r: String)
    ensures
        r@ == bracketed(name.deep_view()),
{
    match name {
        Some(n) => concat3(" [", n.as_str(), "]"),
        None => String::new(),
    }
}

pub fn duration_text_exec(duration_ms: Option<u64>) -> (r: String)
    ensures
        r@ == duration_text(duration_ms),
{
    match duration_ms {
        Some(d) => {
            let digits = decimal_string(d);
            concat3(" (", digits.as_str(), "ms)")
        },
        None => String::new(),
    }
}

pub fn port_of_exec(address: &str) -> (r: Option<u16>)
    ensures
        r == port_of(address@),
{
    let chars = chars_of(address);
    let tail = after_last_exec(&chars, ':');
    parse_port_exec(&tail)
}

fn data_of(event: &DevBusLogEvent) -> (r: Option<&Json>)
    ensures
        r.deep_view() == event@.data,
{
    match &event.data {
        Some(j) => Some(j),
        None => None,
    }
}

pub fn level_named_exec(name: &Option<String>) -> (r: LogLevel)
    ensures
        r == level_named(name.deep_view()),
{
    match name {
        Some(n) => {
            let n = n.as_str();
            if str_eq(n, "error") {
                LogLevel::Error
            } else if str_eq(n, "warn") {
                LogLevel::Warn
            } else if str_eq(n, "debug") || str_eq(n, "verbose") {
                LogLevel::Debug
            } else {
                LogLevel::Info
            }
        },
        None => LogLevel::Info,
    }
}

impl DashboardState {
    /// Adds the entries to the registry of the kind.
    pub fn add_registry_entries(&mut self, kind: RegistryKind, entries: &Vec<EntryDetail>)
        ensures
            final(self)@ == old(self)@.entries_added(kind, entries.deep_view()),
    {
        match kind {
            RegistryKind::Tool => add_entries(&mut self.tools, entries),
            RegistryKind::Resource => add_entries(&mut self.resources, entries),
            RegistryKind::Prompt => add_entries(&mut self.prompts, entries),
            RegistryKind::Plugin => add_entries(&mut self.plugins, entries),
            RegistryKind::Adapter => add_entries(&mut self.adapters, entries),
        }
    }

    /// Resets the registry of the kind to the entries.
    pub fn reset_registry_entries(&mut self, kind: RegistryKind, entries: &Vec<EntryDetail>)
        ensures
            final(self)@ == old(self)@.entries_reset(kind, entries.deep_view()),
    {
        match kind {
            RegistryKind::Tool => reset_entries(&mut self.tools, entries),
            RegistryKind::Resource => reset_entries(&mut self.resources, entries),
            RegistryKind::Prompt => reset_entries(&mut self.prompts, entries),
            RegistryKind::Plugin => reset_entries(&mut self.plugins, entries),
            RegistryKind::Adapter => reset_entries(&mut self.adapters, entries),
        }
    }

    /// Removes the names from the registry of the kind.
    pub fn remove_registry_names(&mut self, kind: RegistryKind, names: &Vec<String>)
        ensures
            final(self)@ == old(self)@.names_removed(kind, names.deep_view()),
    {
        match kind {
            RegistryKind::Tool => remove_keys(&mut self.tools, names),
            RegistryKind::Resource => remove_keys(&mut self.resources, names),
            RegistryKind::Prompt => remove_keys(&mut self.prompts, names),
            RegistryKind::Plugin => remove_keys(&mut self.plugins, names),
            RegistryKind::Adapter => remove_keys(&mut self.adapters, names),
        }
    }

    /// Logs a change of names in a registry, unless it is a change of no names.
    pub fn note_names(&mut self, now: u64, kind: RegistryKind, verb: &str, names: &Vec<String>)
        ensures
            final(self)@ == old(self)@.names_noted(now, kind, verb@, names.deep_view()),
    {
        if names.len() > 0 {
            let joined = join_strings(names, ", ");
            assert(crate::text::texts(names@) =~= names.deep_view());
            let message = concat3(kind.title(), verb, joined.as_str());
            self.add_log_at(now, LogLevel::Info, message, "registry");
        }
    }

    /// Counts a tool call and shows it in the overview.
    pub fn note_tool_call(&mut self, now: u64, name: String, success: bool, duration_ms: Option<u64>)
        ensures
            final(self)@ == old(self)@.tool_called(now, name@, success, duration_ms),
    {
        self.overview.add_tool_call_at(now, name, success, duration_ms);
    }

    /// Takes in the end of a request, and says which entry it ended with.
    pub fn close_request(
        &mut self,
        now: u64,
        id: &Option<String>,
        flow_name: &str,
        success: bool,
        change: RequestChange,
    ) -> (name: Option<String>)
        ensures
            final(self)@ == old(self)@.request_closed(
                now,
                id.deep_view(),
                flow_name@,
                success,
                change@,
            ),
            name.deep_view() == ended_entry_name(old(self)@.requests, id.deep_view(), change@),
    {
        let duration_ms = change.duration_ms;
        let name = self.end_request(id, change);
        let tool_flow = str_contains(flow_name, "tool");
        match &name {
            Some(n) => {
                if tool_flow {
                    self.metrics.record_request(success, duration_ms, Some(n.as_str()));
                    self.note_tool_call(now, n.clone(), success, duration_ms);
                } else {
                    self.metrics.record_request(success, duration_ms, None);
                }
            },
            None => {
                self.metrics.record_request(success, duration_ms, None);
            },
        }
        name
    }

    /// Takes in that the server is ready at an address.
    pub fn mark_server_ready(&mut self, address: Option<String>)
        ensures
            final(self)@ == old(self)@.server_ready(address.deep_view()),
    {
        self.server.is_ready = true;
        match &address {
            Some(a) => {
                match port_of_exec(a.as_str()) {
                    Some(p) => {
                        self.overview.server_port = Some(p);
                    },
                    None => {},
                }
            },
            None => {},
        }
        self.overview.server_address = clone_text(&address);
        self.server.address = address;
    }

    fn trace_session_connect(&mut self, event: &DevBusLogEvent, now: u64)
        requires
            TraceKind::named(event@.event_type) is SessionConnect,
        ensures
            final(self)@ == old(self)@.trace_folded(event@, now),
    {
        let data = data_of(event);
        match known_id_exec(&event.session_id) {
            Some(sid) => {
                let user = get_in_exec(data, "authUser");
                let session = SessionInfo {
                    id: sid.clone(),
                    transport_type: text_in_exec(data, "transportType"),
                    client_name: None,
                    client_version: None,
                    user_agent: None,
                    connected_at: event.timestamp,
                    is_active: true,
                    auth_mode: text_in_exec(data, "authMode"),
                    auth_user_name: text_in_exec(user, "name"),
                    auth_user_email: text_in_exec(user, "email"),
                    is_anonymous: bool_in_exec(data, "isAnonymous"),
                };
                self.open_session(session);
                self.update_overview_sessions();
                let message = concat("Session connected: ", sid.as_str());
                self.add_log_with_context(now, LogLevel::Info, message, "session", Some(sid), None);
            },
            None => {},
        }
    }

    fn trace_session_disconnect(&mut self, event: &DevBusLogEvent, now: u64)
        requires
            TraceKind::named(event@.event_type) is SessionDisconnect,
        ensures
            final(self)@ == old(self)@.trace_folded(event@, now),
    {
        match known_id_exec(&event.session_id) {
            Some(sid) => {
                self.close_session(sid.as_str());
                self.update_overview_sessions();
                let message = concat("Session disconnected: ", sid.as_str());
                self.add_log_with_context(now, LogLevel::Info, message, "session", Some(sid), None);
            },
            None => {},
        }
    }

    fn trace_request_start(&mut self, event: &DevBusLogEvent, now: u64)
        requires
            TraceKind::named(event@.event_type) is RequestStart,
        ensures
            final(self)@ == old(self)@.trace_folded(event@, now),
    {
        let data = data_of(event);
        let sid = known_id_exec(&event.session_id);
        let rid = known_id_exec(&event.request_id);
        let flow_name = text_or_exec(text_in_exec(data, "flowName"), "unknown");
        let method = text_in_exec(data, "method");
        let entry_name = text_in_exec(data, "entryName");
        let detail = if entry_name.is_some() {
            bracketed_exec(&entry_name)
        } else {
            bracketed_exec(&method)
        };
        let message = concat3("Request started: ", flow_name.as_str(), detail.as_str());
        let request = ApiRequest {
            id: text_or_exec(clone_text(&rid), ""),
            flow_name,
            method,
            entry_name,
            started_at: event.timestamp,
            duration_ms: None,
            is_error: false,
            error_message: None,
            session_id: clone_text(&sid),
        };
        proof {
            reveal_strlit("");
            assert(""@ =~= Seq::<char>::empty());
        }
        self.start_request(request);
        self.add_log_with_context(now, LogLevel::Info, message, "api", sid, rid);
    }

    fn trace_request_complete(&mut self, event: &DevBusLogEvent, now: u64)
        requires
            TraceKind::named(event@.event_type) is RequestComplete,
        ensures
            final(self)@ == old(self)@.trace_folded(event@, now),
    {
        let data = data_of(event);
        let sid = known_id_exec(&event.session_id);
        let rid = known_id_exec(&event.request_id);
        let flow_name = text_or_exec(text_in_exec(data, "flowName"), "unknown");
        let duration_ms = u64_in_exec(data, "durationMs");
        let change = RequestChange {
            duration_ms,
            entry_name: text_in_exec(data, "entryName"),
            is_error: None,
            error_message: None,
        };
        let name = self.close_request(now, &rid, flow_name.as_str(), true, change);
        let detail = bracketed_exec(&name);
        let took = duration_text_exec(duration_ms);
        let mut message = concat3("Request complete: ", flow_name.as_str(), detail.as_str());
        message.append(took.as_str());
        self.add_log_with_context(now, LogLevel::Info, message, "api", sid, rid);
    }

    fn trace_request_error(&mut self, event: &DevBusLogEvent, now: u64)
        requires
            TraceKind::named(event@.event_type) is RequestError,
        ensures
            final(self)@ == old(self)@.trace_folded(event@, now),
    {
        let data = data_of(event);
        let sid = known_id_exec(&event.session_id);
        let rid = known_id_exec(&event.request_id);
        let flow_name = text_or_exec(text_in_exec(data, "flowName"), "unknown");
        let duration_ms = u64_in_exec(data, "durationMs");
        let error = get_in_exec(data, "error");
        let error_message = text_or_exec(text_in_exec(error, "message"), "Unknown error");
        let change = RequestChange {
            duration_ms,
            entry_name: text_in_exec(data, "entryName"),
            is_error: Some(true),
            error_message: Some(Some(error_message.clone())),
        };
        let name = self.close_request(now, &rid, flow_name.as_str(), false, change);
        let detail = bracketed_exec(&name);
        let mut message = concat3("Request error: ", flow_name.as_str(), detail.as_str());
        message.append(" - ");
        message.append(error_message.as_str());
        self.add_log_with_context(now, LogLevel::Error, message, "api", sid, rid);
    }

    fn trace_tool_execute(&mut self, event: &DevBusLogEvent, now: u64)
        requires
            TraceKind::named(event@.event_type) is ToolExecute,
        ensures
            final(self)@ == old(self)@.trace_folded(event@, now),
    {
        let data = data_of(event);
        let sid = known_id_exec(&event.session_id);
        let rid = known_id_exec(&event.request_id);
        let name = text_or_exec(text_in_exec(data, "entryName"), "unknown");
        let message = concat("Tool executing: ", name.as_str());
        self.add_log_with_context(now, LogLevel::Info, message, "tool", sid, rid);
    }

    fn trace_tool_complete(&mut self, event: &DevBusLogEvent, now: u64)
        requires
            TraceKind::named(event@.event_type) is ToolComplete,
        ensures
            final(self)@ == old(self)@.trace_folded(event@, now),
    {
        let data = data_of(event);
        let sid = known_id_exec(&event.session_id);
        let rid = known_id_exec(&event.request_id);
        let name = text_or_exec(text_in_exec(data, "entryName"), "unknown");
        let duration_ms = u64_in_exec(data, "durationMs");
        self.metrics.record_request(true, duration_ms, Some(name.as_str()));
        let took = duration_text_exec(duration_ms);
        let message = concat3("Tool complete: ", name.as_str(), took.as_str());
        self.note_tool_call(now, name, true, duration_ms);
        self.add_log_with_context(now, LogLevel::Info, message, "tool", sid, rid);
    }

    fn trace_server(&mut self, event: &DevBusLogEvent, now: u64)
        requires
            ({
                let k = TraceKind::named(event@.event_type);
                k is ServerStarting || k is ServerReady || k is ServerShutdown
            }),
        ensures
            final(self)@ == old(self)@.trace_folded(event@, now),
    {
        let data = data_of(event);
        match TraceKind::from_name(event.event_type.as_str()) {
            TraceKind::ServerStarting => {
                self.server.is_ready = false;
                self.add_log_at(now, LogLevel::Info, "Server starting...".to_owned(), "server");
            },
            TraceKind::ServerReady => {
                self.mark_server_ready(text_in_exec(data, "address"));
                self.add_log_at(now, LogLevel::Info, "Server ready".to_owned(), "server");
            },
            _ => {
                self.server.is_ready = false;
                self.server.uptime_ms = u64_in_exec(data, "uptimeMs");
                self.add_log_at(now, LogLevel::Info, "Server shutdown".to_owned(), "server");
            },
        }
    }

    fn trace_registry_added(&mut self, kind: RegistryKind, event: &DevBusLogEvent, now: u64)
        ensures
            final(self)@ == old(self)@.entries_added(
                kind,
                detailed_entries(event@.data),
            ).names_noted(
                now,
                kind,
                " registered: "@,
                names_of(detailed_entries(event@.data)),
            ).registry_counted(),
            final(self)@.apps_counted(),
    {
        let data = data_of(event);
        let entries = extract_entries(data);
        let names = names_of_exec(&entries);
        self.add_registry_entries(kind, &entries);
        self.note_names(now, kind, " registered: ", &names);
        self.update_overview_registry();
    }

    fn trace_registry_reset(&mut self, kind: RegistryKind, event: &DevBusLogEvent, now: u64)
        ensures
            final(self)@ == old(self)@.entries_reset(
                kind,
                detailed_entries(event@.data),
            ).names_noted(
                now,
                kind,
                " registered: "@,
                names_of(detailed_entries(event@.data)),
            ).registry_counted(),
            final(self)@.apps_counted(),
    {
        let data = data_of(event);
        let entries = extract_entries(data);
        let names = names_of_exec(&entries);
        self.reset_registry_entries(kind, &entries);
        self.note_names(now, kind, " registered: ", &names);
        self.update_overview_registry();
    }

    fn trace_registry_removed(&mut self, kind: RegistryKind, event: &DevBusLogEvent, now: u64)
        ensures
            final(self)@ == old(self)@.names_removed(kind, entry_names(event@.data)).names_noted(
                now,
                kind,
                " removed: "@,
                entry_names(event@.data),
            ).registry_counted(),
            final(self)@.apps_counted(),
    {
        let names = extract_entry_names(data_of(event));
        self.remove_registry_names(kind, &names);
        self.note_names(now, kind, " removed: ", &names);
        self.update_overview_registry();
    }

    fn trace_registry_updated(&mut self, kind: RegistryKind, event: &DevBusLogEvent, now: u64)
        ensures
            final(self)@ == old(self)@.names_noted(
                now,
                kind,
                " updated: "@,
                entry_names(event@.data),
            ),
    {
        let names = extract_entry_names(data_of(event));
        self.note_names(now, kind, " updated: ", &names);
    }

    /// Folds a trace event into the state, at the time `now`.
    pub fn handle_trace_event(&mut self, event: &DevBusLogEvent, now: u64)
        ensures
            final(self)@ == old(self)@.trace_folded(event@, now),
            old(self)@.apps_counted() ==> final(self)@.apps_counted(),
    {
        proof {
            crate::state::laws::lemma_trace_keeps_app_basis(self@, event@, now);
        }
        match TraceKind::from_name(event.event_type.as_str()) {
            TraceKind::SessionConnect => self.trace_session_connect(event, now),
            TraceKind::SessionDisconnect => self.trace_session_disconnect(event, now),
            TraceKind::RequestStart => self.trace_request_start(event, now),
            TraceKind::RequestComplete => self.trace_request_complete(event, now),
            TraceKind::RequestError => self.trace_request_error(event, now),
            TraceKind::ToolExecute => self.trace_tool_execute(event, now),
            TraceKind::ToolComplete => self.trace_tool_complete(event, now),
            TraceKind::ServerStarting => self.trace_server(event, now),
            TraceKind::ServerReady => self.trace_server(event, now),
            TraceKind::ServerShutdown => self.trace_server(event, now),
            TraceKind::ConfigLoaded => {
                self.config.is_loaded = true;
                self.add_log_at(now, LogLevel::Info, "Config loaded".to_owned(), "config");
            },
            TraceKind::ConfigError => {
                self.add_log_at(now, LogLevel::Error, "Config error".to_owned(), "config");
            },
            TraceKind::RegistryAdded(kind) => self.trace_registry_added(kind, event, now),
            TraceKind::RegistryReset(kind) => self.trace_registry_reset(kind, event, now),
            TraceKind::RegistryRemoved(kind) => self.trace_registry_removed(kind, event, now),
            TraceKind::RegistryUpdated(kind) => self.trace_registry_updated(kind, event, now),
            TraceKind::Other => {
                let sid = known_id_exec(&event.session_id);
                let rid = known_id_exec(&event.request_id);
                let message = concat("Trace event: ", event.event_type.as_str());
                self.add_log_with_context(now, LogLevel::Debug, message, "trace", sid, rid);
            },
        }
    }

    /// Folds a log line of the second schema into the state, at the time `now`.
    pub fn handle_log_event(&mut self, event: &DevBusLogEvent, now: u64)
        ensures
            final(self)@ == old(self)@.log_folded(event@, now),
    {
        let level = level_named_exec(&event.level_name);
        let message = text_or_exec(clone_text(&event.message), "");
        proof {
            reveal_strlit("");
            assert(""@ =~= Seq::<char>::empty());
        }
        let sid = known_id_exec(&event.session_id);
        let rid = known_id_exec(&event.request_id);
        if event.prefix.as_str().is_empty() {
            self.add_log_with_context(now, level, message, "sdk", sid, rid);
        } else {
            self.add_log_with_context(now, level, message, event.prefix.as_str(), sid, rid);
        }
    }

    /// Folds an event of the second schema into the state, at the time `now`.
    pub fn handle_log_transport_event(&mut self, event: &DevBusLogEvent, now: u64)
        ensures
            final(self)@ == old(self)@.transport_folded(event@, now),
            old(self)@.apps_counted() ==> final(self)@.apps_counted(),
    {
        self.events_received = self.events_received.saturating_add(1);
        if str_eq(event.category.as_str(), "trace") {
            self.handle_trace_event(event, now);
        } else if str_eq(event.category.as_str(), "log") {
            self.handle_log_event(event, now);
        }
    }
}

} // verus!
