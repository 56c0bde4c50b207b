//! Folding the events of the first schema into the state.

use crate::event::types::{
    ConfigError, ConfigErrorView, ConfigEvent, ConfigEventType, ConfigEventView, DevEvent,
    DevEventView, EntryOwner, EntryOwnerView, RegistryEntryInfo, RegistryEntryInfoView,
    RegistryEvent, RegistryEventType, RegistryEventView, RequestEvent, RequestEventType,
    RequestEventView, ServerEvent, ServerEventType, ServerEventView, SessionEvent,
    SessionEventType, SessionEventView,
};
use crate::json::{json_text, write_json, Json, JsonView};
use crate::state::logs::log_entry;
use crate::state::model::{
    ApiRequest, ApiRequestView, ConfigStatusView, DashboardState, DashboardStateView, EntryDetail,
    EntryDetailView, LogLevel, ServerStatusView, SessionInfo, SessionInfoView,
};
use crate::state::registry::{bare_entries, bare_entries_exec};
use crate::state::requests::{ended_entry_name, RequestChange, RequestChangeView};
use crate::state::trace::{bracketed, bracketed_exec, duration_text, duration_text_exec, name_or_method, RegistryKind};
use crate::text::{clone_text, text_or, byte_len, byte_len_exec, concat, concat3, join, join_strings, texts};
use vstd::prelude::*;

verus! {

/// How a registry changed.
#[derive(Debug, Clone, Copy, PartialEq, Eq, Structural)]
pub enum RegistryChange {
    Added,
    Removed,
    Updated,
    Reset,
}

impl RegistryEventType {
    /// The registry that changed; none for the agents, of which no registry is kept.
    pub open spec fn spec_registry(self) -> Option<RegistryKind> {
        match self {
            RegistryEventType::ToolAdded => Some(RegistryKind::Tool),
            RegistryEventType::ToolRemoved => Some(RegistryKind::Tool),
            RegistryEventType::ToolUpdated => Some(RegistryKind::Tool),
            RegistryEventType::ToolReset => Some(RegistryKind::Tool),
            RegistryEventType::ResourceAdded => Some(RegistryKind::Resource),
            RegistryEventType::ResourceRemoved => Some(RegistryKind::Resource),
            RegistryEventType::ResourceUpdated => Some(RegistryKind::Resource),
            RegistryEventType::ResourceReset => Some(RegistryKind::Resource),
            RegistryEventType::PromptAdded => Some(RegistryKind::Prompt),
            RegistryEventType::PromptRemoved => Some(RegistryKind::Prompt),
            RegistryEventType::PromptUpdated => Some(RegistryKind::Prompt),
            RegistryEventType::PromptReset => Some(RegistryKind::Prompt),
            RegistryEventType::AgentAdded => None,
            RegistryEventType::AgentRemoved => None,
            RegistryEventType::AgentUpdated => None,
            RegistryEventType::AgentReset => None,
            RegistryEventType::PluginAdded => Some(RegistryKind::Plugin),
            RegistryEventType::PluginRemoved => Some(RegistryKind::Plugin),
            RegistryEventType::PluginUpdated => Some(RegistryKind::Plugin),
            RegistryEventType::PluginReset => Some(RegistryKind::Plugin),
            RegistryEventType::AdapterAdded => Some(RegistryKind::Adapter),
            RegistryEventType::AdapterRemoved => Some(RegistryKind::Adapter),
            RegistryEventType::AdapterUpdated => Some(RegistryKind::Adapter),
            RegistryEventType::AdapterReset => Some(RegistryKind::Adapter),
        }
    }

    /// How the registry changed.
    pub open spec fn spec_change(self) -> RegistryChange {
        match self {
            RegistryEventType::ToolAdded => RegistryChange::Added,
            RegistryEventType::ResourceAdded => RegistryChange::Added,
            RegistryEventType::PromptAdded => RegistryChange::Added,
            RegistryEventType::AgentAdded => RegistryChange::Added,
            RegistryEventType::PluginAdded => RegistryChange::Added,
            RegistryEventType::AdapterAdded => RegistryChange::Added,
            RegistryEventType::ToolRemoved => RegistryChange::Removed,
            RegistryEventType::ResourceRemoved => RegistryChange::Removed,
            RegistryEventType::PromptRemoved => RegistryChange::Removed,
            RegistryEventType::AgentRemoved => RegistryChange::Removed,
            RegistryEventType::PluginRemoved => RegistryChange::Removed,
            RegistryEventType::AdapterRemoved => RegistryChange::Removed,
            RegistryEventType::ToolUpdated => RegistryChange::Updated,
            RegistryEventType::ResourceUpdated => RegistryChange::Updated,
            RegistryEventType::PromptUpdated => RegistryChange::Updated,
            RegistryEventType::AgentUpdated => RegistryChange::Updated,
            RegistryEventType::PluginUpdated => RegistryChange::Updated,
            RegistryEventType::AdapterUpdated => RegistryChange::Updated,
            RegistryEventType::ToolReset => RegistryChange::Reset,
            RegistryEventType::ResourceReset => RegistryChange::Reset,
            RegistryEventType::PromptReset => RegistryChange::Reset,
            RegistryEventType::AgentReset => RegistryChange::Reset,
            RegistryEventType::PluginReset => RegistryChange::Reset,
            RegistryEventType::AdapterReset => RegistryChange::Reset,
        }
    }

    pub fn registry(&self) -> (r: Option<RegistryKind>)
        ensures
            r == self.spec_registry(),
    {
        match self {
            RegistryEventType::ToolAdded => Some(RegistryKind::Tool),
            RegistryEventType::ToolRemoved => Some(RegistryKind::Tool),
            RegistryEventType::ToolUpdated => Some(RegistryKind::Tool),
            RegistryEventType::ToolReset => Some(RegistryKind::Tool),
            RegistryEventType::ResourceAdded => Some(RegistryKind::Resource),
            RegistryEventType::ResourceRemoved => Some(RegistryKind::Resource),
            RegistryEventType::ResourceUpdated => Some(RegistryKind::Resource),
            RegistryEventType::ResourceReset => Some(RegistryKind::Resource),
            RegistryEventType::PromptAdded => Some(RegistryKind::Prompt),
            RegistryEventType::PromptRemoved => Some(RegistryKind::Prompt),
            RegistryEventType::PromptUpdated => Some(RegistryKind::Prompt),
            RegistryEventType::PromptReset => Some(RegistryKind::Prompt),
            RegistryEventType::AgentAdded => None,
            RegistryEventType::AgentRemoved => None,
            RegistryEventType::AgentUpdated => None,
            RegistryEventType::AgentReset => None,
            RegistryEventType::PluginAdded => Some(RegistryKind::Plugin),
            RegistryEventType::PluginRemoved => Some(RegistryKind::Plugin),
            RegistryEventType::PluginUpdated => Some(RegistryKind::Plugin),
            RegistryEventType::PluginReset => Some(RegistryKind::Plugin),
            RegistryEventType::AdapterAdded => Some(RegistryKind::Adapter),
            RegistryEventType::AdapterRemoved => Some(RegistryKind::Adapter),
            RegistryEventType::AdapterUpdated => Some(RegistryKind::Adapter),
            RegistryEventType::AdapterReset => Some(RegistryKind::Adapter),
        }
    }

    pub fn change(&self) -> (r: RegistryChange)
        ensures
            r == self.spec_change(),
    {
        match self {
            RegistryEventType::ToolAdded => RegistryChange::Added,
            RegistryEventType::ResourceAdded => RegistryChange::Added,
            RegistryEventType::PromptAdded => RegistryChange::Added,
            RegistryEventType::AgentAdded => RegistryChange::Added,
            RegistryEventType::PluginAdded => RegistryChange::Added,
            RegistryEventType::AdapterAdded => RegistryChange::Added,
            RegistryEventType::ToolRemoved => RegistryChange::Removed,
            RegistryEventType::ResourceRemoved => RegistryChange::Removed,
            RegistryEventType::PromptRemoved => RegistryChange::Removed,
            RegistryEventType::AgentRemoved => RegistryChange::Removed,
            RegistryEventType::PluginRemoved => RegistryChange::Removed,
            RegistryEventType::AdapterRemoved => RegistryChange::Removed,
            RegistryEventType::ToolUpdated => RegistryChange::Updated,
            RegistryEventType::ResourceUpdated => RegistryChange::Updated,
            RegistryEventType::PromptUpdated => RegistryChange::Updated,
            RegistryEventType::AgentUpdated => RegistryChange::Updated,
            RegistryEventType::PluginUpdated => RegistryChange::Updated,
            RegistryEventType::AdapterUpdated => RegistryChange::Updated,
            RegistryEventType::ToolReset => RegistryChange::Reset,
            RegistryEventType::ResourceReset => RegistryChange::Reset,
            RegistryEventType::PromptReset => RegistryChange::Reset,
            RegistryEventType::AgentReset => RegistryChange::Reset,
            RegistryEventType::PluginReset => RegistryChange::Reset,
            RegistryEventType::AdapterReset => RegistryChange::Reset,
        }
    }
}

/// The kind and the id of an owner, as a pair.
pub open spec fn owner_pair(owner: Option<EntryOwnerView>) -> Option<(Seq<char>, Seq<char>)> {
    match owner {
        Some(o) => Some((o.kind, o.id)),
        None => None,
    }
}

/// What an entry in full tells: its input schema is kept as JSON text.
pub open spec fn full_entry(info: RegistryEntryInfoView) -> EntryDetailView {
    EntryDetailView {
        name: info.name,
        description: info.description,
        input_schema: match info.input_schema {
            Some(schema) => Some(json_text(schema)),
            None => None,
        },
        uri: info.uri,
        version: info.version,
        owner_kind: match info.owner {
            Some(o) => Some(o.kind),
            None => None,
        },
        owner_id: match info.owner {
            Some(o) => Some(o.id),
            None => None,
        },
    }
}

/// What the entries in full tell, in order.
pub open spec fn full_entries(infos: Seq<RegistryEntryInfoView>) -> Seq<EntryDetailView> {
    Seq::new(infos.len(), |i: int| full_entry(infos[i]))
}

/// The texts, or none where there are none.
pub open spec fn texts_or_none(texts: Option<Seq<Seq<char>>>) -> Seq<Seq<char>> {
    match texts {
        Some(t) => t,
        None => Seq::empty(),
    }
}

/// The entries that a reset carries: those it tells in full, else those it names.
pub open spec fn reset_payload(ev: RegistryEventView) -> Seq<EntryDetailView> {
    match ev.data.entries {
        Some(infos) => full_entries(infos),
        None => bare_entries(texts_or_none(ev.data.entry_names), owner_pair(ev.data.owner)),
    }
}

/// How many bytes the JSON text of a body takes; zero for no body.
pub open spec fn body_size(body: Option<JsonView>) -> u64 {
    match body {
        Some(b) => byte_len(json_text(b)) as u64,
        None => 0,
    }
}

/// The messages of the faults, in order.
pub open spec fn fault_messages(errors: Seq<ConfigErrorView>) -> Seq<Seq<char>> {
    Seq::new(errors.len(), |i: int| errors[i].message)
}

/// The session that an event of a connection denotes.
pub open spec fn session_from_event(ev: SessionEventView) -> SessionInfoView {
    SessionInfoView {
        id: ev.data.session_id,
        transport_type: ev.data.transport_type,
        client_name: match ev.data.client_info {
            Some(c) => Some(c.name),
            None => None,
        },
        client_version: match ev.data.client_info {
            Some(c) => Some(c.version),
            None => None,
        },
        user_agent: None,
        connected_at: ev.base.timestamp,
        is_active: true,
        auth_mode: ev.data.auth_mode,
        auth_user_name: match ev.data.auth_user {
            Some(u) => u.name,
            None => None,
        },
        auth_user_email: match ev.data.auth_user {
            Some(u) => u.email,
            None => None,
        },
        is_anonymous: ev.data.is_anonymous,
    }
}

impl DashboardStateView {
    /// The state after a session event was folded in at `now`.
    pub open spec fn session_event_folded(self, ev: SessionEventView, now: u64) -> DashboardStateView {
        let sid = ev.data.session_id;
        match ev.event_type {
            SessionEventType::Connect => self.session_opened(
                session_from_event(ev),
            ).sessions_counted().logged(
                log_entry(
                    now,
                    LogLevel::Info,
                    "Session connected: "@ + sid,
                    "session"@,
                    Some(sid),
                    None,
                ),
            ),
            SessionEventType::Disconnect => self.session_left(sid).sessions_counted().logged(
                log_entry(
                    now,
                    LogLevel::Info,
                    "Session disconnected: "@ + sid,
                    "session"@,
                    Some(sid),
                    None,
                ),
            ),
            SessionEventType::Idle => self.logged(
                log_entry(
                    now,
                    LogLevel::Debug,
                    "Session idle: "@ + sid,
                    "session"@,
                    Some(sid),
                    None,
                ),
            ),
            SessionEventType::Active => self.logged(
                log_entry(
                    now,
                    LogLevel::Debug,
                    "Session active: "@ + sid,
                    "session"@,
                    Some(sid),
                    None,
                ),
            ),
        }
    }

    /// The state after a request event was folded in at `now`.
    pub open spec fn request_event_folded(self, ev: RequestEventView, now: u64) -> DashboardStateView {
        let sid = ev.base.session_id;
        let rid = ev.base.request_id;
        let flow = ev.data.flow_name;
        match ev.event_type {
            RequestEventType::Start => self.request_started(
                ApiRequestView {
                    id: text_or(rid, Seq::empty()),
                    flow_name: flow,
                    method: ev.data.method,
                    entry_name: ev.data.entry_name,
                    started_at: ev.base.timestamp,
                    duration_ms: None,
                    is_error: false,
                    error_message: None,
                    session_id: sid,
                },
            ).logged(
                log_entry(
                    now,
                    LogLevel::Info,
                    "Request started: "@ + flow + bracketed(
                        name_or_method(ev.data.entry_name, ev.data.method),
                    ),
                    "api"@,
                    sid,
                    rid,
                ),
            ),
            RequestEventType::Complete => {
                let failed = ev.data.is_error == Some(true);
                let change = RequestChangeView {
                    duration_ms: ev.data.duration_ms,
                    entry_name: ev.data.entry_name,
                    is_error: Some(failed),
                    error_message: None,
                };
                let closed = self.request_closed(now, rid, flow, !failed, change);
                DashboardStateView {
                    metrics: closed.metrics.with_traffic(
                        body_size(ev.data.request_body),
                        body_size(ev.data.response_body),
                    ),
                    ..closed
                }.logged(
                    log_entry(
                        now,
                        LogLevel::Info,
                        "Request complete: "@ + flow + bracketed(
                            ended_entry_name(self.requests, rid, change),
                        ) + duration_text(ev.data.duration_ms),
                        "api"@,
                        sid,
                        rid,
                    ),
                )
            },
            RequestEventType::Error => {
                let change = RequestChangeView {
                    duration_ms: ev.data.duration_ms,
                    entry_name: ev.data.entry_name,
                    is_error: Some(true),
                    error_message: Some(
                        match ev.data.error {
                            Some(e) => Some(e.message),
                            None => None,
                        },
                    ),
                };
                self.request_closed(now, rid, flow, false, change).logged(
                    log_entry(
                        now,
                        LogLevel::Error,
                        "Request error: "@ + flow + bracketed(
                            ended_entry_name(self.requests, rid, change),
                        ) + " - "@ + match ev.data.error {
                            Some(e) => e.message,
                            None => "Unknown error"@,
                        },
                        "api"@,
                        sid,
                        rid,
                    ),
                )
            },
        }
    }

    /// The state after a registry event was folded in at `now`. Of the
    /// agents no registry is kept: their events are logged.
    pub open spec fn registry_event_folded(self, ev: RegistryEventView, now: u64) -> DashboardStateView {
        let names = texts_or_none(ev.data.entry_names);
        let listed = join(names, ", "@);
        match ev.event_type.spec_registry() {
            Some(kind) => match ev.event_type.spec_change() {
                RegistryChange::Added => self.entries_added(
                    kind,
                    bare_entries(names, owner_pair(ev.data.owner)),
                ).noted(
                    now,
                    LogLevel::Info,
                    kind.spec_title() + " added: "@ + listed,
                    "registry"@,
                ),
                RegistryChange::Removed => self.names_removed(kind, names).noted(
                    now,
                    LogLevel::Info,
                    kind.spec_title() + " removed: "@ + listed,
                    "registry"@,
                ),
                RegistryChange::Updated => self.noted(
                    now,
                    LogLevel::Info,
                    kind.spec_title() + " updated: "@ + listed,
                    "registry"@,
                ),
                RegistryChange::Reset => self.entries_reset(kind, reset_payload(ev)).noted(
                    now,
                    LogLevel::Info,
                    kind.spec_title() + " reset"@,
                    "registry"@,
                ),
            },
            None => self.noted(
                now,
                LogLevel::Info,
                "Agent "@ + ev.data.change_kind + ": "@ + listed,
                "registry"@,
            ),
        }.registry_counted()
    }

    /// The state after a server event was folded in at `now`.
    pub open spec fn server_event_folded(self, ev: ServerEventView, now: u64) -> DashboardStateView {
        match ev.event_type {
            ServerEventType::Starting => DashboardStateView {
                server: ServerStatusView { is_ready: false, ..self.server },
                ..self
            }.noted(now, LogLevel::Info, "Server starting..."@, "server"@),
            ServerEventType::Ready => DashboardStateView {
                server: ServerStatusView {
                    name: match ev.data.server_info {
                        Some(i) => Some(i.name),
                        None => None,
                    },
                    version: match ev.data.server_info {
                        Some(i) => Some(i.version),
                        None => None,
                    },
                    ..self.server
                },
                ..self
            }.server_ready(ev.data.address).noted(
                now,
                LogLevel::Info,
                "Server ready"@,
                "server"@,
            ),
            ServerEventType::Error => DashboardStateView {
                server: ServerStatusView { error: ev.data.error, ..self.server },
                ..self
            }.noted(
                now,
                LogLevel::Error,
                "Server error: "@ + text_or(ev.data.error, "Unknown"@),
                "server"@,
            ),
            ServerEventType::Shutdown => DashboardStateView {
                server: ServerStatusView {
                    is_ready: false,
                    uptime_ms: ev.data.uptime_ms,
                    ..self.server
                },
                ..self
            }.noted(now, LogLevel::Info, "Server shutdown"@, "server"@),
        }
    }

    /// The state after a config event was folded in at `now`: the lists of
    /// keys and faults are taken as they come.
    pub open spec fn config_event_folded(self, ev: ConfigEventView, now: u64) -> DashboardStateView {
        match ev.event_type {
            ConfigEventType::Loaded => DashboardStateView {
                config: ConfigStatusView {
                    is_loaded: true,
                    config_path: ev.data.config_path,
                    loaded_keys: texts_or_none(ev.data.loaded_keys),
                    ..self.config
                },
                ..self
            }.noted(now, LogLevel::Info, "Config loaded"@, "config"@),
            ConfigEventType::Error => DashboardStateView {
                config: ConfigStatusView {
                    errors: match ev.data.errors {
                        Some(e) => fault_messages(e),
                        None => Seq::empty(),
                    },
                    ..self.config
                },
                ..self
            }.noted(now, LogLevel::Error, "Config error"@, "config"@),
            ConfigEventType::Missing => DashboardStateView {
                config: ConfigStatusView {
                    missing_keys: texts_or_none(ev.data.missing_keys),
                    ..self.config
                },
                ..self
            }.noted(now, LogLevel::Warn, "Config missing keys"@, "config"@),
        }
    }

    /// The state after an event of the first schema was folded in at `now`:
    /// it is counted, and folded in by its family.
    pub open spec fn event_folded(self, ev: DevEventView, now: u64) -> DashboardStateView {
        match ev {
            DevEventView::Session(e) => self.event_counted().session_event_folded(e, now),
            DevEventView::Request(e) => self.event_counted().request_event_folded(e, now),
            DevEventView::Registry(e) => self.event_counted().registry_event_folded(e, now),
            DevEventView::Server(e) => self.event_counted().server_event_folded(e, now),
            DevEventView::Config(e) => self.event_counted().config_event_folded(e, now),
        }
    }
}

fn texts_or_none_exec(texts: Option<Vec<String>>) -> (r: Vec<String>)
    ensures
        r.deep_view() == texts_or_none(texts.deep_view()),
{
    match texts {
        Some(t) => t,
        None => {
            let out: Vec<String> = Vec::new();
            assert(out.deep_view() =~= Seq::<Seq<char>>::empty());
            out
        },
    }
}

fn owner_pair_exec(owner: &Option<EntryOwner>) -> (r: Option<(String, String)>)
    ensures
        r.deep_view() == owner_pair(owner.deep_view()),
{
    match owner {
        Some(o) => Some((o.kind.clone(), o.id.clone())),
        None => None,
    }
}

fn full_entry_exec(info: &RegistryEntryInfo) -> (r: EntryDetail)
    ensures
        r@ == full_entry(info@),
{
    EntryDetail {
        name: info.name.clone(),
        description: info.description.clone(),
        input_schema: match &info.input_schema {
            Some(schema) => Some(write_json(schema)),
            None => None,
        },
        uri: info.uri.clone(),
        version: info.version.clone(),
        owner_kind: match &info.owner {
            Some(o) => Some(o.kind.clone()),
            None => None,
        },
        owner_id: match &info.owner {
            Some(o) => Some(o.id.clone()),
            None => None,
        },
    }
}

fn full_entries_exec(infos: &Vec<RegistryEntryInfo>) -> (r: Vec<EntryDetail>)
    ensures
        r.deep_view() == full_entries(infos.deep_view()),
{
    let mut out: Vec<EntryDetail> = Vec::new();
    let mut i: usize = 0;
    while i < infos.len()
        invariant
            i <= infos.len(),
            out.len() == i,
            forall|k: int| 0 <= k < i ==> (#[trigger] out@[k])@ == full_entry(infos@[k]@),
        decreases infos.len() - i,
    {
        out.push(full_entry_exec(&infos[i]));
        i += 1;
    }
    assert(out.deep_view() =~= full_entries(infos.deep_view()));
    out
}

fn body_size_exec(body: &Option<Json>) -> (r: u64)
    ensures
        r == body_size(body.deep_view()),
{
    match body {
        Some(b) => {
            let text = write_json(b);
            byte_len_exec(text.as_str()) as u64
        },
        None => 0,
    }
}

fn fault_messages_exec(errors: &Vec<ConfigError>) -> (r: Vec<String>)
    ensures
        r.deep_view() == fault_messages(errors.deep_view()),
{
    let mut out: Vec<String> = Vec::new();
    let mut i: usize = 0;
    while i < errors.len()
        invariant
            i <= errors.len(),
            out.len() == i,
            forall|k: int| 0 <= k < i ==> (#[trigger] out@[k])@ == errors@[k].message@,
        decreases errors.len() - i,
    {
        out.push(errors[i].message.clone());
        i += 1;
    }
    assert(out.deep_view() =~= fault_messages(errors.deep_view()));
    out
}

impl DashboardState {
    /// Folds a session event into the state, at the time `now`.
    pub fn handle_session_event(&mut self, event: SessionEvent, now: u64)
        ensures
            final(self)@ == old(self)@.session_event_folded(event@, now),
    {
        let sid = event.data.session_id.clone();
        match event.event_type {
            SessionEventType::Connect => {
                let session = SessionInfo {
                    id: sid.clone(),
                    transport_type: event.data.transport_type,
                    client_name: match &event.data.client_info {
                        Some(c) => Some(c.name.clone()),
                        None => None,
                    },
                    client_version: match &event.data.client_info {
                        Some(c) => Some(c.version.clone()),
                        None => None,
                    },
                    user_agent: None,
                    connected_at: event.base.timestamp,
                    is_active: true,
                    auth_mode: event.data.auth_mode,
                    auth_user_name: match &event.data.auth_user {
                        Some(u) => clone_text(&u.name),
                        None => None,
                    },
                    auth_user_email: match &event.data.auth_user {
                        Some(u) => clone_text(&u.email),
                        None => None,
                    },
                    is_anonymous: event.data.is_anonymous,
                };
                self.open_session(session);
                self.update_overview_sessions();
                let message = concat("Session connected: ", sid.as_str());
                self.add_log_with_context(now, LogLevel::Info, message, "session", Some(sid), None);
            },
            SessionEventType::Disconnect => {
                self.close_session(sid.as_str());
                self.update_overview_sessions();
                let message = concat("Session disconnected: ", sid.as_str());
                self.add_log_with_context(now, LogLevel::Info, message, "session", Some(sid), None);
            },
            SessionEventType::Idle => {
                let message = concat("Session idle: ", sid.as_str());
                self.add_log_with_context(now, LogLevel::Debug, message, "session", Some(sid), None);
            },
            SessionEventType::Active => {
                let message = concat("Session active: ", sid.as_str());
                self.add_log_with_context(now, LogLevel::Debug, message, "session", Some(sid), None);
            },
        }
    }

    /// Folds a request event into the state, at the time `now`.
    pub fn handle_request_event(&mut self, event: RequestEvent, now: u64)
        ensures
            final(self)@ == old(self)@.request_event_folded(event@, now),
    {
        let sid = event.base.session_id;
        let rid = event.base.request_id;
        let flow_name = event.data.flow_name;
        match event.event_type {
            RequestEventType::Start => {
                let detail = if event.data.entry_name.is_some() {
                    bracketed_exec(&event.data.entry_name)
                } else {
                    bracketed_exec(&event.data.method)
                };
                let message = concat3("Request started: ", flow_name.as_str(), detail.as_str());
                let request = ApiRequest {
                    id: match &rid {
                        Some(r) => r.clone(),
                        None => String::new(),
                    },
                    flow_name,
                    method: event.data.method,
                    entry_name: event.data.entry_name,
                    started_at: event.base.timestamp,
                    duration_ms: None,
                    is_error: false,
                    error_message: None,
                    session_id: clone_text(&sid),
                };
                self.start_request(request);
                self.add_log_with_context(now, LogLevel::Info, message, "api", sid, rid);
            },
            RequestEventType::Complete => {
                let failed = match event.data.is_error {
                    Some(e) => e,
                    None => false,
                };
                let duration_ms = event.data.duration_ms;
                let change = RequestChange {
                    duration_ms,
                    entry_name: event.data.entry_name,
                    is_error: Some(failed),
                    error_message: None,
                };
                let name = self.close_request(now, &rid, flow_name.as_str(), !failed, change);
                let inbound = body_size_exec(&event.data.request_body);
                let outbound = body_size_exec(&event.data.response_body);
                self.metrics.record_traffic(inbound, outbound);
                let detail = bracketed_exec(&name);
                let took = duration_text_exec(duration_ms);
                let mut message = concat3(
                    "Request complete: ",
                    flow_name.as_str(),
                    detail.as_str(),
                );
                message.append(took.as_str());
                self.add_log_with_context(now, LogLevel::Info, message, "api", sid, rid);
            },
            RequestEventType::Error => {
                let duration_ms = event.data.duration_ms;
                let change = RequestChange {
                    duration_ms,
                    entry_name: event.data.entry_name,
                    is_error: Some(true),
                    error_message: Some(
                        match &event.data.error {
                            Some(e) => Some(e.message.clone()),
                            None => None,
                        },
                    ),
                };
                let name = self.close_request(now, &rid, flow_name.as_str(), false, change);
                let detail = bracketed_exec(&name);
                let mut message = concat3("Request error: ", flow_name.as_str(), detail.as_str());
                message.append(" - ");
                match &event.data.error {
                    Some(e) => message.append(e.message.as_str()),
                    None => message.append("Unknown error"),
                }
                self.add_log_with_context(now, LogLevel::Error, message, "api", sid, rid);
            },
        }
    }

    /// Folds a registry event into the state, at the time `now`.
    pub fn handle_registry_event(&mut self, event: RegistryEvent, now: u64)
        ensures
            final(self)@ == old(self)@.registry_event_folded(event@, now),
            final(self)@.apps_counted(),
    {
        let ghost ev = event@;
        let owner = owner_pair_exec(&event.data.owner);
        let names = texts_or_none_exec(event.data.entry_names);
        let listed = join_strings(&names, ", ");
        assert(texts(names@) =~= names.deep_view());
        match event.event_type.registry() {
            Some(kind) => match event.event_type.change() {
                RegistryChange::Added => {
                    let entries = bare_entries_exec(&names, &owner);
                    self.add_registry_entries(kind, &entries);
                    let message = concat3(kind.title(), " added: ", listed.as_str());
                    self.add_log_at(now, LogLevel::Info, message, "registry");
                },
                RegistryChange::Removed => {
                    self.remove_registry_names(kind, &names);
                    let message = concat3(kind.title(), " removed: ", listed.as_str());
                    self.add_log_at(now, LogLevel::Info, message, "registry");
                },
                RegistryChange::Updated => {
                    let message = concat3(kind.title(), " updated: ", listed.as_str());
                    self.add_log_at(now, LogLevel::Info, message, "registry");
                },
                RegistryChange::Reset => {
                    let entries = match &event.data.entries {
                        Some(infos) => full_entries_exec(infos),
                        None => bare_entries_exec(&names, &owner),
                    };
                    self.reset_registry_entries(kind, &entries);
                    let message = concat(kind.title(), " reset");
                    self.add_log_at(now, LogLevel::Info, message, "registry");
                },
            },
            None => {
                let mut message = concat3("Agent ", event.data.change_kind.as_str(), ": ");
                message.append(listed.as_str());
                self.add_log_at(now, LogLevel::Info, message, "registry");
            },
        }
        self.update_overview_registry();
    }

    /// Folds a server event into the state, at the time `now`.
    pub fn handle_server_event(&mut self, event: ServerEvent, now: u64)
        ensures
            final(self)@ == old(self)@.server_event_folded(event@, now),
    {
        match event.event_type {
            ServerEventType::Starting => {
                self.server.is_ready = false;
                self.add_log_at(now, LogLevel::Info, "Server starting...".to_owned(), "server");
            },
            ServerEventType::Ready => {
                self.server.name = match &event.data.server_info {
                    Some(i) => Some(i.name.clone()),
                    None => None,
                };
                self.server.version = match &event.data.server_info {
                    Some(i) => Some(i.version.clone()),
                    None => None,
                };
                self.mark_server_ready(event.data.address);
                self.add_log_at(now, LogLevel::Info, "Server ready".to_owned(), "server");
            },
            ServerEventType::Error => {
                let message = match &event.data.error {
                    Some(e) => concat("Server error: ", e.as_str()),
                    None => concat("Server error: ", "Unknown"),
                };
                self.server.error = event.data.error;
                self.add_log_at(now, LogLevel::Error, message, "server");
            },
            ServerEventType::Shutdown => {
                self.server.is_ready = false;
                self.server.uptime_ms = event.data.uptime_ms;
                self.add_log_at(now, LogLevel::Info, "Server shutdown".to_owned(), "server");
            },
        }
    }

    /// Folds a config event into the state, at the time `now`.
    pub fn handle_config_event(&mut self, event: ConfigEvent, now: u64)
        ensures
            final(self)@ == old(self)@.config_event_folded(event@, now),
    {
        match event.event_type {
            ConfigEventType::Loaded => {
                self.config.is_loaded = true;
                self.config.config_path = event.data.config_path;
                self.config.loaded_keys = texts_or_none_exec(event.data.loaded_keys);
                self.add_log_at(now, LogLevel::Info, "Config loaded".to_owned(), "config");
            },
            ConfigEventType::Error => {
                self.config.errors = match &event.data.errors {
                    Some(e) => fault_messages_exec(e),
                    None => {
                        let out: Vec<String> = Vec::new();
                        assert(out.deep_view() =~= Seq::<Seq<char>>::empty());
                        out
                    },
                };
                self.add_log_at(now, LogLevel::Error, "Config error".to_owned(), "config");
            },
            ConfigEventType::Missing => {
                self.config.missing_keys = texts_or_none_exec(event.data.missing_keys);
                self.add_log_at(now, LogLevel::Warn, "Config missing keys".to_owned(), "config");
            },
        }
    }

    /// Folds an event of the first schema into the state, at the time `now`.
    pub fn handle_event_at(&mut self, event: DevEvent, now: u64)
        ensures
            final(self)@ == old(self)@.event_folded(event@, now),
            old(self)@.apps_counted() ==> final(self)@.apps_counted(),
    {
        proof {
            crate::state::laws::lemma_event_keeps_app_basis(self@, event@, now);
        }
        self.events_received = self.events_received.saturating_add(1);
        match event {
            DevEvent::Session(e) => self.handle_session_event(e, now),
            DevEvent::Request(e) => self.handle_request_event(e, now),
            DevEvent::Registry(e) => self.handle_registry_event(e, now),
            DevEvent::Server(e) => self.handle_server_event(e, now),
            DevEvent::Config(e) => self.handle_config_event(e, now),
        }
    }

    /// Folds an event of the first schema into the state, at the present time.
    pub fn handle_event(&mut self, event: DevEvent)
        ensures
            exists|now: u64| final(self)@ == old(self)@.event_folded(event@, now),
            old(self)@.apps_counted() ==> final(self)@.apps_counted(),
    {
        let now = crate::clock::now_millis();
        self.handle_event_at(event, now);
    }
}

} // verus!
