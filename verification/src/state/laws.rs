//! What holds of the state after every step: the bounded lists stay within
//! their bounds, the overview counts the apps that own a tool or a resource,
//! each registry holds every name once, and each list that is looked up by
//! an id holds every id once.

use crate::event::reader::LineClassView;
use crate::event::socket::StateSnapshotView;
use crate::event::socket_client::SocketMessageView;
use crate::event::types::{
    ConfigEventView, DevBusLogEventView, DevEventView, RegistryEventView, RequestEventView,
    ServerEventView, SessionEventView, UnifiedEventView,
};
use crate::json::{get_in, text_in, u64_in};
use crate::state::keyed::{index_of, keys_of, lemma_index_of_contains, lemma_push_front, lemma_ring_push};
use crate::state::logs::{session_log_added, session_log_reset};
use crate::state::model::{DashboardStateView, EntryDetailView, LogEntryView, MetricsDataView, SessionInfoView, SessionLog, SessionLogView, ToolCallSummaryView, MAX_LOGS, MAX_RECENT_ERRORS, MAX_SESSION_LOGS, MAX_TOOL_CALLS, METRICS_HISTORY_SIZE};
use crate::state::overview::{app_owner_ids, resource_owners, tool_owners};
use crate::state::requests::RequestChangeView;
use crate::state::trace::{RegistryKind, TraceKind};
use crate::text::text_or;
use vstd::prelude::*;

verus! {

/// Whether every log of a session is within its bound.
pub open spec fn session_logs_bounded(logs: Seq<SessionLogView>) -> bool {
    forall|i: int| 0 <= i < logs.len() ==> (#[trigger] logs[i]).entries.len() <= MAX_SESSION_LOGS
}

impl DashboardStateView {
    /// Whether every bounded list is within its bound.
    pub open spec fn within_bounds(self) -> bool {
        &&& self.logs.len() <= MAX_LOGS
        &&& session_logs_bounded(self.session_logs)
        &&& self.overview.last_tool_calls.len() <= MAX_TOOL_CALLS
        &&& self.recent_errors.len() <= MAX_RECENT_ERRORS
        &&& self.metrics.cpu_history.len() <= METRICS_HISTORY_SIZE
        &&& self.metrics.memory_history.len() <= METRICS_HISTORY_SIZE
    }

    /// Whether two states hold the same bounded lists.
    pub open spec fn same_bounded_lists(self, other: DashboardStateView) -> bool {
        &&& self.logs == other.logs
        &&& self.session_logs == other.session_logs
        &&& self.overview.last_tool_calls == other.overview.last_tool_calls
        &&& self.recent_errors == other.recent_errors
        &&& self.metrics.cpu_history == other.metrics.cpu_history
        &&& self.metrics.memory_history == other.metrics.memory_history
    }

    /// Whether the overview can hold the number of the apps that own a tool
    /// or a resource. It can for every state that the store holds: the
    /// functions that count the apps say so of the state they leave.
    pub open spec fn countable(self) -> bool {
        app_owner_ids(self.tools, self.resources).len() <= usize::MAX
    }
}

/// The initial state is within its bounds and counts its apps, of which
/// there are none.
pub proof fn lemma_initial_state()
    ensures
        DashboardStateView::initial().within_bounds(),
        DashboardStateView::initial().apps_counted(),
        DashboardStateView::initial().ids_unique(),
{
    let s = DashboardStateView::initial();
    assert(keys_of::<crate::state::model::SessionInfo>(s.sessions) =~= Seq::empty());
    assert(keys_of::<SessionLog>(s.session_logs) =~= Seq::empty());
    assert(keys_of::<crate::state::model::ToolUsage>(s.metrics.tool_usage) =~= Seq::empty());
    assert(keys_of::<crate::state::model::AppScope>(s.app_scope_map) =~= Seq::empty());
    assert(tool_owners(s.tools) + resource_owners(s.resources) =~= Seq::empty());
}

pub broadcast proof fn lemma_logged_keeps_bounds(s: DashboardStateView, entry: LogEntryView)
    requires
        s.within_bounds(),
    ensures
        (#[trigger] s.logged(entry)).within_bounds(),
{
    lemma_ring_push(s.logs, entry, MAX_LOGS as nat);
    match entry.session_id {
        Some(sid) => {
            let logs = s.session_logs;
            let after = session_log_added(logs, sid, entry);
            lemma_index_of_contains(keys_of::<SessionLog>(logs), sid);
            match index_of(keys_of::<SessionLog>(logs), sid) {
                Some(i) => {
                    assert(logs[i].entries.len() <= MAX_SESSION_LOGS);
                    lemma_ring_push(logs[i].entries, entry, MAX_SESSION_LOGS as nat);
                    assert forall|k: int| 0 <= k < after.len() implies (#[trigger] after[k]).entries.len()
                        <= MAX_SESSION_LOGS by {
                        if k != i {
                            assert(after[k] == logs[k]);
                        }
                    }
                },
                None => {
                    assert forall|k: int| 0 <= k < after.len() implies (#[trigger] after[k]).entries.len()
                        <= MAX_SESSION_LOGS by {
                        if k < logs.len() {
                            assert(after[k] == logs[k]);
                        }
                    }
                },
            }
        },
        None => {},
    }
}

pub broadcast proof fn lemma_session_opened_keeps_bounds(
    s: DashboardStateView,
    session: SessionInfoView,
)
    requires
        s.within_bounds(),
    ensures
        (#[trigger] s.session_opened(session)).within_bounds(),
{
    let logs = s.session_logs;
    let after = session_log_reset(logs, session.id);
    lemma_index_of_contains(keys_of::<SessionLog>(logs), session.id);
    assert forall|k: int| 0 <= k < after.len() implies (#[trigger] after[k]).entries.len()
        <= MAX_SESSION_LOGS by {
        match index_of(keys_of::<SessionLog>(logs), session.id) {
            Some(i) => {
                if k != i {
                    assert(after[k] == logs[k]);
                }
            },
            None => {
                if k < logs.len() {
                    assert(after[k] == logs[k]);
                }
            },
        }
    }
}

pub broadcast proof fn lemma_tool_called_keeps_bounds(
    s: DashboardStateView,
    now: u64,
    name: Seq<char>,
    success: bool,
    duration_ms: Option<u64>,
)
    requires
        s.within_bounds(),
    ensures
        (#[trigger] s.tool_called(now, name, success, duration_ms)).within_bounds(),
{
    lemma_push_front(
        s.overview.last_tool_calls,
        ToolCallSummaryView { name, timestamp: now, success, duration_ms },
        MAX_TOOL_CALLS as nat,
    );
}

pub broadcast proof fn lemma_request_closed_keeps_bounds(
    s: DashboardStateView,
    now: u64,
    id: Option<Seq<char>>,
    flow_name: Seq<char>,
    success: bool,
    change: RequestChangeView,
)
    requires
        s.within_bounds(),
    ensures
        (#[trigger] s.request_closed(now, id, flow_name, success, change)).within_bounds(),
{
    broadcast use lemma_tool_called_keeps_bounds;

}

pub broadcast proof fn lemma_names_noted_keeps_bounds(
    s: DashboardStateView,
    now: u64,
    kind: RegistryKind,
    verb: Seq<char>,
    names: Seq<Seq<char>>,
)
    requires
        s.within_bounds(),
    ensures
        (#[trigger] s.names_noted(now, kind, verb, names)).within_bounds(),
{
    broadcast use lemma_logged_keeps_bounds;

}

pub broadcast proof fn lemma_entries_keep_bounds(
    s: DashboardStateView,
    kind: RegistryKind,
    entries: Seq<EntryDetailView>,
    names: Seq<Seq<char>>,
)
    requires
        s.within_bounds(),
    ensures
        #![trigger s.entries_added(kind, entries), s.names_removed(kind, names)]
        s.entries_added(kind, entries).within_bounds(),
        s.entries_reset(kind, entries).within_bounds(),
        s.names_removed(kind, names).within_bounds(),
{
}

/// A sample keeps the histories within their bounds, and drops the oldest
/// sample first.
pub proof fn lemma_sample_keeps_bounds(m: MetricsDataView, cpu: u32, memory: u64)
    requires
        m.cpu_history.len() <= METRICS_HISTORY_SIZE,
        m.memory_history.len() <= METRICS_HISTORY_SIZE,
    ensures
        m.with_sample(cpu, memory).cpu_history.len() <= METRICS_HISTORY_SIZE,
        m.with_sample(cpu, memory).memory_history.len() <= METRICS_HISTORY_SIZE,
        m.with_sample(cpu, memory).cpu_history.last() == cpu,
        m.with_sample(cpu, memory).memory_history.last() == memory,
        m.cpu_history.len() == METRICS_HISTORY_SIZE ==> m.with_sample(cpu, memory).cpu_history
            == m.cpu_history.skip(1).push(cpu),
        m.memory_history.len() == METRICS_HISTORY_SIZE ==> m.with_sample(
            cpu,
            memory,
        ).memory_history == m.memory_history.skip(1).push(memory),
{
    lemma_ring_push(m.cpu_history, cpu, METRICS_HISTORY_SIZE as nat);
    lemma_ring_push(m.memory_history, memory, METRICS_HISTORY_SIZE as nat);
}

/// A fault keeps the bounded lists within their bounds.
pub proof fn lemma_fault_keeps_bounds(s: DashboardStateView, now: u64, error: Seq<char>)
    requires
        s.within_bounds(),
    ensures
        s.faulted(now, error).within_bounds(),
{
    broadcast use lemma_logged_keeps_bounds;

    lemma_ring_push(s.recent_errors, error, MAX_RECENT_ERRORS as nat);
}

/// A trace event keeps the bounded lists within their bounds.
pub proof fn lemma_trace_keeps_bounds(s: DashboardStateView, ev: DevBusLogEventView, now: u64)
    requires
        s.within_bounds(),
    ensures
        s.trace_folded(ev, now).within_bounds(),
{
    broadcast use
        lemma_logged_keeps_bounds,
        lemma_session_opened_keeps_bounds,
        lemma_tool_called_keeps_bounds,
        lemma_request_closed_keeps_bounds,
        lemma_names_noted_keeps_bounds,
        lemma_entries_keep_bounds,
    ;

    match TraceKind::named(ev.event_type) {
        TraceKind::RegistryAdded(kind) => {},
        TraceKind::RegistryReset(kind) => {},
        TraceKind::RegistryRemoved(kind) => {},
        TraceKind::RegistryUpdated(kind) => {},
        _ => {},
    }
}

/// An event of the second schema keeps the bounded lists within their bounds.
pub proof fn lemma_transport_keeps_bounds(s: DashboardStateView, ev: DevBusLogEventView, now: u64)
    requires
        s.within_bounds(),
    ensures
        s.transport_folded(ev, now).within_bounds(),
{
    broadcast use lemma_logged_keeps_bounds;

    lemma_trace_keeps_bounds(s.event_counted(), ev, now);
}

pub proof fn lemma_session_event_keeps_bounds(s: DashboardStateView, ev: SessionEventView, now: u64)
    requires
        s.within_bounds(),
    ensures
        s.session_event_folded(ev, now).within_bounds(),
{
    broadcast use lemma_logged_keeps_bounds, lemma_session_opened_keeps_bounds;

}

pub proof fn lemma_request_event_keeps_bounds(s: DashboardStateView, ev: RequestEventView, now: u64)
    requires
        s.within_bounds(),
    ensures
        s.request_event_folded(ev, now).within_bounds(),
{
    broadcast use lemma_logged_keeps_bounds, lemma_request_closed_keeps_bounds;

}

pub proof fn lemma_registry_event_keeps_bounds(
    s: DashboardStateView,
    ev: RegistryEventView,
    now: u64,
)
    requires
        s.within_bounds(),
    ensures
        s.registry_event_folded(ev, now).within_bounds(),
{
    broadcast use lemma_logged_keeps_bounds, lemma_entries_keep_bounds;

}

pub proof fn lemma_server_event_keeps_bounds(s: DashboardStateView, ev: ServerEventView, now: u64)
    requires
        s.within_bounds(),
    ensures
        s.server_event_folded(ev, now).within_bounds(),
{
    broadcast use lemma_logged_keeps_bounds;

}

pub proof fn lemma_config_event_keeps_bounds(s: DashboardStateView, ev: ConfigEventView, now: u64)
    requires
        s.within_bounds(),
    ensures
        s.config_event_folded(ev, now).within_bounds(),
{
    broadcast use lemma_logged_keeps_bounds;

}

/// Every event keeps the bounded lists within their bounds.
pub proof fn lemma_fold_keeps_bounds(s: DashboardStateView, event: UnifiedEventView, now: u64)
    requires
        s.within_bounds(),
    ensures
        s.folded(event, now).within_bounds(),
{
    match event {
        UnifiedEventView::Legacy(e) => {
            let c = s.event_counted();
            match e {
                DevEventView::Session(x) => lemma_session_event_keeps_bounds(c, x, now),
                DevEventView::Request(x) => lemma_request_event_keeps_bounds(c, x, now),
                DevEventView::Registry(x) => lemma_registry_event_keeps_bounds(c, x, now),
                DevEventView::Server(x) => lemma_server_event_keeps_bounds(c, x, now),
                DevEventView::Config(x) => lemma_config_event_keeps_bounds(c, x, now),
            }
        },
        UnifiedEventView::LogTransport(e) => lemma_transport_keeps_bounds(s, e, now),
        UnifiedEventView::Error(m) => lemma_fault_keeps_bounds(s, now, m),
    }
}

/// Taking in scopes leaves the bounded lists as they are.
pub proof fn lemma_scopes_keep_bounded_lists(
    s: DashboardStateView,
    scopes: Seq<crate::event::socket::ScopeStateView>,
)
    ensures
        s.scopes_taken(scopes).same_bounded_lists(s),
    decreases scopes.len(),
{
    if scopes.len() > 0 {
        lemma_scopes_keep_bounded_lists(s, scopes.drop_last());
    }
}

/// Taking in sessions keeps the bounded lists within their bounds.
pub proof fn lemma_sessions_keep_bounds(
    s: DashboardStateView,
    sessions: Seq<crate::event::socket::SessionStateView>,
)
    requires
        s.within_bounds(),
    ensures
        s.sessions_taken(sessions).within_bounds(),
    decreases sessions.len(),
{
    broadcast use lemma_session_opened_keeps_bounds;

    if sessions.len() > 0 {
        lemma_sessions_keep_bounds(s, sessions.drop_last());
    }
}

/// A snapshot keeps the bounded lists within their bounds.
pub proof fn lemma_snapshot_keeps_bounds(s: DashboardStateView, snapshot: StateSnapshotView, now: u64)
    requires
        s.within_bounds(),
    ensures
        s.snapshot_folded(snapshot, now).within_bounds(),
{
    broadcast use lemma_logged_keeps_bounds;

    let cleared = s.cleared_for(snapshot);
    lemma_scopes_keep_bounded_lists(cleared, snapshot.scopes);
    lemma_sessions_keep_bounds(cleared.scopes_taken(snapshot.scopes), snapshot.sessions);
}

/// A line that is no event keeps the bounded lists within their bounds.
pub proof fn lemma_raw_log_keeps_bounds(s: DashboardStateView, now: u64, line: Seq<char>)
    requires
        s.within_bounds(),
    ensures
        s.raw_logged(now, line).within_bounds(),
{
    broadcast use lemma_logged_keeps_bounds;

}

/// Whatever a source delivers keeps the bounded lists within their bounds.
pub proof fn lemma_intake_keeps_bounds(
    s: DashboardStateView,
    class: LineClassView,
    message: SocketMessageView,
    now: u64,
)
    requires
        s.within_bounds(),
    ensures
        s.line_taken(class, now).within_bounds(),
        s.message_taken(message, now).within_bounds(),
{
    broadcast use lemma_logged_keeps_bounds;

    match class {
        LineClassView::Event(e) => lemma_fold_keeps_bounds(s.line_counted(), e, now),
        LineClassView::Log(text) => lemma_raw_log_keeps_bounds(s.line_counted(), now, text),
        _ => {},
    }
    match message {
        SocketMessageView::State(snapshot) => lemma_snapshot_keeps_bounds(s, snapshot, now),
        SocketMessageView::Event(e) => lemma_fold_keeps_bounds(s, e, now),
        SocketMessageView::Response(r) => {},
        _ => {},
    }
}

// ---------------------------------------------------------------------------
// The count of the apps
// ---------------------------------------------------------------------------

/// A state that counted its registries counts its apps.
pub broadcast proof fn lemma_counted_counts(s: DashboardStateView)
    requires
        s.countable(),
    ensures
        (#[trigger] s.registry_counted()).apps_counted(),
{
}

/// Whether two states agree on what the count of the apps rests on.
pub open spec fn same_app_basis(a: DashboardStateView, b: DashboardStateView) -> bool {
    &&& a.tools == b.tools
    &&& a.resources == b.resources
    &&& a.overview.registered_apps == b.overview.registered_apps
}

/// A trace event that changes no registry leaves what the count of the
/// apps rests on as it is.
pub proof fn lemma_trace_keeps_app_basis(s: DashboardStateView, ev: DevBusLogEventView, now: u64)
    ensures
        ({
            let kind = TraceKind::named(ev.event_type);
            !(kind is RegistryAdded || kind is RegistryReset || kind is RegistryRemoved)
        }) ==> same_app_basis(s.trace_folded(ev, now), s),
{
    match TraceKind::named(ev.event_type) {
        TraceKind::RegistryUpdated(kind) => {},
        _ => {},
    }
}

/// An event of the first schema that is of no registry leaves what the
/// count of the apps rests on as it is.
pub proof fn lemma_event_keeps_app_basis(s: DashboardStateView, ev: DevEventView, now: u64)
    ensures
        !(ev is Registry) ==> same_app_basis(s.event_folded(ev, now), s),
{
}

/// A trace event leaves the count of the apps right.
pub proof fn lemma_trace_keeps_app_count(s: DashboardStateView, ev: DevBusLogEventView, now: u64)
    requires
        s.apps_counted(),
        s.trace_folded(ev, now).countable(),
    ensures
        s.trace_folded(ev, now).apps_counted(),
{
    broadcast use lemma_counted_counts;

    match TraceKind::named(ev.event_type) {
        TraceKind::RegistryAdded(kind) => {},
        TraceKind::RegistryReset(kind) => {},
        TraceKind::RegistryRemoved(kind) => {},
        TraceKind::RegistryUpdated(kind) => {},
        _ => {
            assert(same_app_basis(s.trace_folded(ev, now), s));
        },
    }
}

/// An event of the first schema leaves the count of the apps right.
pub proof fn lemma_event_keeps_app_count(s: DashboardStateView, ev: DevEventView, now: u64)
    requires
        s.apps_counted(),
        s.event_folded(ev, now).countable(),
    ensures
        s.event_folded(ev, now).apps_counted(),
{
    broadcast use lemma_counted_counts;

    match ev {
        DevEventView::Registry(e) => {},
        _ => {
            assert(same_app_basis(s.event_folded(ev, now), s));
        },
    }
}

/// Every event leaves the count of the apps right: whenever the tools or
/// the resources change, the apps are counted anew.
pub proof fn lemma_fold_keeps_app_count(s: DashboardStateView, event: UnifiedEventView, now: u64)
    requires
        s.apps_counted(),
        s.folded(event, now).countable(),
    ensures
        s.folded(event, now).apps_counted(),
{
    match event {
        UnifiedEventView::Legacy(e) => lemma_event_keeps_app_count(s, e, now),
        UnifiedEventView::LogTransport(e) => {
            if e.category == "trace"@ {
                lemma_trace_keeps_app_count(s.event_counted(), e, now);
            } else {
                assert(same_app_basis(s.folded(event, now), s));
            }
        },
        UnifiedEventView::Error(m) => {
            assert(same_app_basis(s.folded(event, now), s));
        },
    }
}

/// A snapshot leaves the count of the apps right, whatever the state was.
pub proof fn lemma_snapshot_counts_apps(s: DashboardStateView, snapshot: StateSnapshotView, now: u64)
    requires
        s.snapshot_folded(snapshot, now).countable(),
    ensures
        s.snapshot_folded(snapshot, now).apps_counted(),
{
    broadcast use lemma_counted_counts;

}

/// A trace event of a type that the dashboard does not know is logged for
/// debugging and counted as an event; it is no failure, and it changes no
/// collection.
pub proof fn lemma_unknown_trace_event_is_no_failure(
    s: DashboardStateView,
    ev: DevBusLogEventView,
    now: u64,
)
    requires
        ev.category == "trace"@,
        TraceKind::named(ev.event_type) is Other,
    ensures
        ({
            let after = s.transport_folded(ev, now);
            &&& after.parse_failures == s.parse_failures
            &&& after.recent_errors == s.recent_errors
            &&& after.same_entries(s)
            &&& after.sessions == s.sessions
            &&& after.requests == s.requests
            &&& after.metrics == s.metrics
            &&& after.overview == s.overview
            &&& after.logs.last().level == crate::state::model::LogLevel::Debug
            &&& after.logs.last().message == "Trace event: "@ + ev.event_type
        }),
{
}

// ---------------------------------------------------------------------------
// The registries
// ---------------------------------------------------------------------------

impl DashboardStateView {
    /// The names in the registry of the kind, in order.
    pub open spec fn registry_names(self, kind: RegistryKind) -> Seq<Seq<char>> {
        match kind {
            RegistryKind::Tool => keys_of::<crate::state::model::ToolInfo>(self.tools),
            RegistryKind::Resource => keys_of::<crate::state::model::ResourceInfo>(self.resources),
            RegistryKind::Prompt => keys_of::<crate::state::model::PromptInfo>(self.prompts),
            RegistryKind::Plugin => keys_of::<crate::state::model::PluginInfo>(self.plugins),
            RegistryKind::Adapter => keys_of::<crate::state::model::AdapterInfo>(self.adapters),
        }
    }

    /// Whether two states hold the same five registries.
    pub open spec fn same_entries(self, other: DashboardStateView) -> bool {
        &&& self.tools == other.tools
        &&& self.resources == other.resources
        &&& self.prompts == other.prompts
        &&& self.plugins == other.plugins
        &&& self.adapters == other.adapters
    }
}

/// Adding entries whose names are all in the registry leaves every registry
/// as it is.
pub proof fn lemma_adding_present_names_changes_no_registry(
    s: DashboardStateView,
    kind: RegistryKind,
    entries: Seq<EntryDetailView>,
)
    requires
        forall|i: int| 0 <= i < entries.len() ==> s.registry_names(kind).contains(entries[i].name),
    ensures
        s.entries_added(kind, entries).same_entries(s),
{
    match kind {
        RegistryKind::Tool => crate::state::registry::lemma_add_present_is_noop::<
            crate::state::model::ToolInfo,
        >(s.tools, entries),
        RegistryKind::Resource => crate::state::registry::lemma_add_present_is_noop::<
            crate::state::model::ResourceInfo,
        >(s.resources, entries),
        RegistryKind::Prompt => crate::state::registry::lemma_add_present_is_noop::<
            crate::state::model::PromptInfo,
        >(s.prompts, entries),
        RegistryKind::Plugin => crate::state::registry::lemma_add_present_is_noop::<
            crate::state::model::PluginInfo,
        >(s.plugins, entries),
        RegistryKind::Adapter => crate::state::registry::lemma_add_present_is_noop::<
            crate::state::model::AdapterInfo,
        >(s.adapters, entries),
    }
}

/// An event that adds names which are all in the registry leaves every
/// registry as it is, in either schema.
pub proof fn lemma_added_event_is_idempotent(
    s: DashboardStateView,
    trace: DevBusLogEventView,
    legacy: RegistryEventView,
    kind: RegistryKind,
    now: u64,
)
    requires
        TraceKind::named(trace.event_type) == TraceKind::RegistryAdded(kind),
        forall|i: int|
            0 <= i < crate::state::registry::detailed_entries(trace.data).len()
                ==> s.registry_names(kind).contains(
                crate::state::registry::detailed_entries(trace.data)[i].name,
            ),
        legacy.event_type.spec_registry() == Some(kind),
        legacy.event_type.spec_change() == crate::state::legacy::RegistryChange::Added,
        forall|i: int|
            0 <= i < crate::state::legacy::texts_or_none(legacy.data.entry_names).len()
                ==> s.registry_names(kind).contains(
                crate::state::legacy::texts_or_none(legacy.data.entry_names)[i],
            ),
    ensures
        s.trace_folded(trace, now).same_entries(s),
        s.registry_event_folded(legacy, now).same_entries(s),
{
    lemma_adding_present_names_changes_no_registry(
        s,
        kind,
        crate::state::registry::detailed_entries(trace.data),
    );
    let names = crate::state::legacy::texts_or_none(legacy.data.entry_names);
    let bare = crate::state::registry::bare_entries(
        names,
        crate::state::legacy::owner_pair(legacy.data.owner),
    );
    assert forall|i: int| 0 <= i < bare.len() implies s.registry_names(kind).contains(
        bare[i].name,
    ) by {
        assert(bare[i].name == names[i]);
    }
    lemma_adding_present_names_changes_no_registry(s, kind, bare);
}

/// After a reset the registry of the kind holds exactly the names of the
/// entries, each once.
pub proof fn lemma_reset_holds_the_names(
    s: DashboardStateView,
    kind: RegistryKind,
    entries: Seq<EntryDetailView>,
)
    ensures
        s.entries_reset(kind, entries).registry_names(kind).to_set()
            == crate::state::registry::names_of(entries).to_set(),
        s.entries_reset(kind, entries).registry_names(kind).no_duplicates(),
{
    match kind {
        RegistryKind::Tool => crate::state::registry::lemma_reset_names::<
            crate::state::model::ToolInfo,
        >(entries),
        RegistryKind::Resource => crate::state::registry::lemma_reset_names::<
            crate::state::model::ResourceInfo,
        >(entries),
        RegistryKind::Prompt => crate::state::registry::lemma_reset_names::<
            crate::state::model::PromptInfo,
        >(entries),
        RegistryKind::Plugin => crate::state::registry::lemma_reset_names::<
            crate::state::model::PluginInfo,
        >(entries),
        RegistryKind::Adapter => crate::state::registry::lemma_reset_names::<
            crate::state::model::AdapterInfo,
        >(entries),
    }
}

/// After a reset event the registry of the kind holds exactly the names
/// that the event carries, in either schema.
pub proof fn lemma_reset_event_holds_its_names(
    s: DashboardStateView,
    trace: DevBusLogEventView,
    legacy: RegistryEventView,
    kind: RegistryKind,
    now: u64,
)
    requires
        TraceKind::named(trace.event_type) == TraceKind::RegistryReset(kind),
        legacy.event_type.spec_registry() == Some(kind),
        legacy.event_type.spec_change() == crate::state::legacy::RegistryChange::Reset,
    ensures
        s.trace_folded(trace, now).registry_names(kind).to_set()
            == crate::state::registry::names_of(
            crate::state::registry::detailed_entries(trace.data),
        ).to_set(),
        s.registry_event_folded(legacy, now).registry_names(kind).to_set()
            == crate::state::registry::names_of(crate::state::legacy::reset_payload(legacy)).to_set(),
{
    lemma_reset_holds_the_names(s, kind, crate::state::registry::detailed_entries(trace.data));
    lemma_reset_holds_the_names(s, kind, crate::state::legacy::reset_payload(legacy));
}

// ---------------------------------------------------------------------------
// Each name once
// ---------------------------------------------------------------------------

impl DashboardStateView {
    /// Whether each of the five registries holds every name once.
    pub open spec fn names_unique(self) -> bool {
        &&& self.registry_names(RegistryKind::Tool).no_duplicates()
        &&& self.registry_names(RegistryKind::Resource).no_duplicates()
        &&& self.registry_names(RegistryKind::Prompt).no_duplicates()
        &&& self.registry_names(RegistryKind::Plugin).no_duplicates()
        &&& self.registry_names(RegistryKind::Adapter).no_duplicates()
    }
}

/// Adding entries, a reset and removing names keep every name once; after a
/// reset the registry of the kind holds every name once whatever it held.
pub proof fn lemma_registry_steps_keep_names(
    s: DashboardStateView,
    kind: RegistryKind,
    entries: Seq<EntryDetailView>,
    names: Seq<Seq<char>>,
)
    ensures
        s.entries_reset(kind, entries).registry_names(kind).no_duplicates(),
        s.names_unique() ==> s.entries_added(kind, entries).names_unique(),
        s.names_unique() ==> s.entries_reset(kind, entries).names_unique(),
        s.names_unique() ==> s.names_removed(kind, names).names_unique(),
{
    let key = Seq::<char>::empty();
    match kind {
        RegistryKind::Tool => {
            crate::state::registry::lemma_added_names::<crate::state::model::ToolInfo>(
                s.tools,
                entries,
            );
            crate::state::registry::lemma_reset_names::<crate::state::model::ToolInfo>(entries);
            crate::state::keyed::lemma_without_keys::<crate::state::model::ToolInfo>(
                s.tools,
                names,
                key,
            );
        },
        RegistryKind::Resource => {
            crate::state::registry::lemma_added_names::<crate::state::model::ResourceInfo>(
                s.resources,
                entries,
            );
            crate::state::registry::lemma_reset_names::<crate::state::model::ResourceInfo>(
                entries,
            );
            crate::state::keyed::lemma_without_keys::<crate::state::model::ResourceInfo>(
                s.resources,
                names,
                key,
            );
        },
        RegistryKind::Prompt => {
            crate::state::registry::lemma_added_names::<crate::state::model::PromptInfo>(
                s.prompts,
                entries,
            );
            crate::state::registry::lemma_reset_names::<crate::state::model::PromptInfo>(entries);
            crate::state::keyed::lemma_without_keys::<crate::state::model::PromptInfo>(
                s.prompts,
                names,
                key,
            );
        },
        RegistryKind::Plugin => {
            crate::state::registry::lemma_added_names::<crate::state::model::PluginInfo>(
                s.plugins,
                entries,
            );
            crate::state::registry::lemma_reset_names::<crate::state::model::PluginInfo>(entries);
            crate::state::keyed::lemma_without_keys::<crate::state::model::PluginInfo>(
                s.plugins,
                names,
                key,
            );
        },
        RegistryKind::Adapter => {
            crate::state::registry::lemma_added_names::<crate::state::model::AdapterInfo>(
                s.adapters,
                entries,
            );
            crate::state::registry::lemma_reset_names::<crate::state::model::AdapterInfo>(
                entries,
            );
            crate::state::keyed::lemma_without_keys::<crate::state::model::AdapterInfo>(
                s.adapters,
                names,
                key,
            );
        },
    }
}

/// A trace event keeps every name once.
pub proof fn lemma_trace_keeps_names(s: DashboardStateView, ev: DevBusLogEventView, now: u64)
    requires
        s.names_unique(),
    ensures
        s.trace_folded(ev, now).names_unique(),
{
    let after = s.trace_folded(ev, now);
    let entries = crate::state::registry::detailed_entries(ev.data);
    let names = crate::state::registry::entry_names(ev.data);
    match TraceKind::named(ev.event_type) {
        TraceKind::RegistryAdded(kind) => {
            lemma_registry_steps_keep_names(s, kind, entries, names);
            assert(after.same_entries(s.entries_added(kind, entries)));
        },
        TraceKind::RegistryReset(kind) => {
            lemma_registry_steps_keep_names(s, kind, entries, names);
            assert(after.same_entries(s.entries_reset(kind, entries)));
        },
        TraceKind::RegistryRemoved(kind) => {
            lemma_registry_steps_keep_names(s, kind, entries, names);
            assert(after.same_entries(s.names_removed(kind, names)));
        },
        TraceKind::RegistryUpdated(kind) => {
            assert(after.same_entries(s));
        },
        _ => {
            assert(after.same_entries(s));
        },
    }
}

/// An event of the first schema keeps every name once.
pub proof fn lemma_event_keeps_names(s: DashboardStateView, ev: DevEventView, now: u64)
    requires
        s.names_unique(),
    ensures
        s.event_folded(ev, now).names_unique(),
{
    let after = s.event_folded(ev, now);
    match ev {
        DevEventView::Registry(e) => {
            let names = crate::state::legacy::texts_or_none(e.data.entry_names);
            let bare = crate::state::registry::bare_entries(
                names,
                crate::state::legacy::owner_pair(e.data.owner),
            );
            let payload = crate::state::legacy::reset_payload(e);
            match e.event_type.spec_registry() {
                Some(kind) => match e.event_type.spec_change() {
                    crate::state::legacy::RegistryChange::Added => {
                        lemma_registry_steps_keep_names(s, kind, bare, names);
                        assert(after.same_entries(s.entries_added(kind, bare)));
                    },
                    crate::state::legacy::RegistryChange::Removed => {
                        lemma_registry_steps_keep_names(s, kind, bare, names);
                        assert(after.same_entries(s.names_removed(kind, names)));
                    },
                    crate::state::legacy::RegistryChange::Updated => {
                        assert(after.same_entries(s));
                    },
                    crate::state::legacy::RegistryChange::Reset => {
                        lemma_registry_steps_keep_names(s, kind, payload, names);
                        assert(after.same_entries(s.entries_reset(kind, payload)));
                    },
                },
                None => {
                    assert(after.same_entries(s));
                },
            }
        },
        _ => {
            assert(after.same_entries(s));
        },
    }
}

/// An event of the second schema keeps every name once.
pub proof fn lemma_transport_keeps_names(s: DashboardStateView, ev: DevBusLogEventView, now: u64)
    requires
        s.names_unique(),
    ensures
        s.transport_folded(ev, now).names_unique(),
{
    let counted = s.event_counted();
    assert(counted.same_entries(s));
    if ev.category == "trace"@ {
        lemma_trace_keeps_names(counted, ev, now);
    } else if ev.category == "log"@ {
        assert(counted.log_folded(ev, now).same_entries(s));
    }
}

/// Every event keeps every name once. A snapshot puts the entries of its
/// scopes one after the other as they come, and two scopes may hold an
/// entry of one name.
pub proof fn lemma_fold_keeps_names(s: DashboardStateView, event: UnifiedEventView, now: u64)
    requires
        s.names_unique(),
    ensures
        s.folded(event, now).names_unique(),
{
    match event {
        UnifiedEventView::Legacy(e) => lemma_event_keeps_names(s, e, now),
        UnifiedEventView::LogTransport(e) => lemma_transport_keeps_names(s, e, now),
        UnifiedEventView::Error(m) => {
            assert(s.faulted(now, m).same_entries(s));
        },
    }
}

// ---------------------------------------------------------------------------
// Each id once
// ---------------------------------------------------------------------------

impl DashboardStateView {
    /// Whether each of the lists that are looked up by an id holds every id
    /// once: the sessions, the logs of the sessions, the usage counts of the
    /// tools, the placing of the apps, and the set of expanded nodes.
    pub open spec fn ids_unique(self) -> bool {
        &&& keys_of::<crate::state::model::SessionInfo>(self.sessions).no_duplicates()
        &&& keys_of::<SessionLog>(self.session_logs).no_duplicates()
        &&& keys_of::<crate::state::model::ToolUsage>(self.metrics.tool_usage).no_duplicates()
        &&& keys_of::<crate::state::model::AppScope>(self.app_scope_map).no_duplicates()
        &&& self.graph_expanded.no_duplicates()
    }

    /// Whether two states hold the same lists that are looked up by an id.
    pub open spec fn same_keyed_lists(self, other: DashboardStateView) -> bool {
        &&& self.sessions == other.sessions
        &&& self.session_logs == other.session_logs
        &&& self.metrics.tool_usage == other.metrics.tool_usage
        &&& self.app_scope_map == other.app_scope_map
        &&& self.graph_expanded == other.graph_expanded
    }
}

/// A record put in the place of one of its key leaves the keys as they are.
pub proof fn lemma_update_same_key<T: crate::state::keyed::Keyed>(
    items: Seq<T::V>,
    i: int,
    v: T::V,
)
    requires
        0 <= i < items.len(),
        T::key_of(v) == T::key_of(items[i]),
    ensures
        keys_of::<T>(items.update(i, v)) == keys_of::<T>(items),
{
    assert(keys_of::<T>(items.update(i, v)) =~= keys_of::<T>(items));
}

/// A record of a key that the list does not hold may join it.
pub proof fn lemma_push_new_key<T: crate::state::keyed::Keyed>(items: Seq<T::V>, v: T::V)
    requires
        keys_of::<T>(items).no_duplicates(),
        index_of(keys_of::<T>(items), T::key_of(v)) is None,
    ensures
        keys_of::<T>(items.push(v)).no_duplicates(),
{
    crate::state::keyed::lemma_index_from(keys_of::<T>(items), T::key_of(v), 0);
    assert(keys_of::<T>(items.push(v)) =~= keys_of::<T>(items).push(T::key_of(v)));
}

/// Items that occur once each still do after some of them were taken out.
pub proof fn lemma_filter_no_duplicates<A>(items: Seq<A>, keep: spec_fn(A) -> bool)
    requires
        items.no_duplicates(),
    ensures
        items.filter(keep).no_duplicates(),
    decreases items.len(),
{
    if items.len() == 0 {
        assert(items.filter(keep) =~= Seq::<A>::empty());
    } else {
        let rest = items.drop_last();
        let last = items.last();
        assert(items =~= rest.push(last));
        assert forall|i: int, j: int| 0 <= i < rest.len() && 0 <= j < rest.len() && i
            != j implies rest[i] != rest[j] by {
            assert(rest[i] == items[i] && rest[j] == items[j]);
        }
        lemma_filter_no_duplicates(rest, keep);
        rest.lemma_filter_push(last, keep);
        let kept = rest.filter(keep);
        if keep(last) {
            if kept.contains(last) {
                rest.lemma_filter_contains_rev(keep, last);
                let m = choose|m: int| 0 <= m < rest.len() && rest[m] == last;
                assert(items[m] == items[items.len() - 1]);
            }
            assert forall|i: int, j: int| 0 <= i < kept.push(last).len() && 0 <= j < kept.push(
                last,
            ).len() && i != j implies kept.push(last)[i] != kept.push(last)[j] by {
                if i < kept.len() {
                    assert(kept.contains(kept[i]));
                }
                if j < kept.len() {
                    assert(kept.contains(kept[j]));
                }
            }
        }
    }
}

/// The set of expanded nodes holds every key once after a node was
/// expanded, collapsed or toggled.
pub broadcast proof fn lemma_expanded_keys_stay_unique(keys: Seq<Seq<char>>, key: Seq<char>)
    requires
        keys.no_duplicates(),
    ensures
        #![trigger crate::state::graph::with_key(keys, key)]
        #![trigger crate::state::graph::without_key(keys, key)]
        #![trigger crate::state::graph::toggled(keys, key)]
        crate::state::graph::with_key(keys, key).no_duplicates(),
        crate::state::graph::without_key(keys, key).no_duplicates(),
        crate::state::graph::toggled(keys, key).no_duplicates(),
{
    lemma_filter_no_duplicates(keys, crate::state::graph::other_than(key));
    if !keys.contains(key) {
        assert forall|i: int, j: int| 0 <= i < keys.push(key).len() && 0 <= j < keys.push(
            key,
        ).len() && i != j implies keys.push(key)[i] != keys.push(key)[j] by {
            if i < keys.len() {
                assert(keys.contains(keys[i]));
            }
            if j < keys.len() {
                assert(keys.contains(keys[j]));
            }
        }
    }
}

pub broadcast proof fn lemma_session_logs_stay_unique(
    logs: Seq<SessionLogView>,
    sid: Seq<char>,
    entry: LogEntryView,
)
    requires
        keys_of::<SessionLog>(logs).no_duplicates(),
    ensures
        #![trigger session_log_added(logs, sid, entry)]
        keys_of::<SessionLog>(session_log_added(logs, sid, entry)).no_duplicates(),
        keys_of::<SessionLog>(session_log_reset(logs, sid)).no_duplicates(),
{
    crate::state::keyed::lemma_index_from(keys_of::<SessionLog>(logs), sid, 0);
    match index_of(keys_of::<SessionLog>(logs), sid) {
        Some(i) => {
            lemma_update_same_key::<SessionLog>(logs, i, session_log_added(logs, sid, entry)[i]);
            lemma_update_same_key::<SessionLog>(logs, i, session_log_reset(logs, sid)[i]);
        },
        None => {
            lemma_push_new_key::<SessionLog>(
                logs,
                SessionLogView { session_id: sid, entries: seq![entry] },
            );
            lemma_push_new_key::<SessionLog>(
                logs,
                SessionLogView { session_id: sid, entries: Seq::empty() },
            );
        },
    }
}

pub broadcast proof fn lemma_usage_stays_unique(m: MetricsDataView, success: bool, duration_ms: Option<u64>, tool_name: Option<Seq<char>>)
    requires
        keys_of::<crate::state::model::ToolUsage>(m.tool_usage).no_duplicates(),
    ensures
        keys_of::<crate::state::model::ToolUsage>(
            (#[trigger] m.with_request(success, duration_ms, tool_name)).tool_usage,
        ).no_duplicates(),
{
    match tool_name {
        Some(name) => {
            let usage = m.tool_usage;
            let after = crate::state::overview::usage_counted(usage, name);
            crate::state::keyed::lemma_index_from(
                keys_of::<crate::state::model::ToolUsage>(usage),
                name,
                0,
            );
            match index_of(keys_of::<crate::state::model::ToolUsage>(usage), name) {
                Some(i) => {
                    lemma_update_same_key::<crate::state::model::ToolUsage>(usage, i, after[i]);
                },
                None => {
                    lemma_push_new_key::<crate::state::model::ToolUsage>(
                        usage,
                        crate::state::model::ToolUsageView { name, count: 1 },
                    );
                },
            }
        },
        None => {},
    }
}

/// The placing of the apps holds every app once after the owners of the
/// entries of a scope were placed.
pub broadcast proof fn lemma_placing_stays_unique(
    map: Seq<crate::state::model::AppScopeView>,
    details: Seq<EntryDetailView>,
    scope_id: Seq<char>,
)
    requires
        keys_of::<crate::state::model::AppScope>(map).no_duplicates(),
    ensures
        keys_of::<crate::state::model::AppScope>(
            #[trigger] crate::state::snapshot::apps_placed(map, details, scope_id),
        ).no_duplicates(),
    decreases details.len(),
{
    if details.len() > 0 {
        lemma_placing_stays_unique(map, details.drop_last(), scope_id);
        let before = crate::state::snapshot::apps_placed(map, details.drop_last(), scope_id);
        match crate::state::snapshot::placed_app(details.last(), scope_id) {
            Some(app_id) => {
                let keys = keys_of::<crate::state::model::AppScope>(before);
                crate::state::keyed::lemma_index_from(keys, app_id, 0);
                match index_of(keys, app_id) {
                    Some(i) => {
                        lemma_update_same_key::<crate::state::model::AppScope>(
                            before,
                            i,
                            crate::state::snapshot::app_placed(before, app_id, scope_id)[i],
                        );
                    },
                    None => {
                        lemma_push_new_key::<crate::state::model::AppScope>(
                            before,
                            crate::state::model::AppScopeView { app_id, scope_id },
                        );
                    },
                }
            },
            None => {},
        }
    }
}

pub broadcast proof fn lemma_logged_keeps_ids(s: DashboardStateView, entry: LogEntryView)
    requires
        s.ids_unique(),
    ensures
        (#[trigger] s.logged(entry)).ids_unique(),
{
    broadcast use lemma_session_logs_stay_unique;

}

pub broadcast proof fn lemma_session_opened_keeps_ids(s: DashboardStateView, session: SessionInfoView)
    requires
        s.ids_unique(),
    ensures
        (#[trigger] s.session_opened(session)).ids_unique(),
{
    crate::state::sessions::lemma_session_ids_stay_unique(s.sessions, session, session.id);
    lemma_session_logs_stay_unique(s.session_logs, session.id, arbitrary());
}

pub broadcast proof fn lemma_session_left_keeps_ids(s: DashboardStateView, sid: Seq<char>)
    requires
        s.ids_unique(),
    ensures
        (#[trigger] s.session_left(sid)).ids_unique(),
{
    crate::state::sessions::lemma_close_keeps_sessions(s.sessions, sid);
}

pub broadcast proof fn lemma_request_closed_keeps_ids(
    s: DashboardStateView,
    now: u64,
    id: Option<Seq<char>>,
    flow_name: Seq<char>,
    success: bool,
    change: RequestChangeView,
)
    requires
        s.ids_unique(),
    ensures
        (#[trigger] s.request_closed(now, id, flow_name, success, change)).ids_unique(),
{
    broadcast use lemma_usage_stays_unique;

}

pub broadcast proof fn lemma_names_noted_keeps_ids(
    s: DashboardStateView,
    now: u64,
    kind: RegistryKind,
    verb: Seq<char>,
    names: Seq<Seq<char>>,
)
    requires
        s.ids_unique(),
    ensures
        (#[trigger] s.names_noted(now, kind, verb, names)).ids_unique(),
{
    broadcast use lemma_logged_keeps_ids;

}

pub broadcast proof fn lemma_entries_keep_ids(
    s: DashboardStateView,
    kind: RegistryKind,
    entries: Seq<EntryDetailView>,
    names: Seq<Seq<char>>,
)
    requires
        s.ids_unique(),
    ensures
        #![trigger s.entries_added(kind, entries), s.names_removed(kind, names)]
        s.entries_added(kind, entries).ids_unique(),
        s.entries_reset(kind, entries).ids_unique(),
        s.names_removed(kind, names).ids_unique(),
{
}

pub broadcast proof fn lemma_tool_called_keeps_ids(
    s: DashboardStateView,
    now: u64,
    name: Seq<char>,
    success: bool,
    duration_ms: Option<u64>,
)
    requires
        s.ids_unique(),
    ensures
        (#[trigger] s.tool_called(now, name, success, duration_ms)).ids_unique(),
{
}

/// Counting anew for the overview leaves the lists that are looked up by an
/// id as they are.
pub broadcast proof fn lemma_counting_keeps_ids(s: DashboardStateView)
    requires
        s.ids_unique(),
    ensures
        #![trigger s.sessions_counted()]
        #![trigger s.registry_counted()]
        s.sessions_counted().ids_unique(),
        s.registry_counted().ids_unique(),
{
}

/// A trace event of a session keeps every id once.
proof fn lemma_session_trace_keeps_ids(s: DashboardStateView, ev: DevBusLogEventView, now: u64)
    requires
        s.ids_unique(),
        TraceKind::named(ev.event_type) is SessionConnect || TraceKind::named(
            ev.event_type,
        ) is SessionDisconnect,
    ensures
        s.trace_folded(ev, now).ids_unique(),
{
    match crate::state::trace::known_id(ev.session_id) {
        Some(sid) => {
            let session = crate::state::trace::connected_session(sid, ev);
            lemma_session_opened_keeps_ids(s, session);
            lemma_session_left_keeps_ids(s, sid);
            let opened = s.session_opened(session).sessions_counted();
            let left = s.session_left(sid).sessions_counted();
            assert(opened.ids_unique());
            assert(left.ids_unique());
            let after = s.trace_folded(ev, now);
            if TraceKind::named(ev.event_type) is SessionConnect {
                let entry = choose|entry: LogEntryView| after == opened.logged(entry);
                lemma_logged_keeps_ids(opened, entry);
            } else {
                let entry = choose|entry: LogEntryView| after == left.logged(entry);
                lemma_logged_keeps_ids(left, entry);
            }
        },
        None => {},
    }
}

/// A trace event of a request or of a tool keeps every id once.
proof fn lemma_request_trace_keeps_ids(s: DashboardStateView, ev: DevBusLogEventView, now: u64)
    requires
        s.ids_unique(),
        ({
            let kind = TraceKind::named(ev.event_type);
            kind is RequestStart || kind is RequestComplete || kind is RequestError
                || kind is ToolExecute || kind is ToolComplete
        }),
    ensures
        s.trace_folded(ev, now).ids_unique(),
{
    let data = ev.data;
    let rid = crate::state::trace::known_id(ev.request_id);
    let after = s.trace_folded(ev, now);
    match TraceKind::named(ev.event_type) {
        TraceKind::RequestStart => {
            let before = s.request_started(crate::state::trace::started_request(ev));
            assert(before.same_keyed_lists(s));
            let entry = choose|entry: LogEntryView| after == before.logged(entry);
            lemma_logged_keeps_ids(before, entry);
        },
        TraceKind::RequestComplete => {
            let flow = text_or(text_in(data, "flowName"@), "unknown"@);
            let change = RequestChangeView {
                duration_ms: u64_in(data, "durationMs"@),
                entry_name: text_in(data, "entryName"@),
                is_error: None,
                error_message: None,
            };
            let before = s.request_closed(now, rid, flow, true, change);
            lemma_request_closed_keeps_ids(s, now, rid, flow, true, change);
            let entry = choose|entry: LogEntryView| after == before.logged(entry);
            lemma_logged_keeps_ids(before, entry);
        },
        TraceKind::RequestError => {
            let flow = text_or(text_in(data, "flowName"@), "unknown"@);
            let message = text_or(text_in(get_in(data, "error"@), "message"@), "Unknown error"@);
            let change = RequestChangeView {
                duration_ms: u64_in(data, "durationMs"@),
                entry_name: text_in(data, "entryName"@),
                is_error: Some(true),
                error_message: Some(Some(message)),
            };
            let before = s.request_closed(now, rid, flow, false, change);
            lemma_request_closed_keeps_ids(s, now, rid, flow, false, change);
            let entry = choose|entry: LogEntryView| after == before.logged(entry);
            lemma_logged_keeps_ids(before, entry);
        },
        TraceKind::ToolExecute => {
            let entry = choose|entry: LogEntryView| after == s.logged(entry);
            lemma_logged_keeps_ids(s, entry);
        },
        TraceKind::ToolComplete => {
            let name = text_or(text_in(data, "entryName"@), "unknown"@);
            let duration = u64_in(data, "durationMs"@);
            lemma_usage_stays_unique(s.metrics, true, duration, Some(name));
            let counted = DashboardStateView {
                metrics: s.metrics.with_request(true, duration, Some(name)),
                ..s
            };
            assert(counted.ids_unique());
            let before = counted.tool_called(now, name, true, duration);
            assert(before.same_keyed_lists(counted));
            let entry = choose|entry: LogEntryView| after == before.logged(entry);
            lemma_logged_keeps_ids(before, entry);
        },
        _ => {},
    }
}

/// A trace event of a registry keeps every id once.
proof fn lemma_registry_trace_keeps_ids(s: DashboardStateView, ev: DevBusLogEventView, now: u64)
    requires
        s.ids_unique(),
        ({
            let kind = TraceKind::named(ev.event_type);
            kind is RegistryAdded || kind is RegistryReset || kind is RegistryRemoved
                || kind is RegistryUpdated
        }),
    ensures
        s.trace_folded(ev, now).ids_unique(),
{
    broadcast use lemma_names_noted_keeps_ids, lemma_entries_keep_ids, lemma_counting_keeps_ids;

}

/// A trace event keeps every id once.
pub proof fn lemma_trace_keeps_ids(s: DashboardStateView, ev: DevBusLogEventView, now: u64)
    requires
        s.ids_unique(),
    ensures
        s.trace_folded(ev, now).ids_unique(),
{
    match TraceKind::named(ev.event_type) {
        TraceKind::SessionConnect | TraceKind::SessionDisconnect => {
            lemma_session_trace_keeps_ids(s, ev, now);
        },
        TraceKind::RequestStart
        | TraceKind::RequestComplete
        | TraceKind::RequestError
        | TraceKind::ToolExecute
        | TraceKind::ToolComplete => {
            lemma_request_trace_keeps_ids(s, ev, now);
        },
        TraceKind::RegistryAdded(_)
        | TraceKind::RegistryReset(_)
        | TraceKind::RegistryRemoved(_)
        | TraceKind::RegistryUpdated(_) => {
            lemma_registry_trace_keeps_ids(s, ev, now);
        },
        _ => {
            broadcast use lemma_logged_keeps_ids;

        },
    }
}

/// An event of the second schema keeps every id once.
pub proof fn lemma_transport_keeps_ids(s: DashboardStateView, ev: DevBusLogEventView, now: u64)
    requires
        s.ids_unique(),
    ensures
        s.transport_folded(ev, now).ids_unique(),
{
    broadcast use lemma_logged_keeps_ids;

    lemma_trace_keeps_ids(s.event_counted(), ev, now);
}

pub proof fn lemma_session_event_keeps_ids(s: DashboardStateView, ev: SessionEventView, now: u64)
    requires
        s.ids_unique(),
    ensures
        s.session_event_folded(ev, now).ids_unique(),
{
    broadcast use
        lemma_logged_keeps_ids,
        lemma_session_opened_keeps_ids,
        lemma_session_left_keeps_ids,
    ;

}

pub proof fn lemma_request_event_keeps_ids(s: DashboardStateView, ev: RequestEventView, now: u64)
    requires
        s.ids_unique(),
    ensures
        s.request_event_folded(ev, now).ids_unique(),
{
    broadcast use
        lemma_logged_keeps_ids,
        lemma_request_closed_keeps_ids,
        lemma_usage_stays_unique,
    ;

}

pub proof fn lemma_registry_event_keeps_ids(s: DashboardStateView, ev: RegistryEventView, now: u64)
    requires
        s.ids_unique(),
    ensures
        s.registry_event_folded(ev, now).ids_unique(),
{
    broadcast use lemma_logged_keeps_ids, lemma_entries_keep_ids;

}

pub proof fn lemma_server_event_keeps_ids(s: DashboardStateView, ev: ServerEventView, now: u64)
    requires
        s.ids_unique(),
    ensures
        s.server_event_folded(ev, now).ids_unique(),
{
    broadcast use lemma_logged_keeps_ids;

}

pub proof fn lemma_config_event_keeps_ids(s: DashboardStateView, ev: ConfigEventView, now: u64)
    requires
        s.ids_unique(),
    ensures
        s.config_event_folded(ev, now).ids_unique(),
{
    broadcast use lemma_logged_keeps_ids;

}

/// Every event keeps every id once.
pub proof fn lemma_fold_keeps_ids(s: DashboardStateView, event: UnifiedEventView, now: u64)
    requires
        s.ids_unique(),
    ensures
        s.folded(event, now).ids_unique(),
{
    broadcast use lemma_logged_keeps_ids;

    match event {
        UnifiedEventView::Legacy(e) => {
            let c = s.event_counted();
            match e {
                DevEventView::Session(x) => lemma_session_event_keeps_ids(c, x, now),
                DevEventView::Request(x) => lemma_request_event_keeps_ids(c, x, now),
                DevEventView::Registry(x) => lemma_registry_event_keeps_ids(c, x, now),
                DevEventView::Server(x) => lemma_server_event_keeps_ids(c, x, now),
                DevEventView::Config(x) => lemma_config_event_keeps_ids(c, x, now),
            }
        },
        UnifiedEventView::LogTransport(e) => lemma_transport_keeps_ids(s, e, now),
        UnifiedEventView::Error(m) => {},
    }
}

/// Taking in scopes keeps every id once, and leaves the sessions, their
/// logs, the usage counts and the expanded nodes as they are.
pub proof fn lemma_scopes_keep_ids(
    s: DashboardStateView,
    scopes: Seq<crate::event::socket::ScopeStateView>,
)
    requires
        s.ids_unique(),
    ensures
        s.scopes_taken(scopes).ids_unique(),
    decreases scopes.len(),
{
    broadcast use lemma_placing_stays_unique;

    if scopes.len() > 0 {
        lemma_scopes_keep_ids(s, scopes.drop_last());
    }
}

/// Taking in sessions keeps every id once.
pub proof fn lemma_sessions_keep_ids(
    s: DashboardStateView,
    sessions: Seq<crate::event::socket::SessionStateView>,
)
    requires
        s.ids_unique(),
    ensures
        s.sessions_taken(sessions).ids_unique(),
    decreases sessions.len(),
{
    broadcast use lemma_session_opened_keeps_ids;

    if sessions.len() > 0 {
        lemma_sessions_keep_ids(s, sessions.drop_last());
    }
}

/// A snapshot keeps every id once.
pub proof fn lemma_snapshot_keeps_ids(s: DashboardStateView, snapshot: StateSnapshotView, now: u64)
    requires
        s.ids_unique(),
    ensures
        s.snapshot_folded(snapshot, now).ids_unique(),
{
    broadcast use lemma_logged_keeps_ids;

    let cleared = s.cleared_for(snapshot);
    assert(keys_of::<crate::state::model::AppScope>(cleared.app_scope_map) =~= Seq::<
        Seq<char>,
    >::empty());
    lemma_scopes_keep_ids(cleared, snapshot.scopes);
    lemma_sessions_keep_ids(cleared.scopes_taken(snapshot.scopes), snapshot.sessions);
}

/// Whatever a source delivers, and the answer to a command, keep every id once.
pub proof fn lemma_intake_keeps_ids(
    s: DashboardStateView,
    class: LineClassView,
    message: SocketMessageView,
    now: u64,
)
    requires
        s.ids_unique(),
    ensures
        s.line_taken(class, now).ids_unique(),
        s.message_taken(message, now).ids_unique(),
{
    broadcast use lemma_logged_keeps_ids;

    match class {
        LineClassView::Event(e) => lemma_fold_keeps_ids(s.line_counted(), e, now),
        LineClassView::Log(text) => {},
        _ => {},
    }
    match message {
        SocketMessageView::State(snapshot) => lemma_snapshot_keeps_ids(s, snapshot, now),
        SocketMessageView::Event(e) => lemma_fold_keeps_ids(s, e, now),
        _ => {},
    }
}

/// Expanding, collapsing and toggling a node, and every key and every use
/// of the mouse, keep every id once.
pub proof fn lemma_toggles_keep_ids(
    s: DashboardStateView,
    key: Seq<char>,
    pressed: crate::input::KeyEvent,
    mouse: crate::mouse::MouseEvent,
    width: u16,
    height: u16,
)
    requires
        s.ids_unique(),
    ensures
        (DashboardStateView {
            graph_expanded: crate::state::graph::toggled(s.graph_expanded, key),
            ..s
        }).ids_unique(),
        (DashboardStateView {
            graph_expanded: crate::state::graph::with_key(s.graph_expanded, key),
            ..s
        }).ids_unique(),
        (DashboardStateView {
            graph_expanded: crate::state::graph::without_key(s.graph_expanded, key),
            ..s
        }).ids_unique(),
        s.app_key_pressed(pressed).ids_unique(),
        s.mouse_used(mouse, width, height).ids_unique(),
{
    broadcast use lemma_expanded_keys_stay_unique;

    lemma_key_keeps_ids(s, pressed);
    assert(s.mouse_used(mouse, width, height).same_keyed_lists(s));
}

/// Every key keeps every id once.
pub proof fn lemma_key_keeps_ids(s: DashboardStateView, pressed: crate::input::KeyEvent)
    requires
        s.ids_unique(),
    ensures
        s.key_pressed(pressed).ids_unique(),
        s.app_key_pressed(pressed).ids_unique(),
{
    broadcast use lemma_expanded_keys_stay_unique;

    lemma_focus_key_keeps_ids(s, pressed.code);
    match pressed.code {
        crate::input::KeyCode::Char(c) => {
            match crate::input::tab_of_digit(c) {
                Some(index) => {
                    assert(s.key_pressed(pressed).same_keyed_lists(s));
                },
                None => {},
            }
        },
        _ => {},
    }
}

/// Every key keeps every id once, whatever has the focus.
pub proof fn lemma_focus_key_keeps_ids(s: DashboardStateView, code: crate::input::KeyCode)
    requires
        s.ids_unique(),
    ensures
        s.focus_key(code).ids_unique(),
{
    broadcast use lemma_expanded_keys_stay_unique;

    match s.focus {
        crate::state::tabs::FocusArea::List => {
            match s.active_tab {
                crate::state::tabs::Tab::Graph => {
                    lemma_graph_key_keeps_ids(s, code);
                },
                crate::state::tabs::Tab::Logs => {
                    assert(s.logs_key(code).same_keyed_lists(s));
                },
                _ => {
                    assert(s.plain_list_key(code).same_keyed_lists(s));
                },
            }
        },
        crate::state::tabs::FocusArea::TabBar => {
            assert(s.tab_bar_key(code).same_keyed_lists(s));
        },
        crate::state::tabs::FocusArea::Overview => {
            assert(s.overview_key(code).same_keyed_lists(s));
        },
        crate::state::tabs::FocusArea::Detail => {
            assert(s.detail_key(code).same_keyed_lists(s));
        },
        crate::state::tabs::FocusArea::SubTab => {
            assert(s.sub_tab_key(code).same_keyed_lists(s));
        },
        crate::state::tabs::FocusArea::FilterInput => {
            assert(s.filter_key(code).same_keyed_lists(s));
        },
    }
}

/// Every key in the graph keeps every id once.
pub proof fn lemma_graph_key_keeps_ids(s: DashboardStateView, code: crate::input::KeyCode)
    requires
        s.ids_unique(),
    ensures
        s.graph_key(code).ids_unique(),
{
    broadcast use lemma_expanded_keys_stay_unique;

}

} // verus!
