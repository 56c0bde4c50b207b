//! The fold: one event in, one state out.

use crate::clock::now_millis;
use crate::event::socket::{ResponseMessage, ResponseMessageView, StateSnapshotView};
use crate::event::types::{UnifiedEvent, UnifiedEventView};
use crate::json::{json_text, write_json, JsonView};
use crate::state::model::{DashboardState, DashboardStateView, LogLevel};
use crate::text::{
    chars_of, concat3, decimal, decimal_string, prefix, prefix_exec, string_from_chars,
};
use vstd::prelude::*;

verus! {

/// How many characters of the data of a response are shown.
pub const RESPONSE_SUMMARY_CHARS: usize = 50;

/// What is shown of the data of a response: of an object the number of its
/// fields, of any other value the beginning of its JSON text.
pub open spec fn data_summary(data: Option<JsonView>) -> Seq<char> {
    match data {
        Some(d) => match d.field_count() {
            Some(n) => decimal(n) + " fields"@,
            None => prefix(json_text(d), RESPONSE_SUMMARY_CHARS as nat),
        },
        None => "no data"@,
    }
}

impl DashboardStateView {
    /// The state after the answer to a command came in at `now`: one line
    /// is logged, and nothing else changes.
    pub open spec fn response_folded(self, response: ResponseMessageView, now: u64) -> DashboardStateView {
        if response.success {
            self.noted(
                now,
                LogLevel::Info,
                "Command "@ + response.command_id + " succeeded: "@ + data_summary(response.data),
                "socket"@,
            )
        } else {
            self.noted(
                now,
                LogLevel::Error,
                "Command "@ + response.command_id + " failed: "@ + match response.error {
                    Some(e) => e.code + ": "@ + e.message,
                    None => "unknown error"@,
                },
                "socket"@,
            )
        }
    }

    /// The state after an event was folded in at `now`.
    pub open spec fn folded(self, event: UnifiedEventView, now: u64) -> DashboardStateView {
        match event {
            UnifiedEventView::Legacy(e) => self.event_folded(e, now),
            UnifiedEventView::LogTransport(e) => self.transport_folded(e, now),
            UnifiedEventView::Error(message) => self.faulted(now, message),
        }
    }
}

/// A snapshot replaces the registries and the scopes whatever the state was:
/// two states that take in the same snapshot agree on them.
pub proof fn lemma_snapshot_replaces(
    a: DashboardStateView,
    b: DashboardStateView,
    snapshot: StateSnapshotView,
    now: u64,
)
    ensures
        a.snapshot_folded(snapshot, now).tools == b.snapshot_folded(snapshot, now).tools,
        a.snapshot_folded(snapshot, now).resources == b.snapshot_folded(snapshot, now).resources,
        a.snapshot_folded(snapshot, now).prompts == b.snapshot_folded(snapshot, now).prompts,
        a.snapshot_folded(snapshot, now).plugins == b.snapshot_folded(snapshot, now).plugins,
        a.snapshot_folded(snapshot, now).adapters == b.snapshot_folded(snapshot, now).adapters,
        a.snapshot_folded(snapshot, now).scopes == b.snapshot_folded(snapshot, now).scopes,
        a.snapshot_folded(snapshot, now).app_scope_map == b.snapshot_folded(
            snapshot,
            now,
        ).app_scope_map,
{
    lemma_scopes_taken_agree(a.cleared_for(snapshot), b.cleared_for(snapshot), snapshot.scopes);
    lemma_sessions_keep_registries(
        a.cleared_for(snapshot).scopes_taken(snapshot.scopes),
        snapshot.sessions,
    );
    lemma_sessions_keep_registries(
        b.cleared_for(snapshot).scopes_taken(snapshot.scopes),
        snapshot.sessions,
    );
}

/// Whether two states hold the same registries, scopes and placing of apps.
pub open spec fn same_registries(a: DashboardStateView, b: DashboardStateView) -> bool {
    &&& a.tools == b.tools
    &&& a.resources == b.resources
    &&& a.prompts == b.prompts
    &&& a.plugins == b.plugins
    &&& a.adapters == b.adapters
    &&& a.scopes == b.scopes
    &&& a.app_scope_map == b.app_scope_map
}

/// States that agree on their registries still do after they took in the
/// same scopes.
pub proof fn lemma_scopes_taken_agree(
    a: DashboardStateView,
    b: DashboardStateView,
    scopes: Seq<crate::event::socket::ScopeStateView>,
)
    requires
        same_registries(a, b),
    ensures
        same_registries(a.scopes_taken(scopes), b.scopes_taken(scopes)),
    decreases scopes.len(),
{
    if scopes.len() > 0 {
        lemma_scopes_taken_agree(a, b, scopes.drop_last());
    }
}

/// Taking in sessions leaves the registries as they are.
pub proof fn lemma_sessions_keep_registries(
    a: DashboardStateView,
    sessions: Seq<crate::event::socket::SessionStateView>,
)
    ensures
        same_registries(a.sessions_taken(sessions), a),
    decreases sessions.len(),
{
    if sessions.len() > 0 {
        lemma_sessions_keep_registries(a, sessions.drop_last());
    }
}

fn data_summary_exec(data: &Option<crate::json::Json>) -> (r: String)
    ensures
        r@ == data_summary(data.deep_view()),
{
    match data {
        Some(d) => match d.field_count() {
            Some(n) => {
                let mut out = decimal_string(n as u64);
                out.append(" fields");
                out
            },
            None => {
                let text = write_json(d);
                let chars = chars_of(text.as_str());
                let cut = prefix_exec(&chars, RESPONSE_SUMMARY_CHARS);
                string_from_chars(&cut)
            },
        },
        None => "no data".to_owned(),
    }
}

impl DashboardState {
    /// Takes in the answer to a command, at the time `now`.
    pub fn handle_command_response_at(&mut self, response: ResponseMessage, now: u64)
        ensures
            final(self)@ == old(self)@.response_folded(response@, now),
            old(self)@.apps_counted() ==> final(self)@.apps_counted(),
    {
        if response.success {
            let summary = data_summary_exec(&response.data);
            let mut message = concat3("Command ", response.command_id.as_str(), " succeeded: ");
            message.append(summary.as_str());
            self.add_log_at(now, LogLevel::Info, message, "socket");
        } else {
            let mut message = concat3("Command ", response.command_id.as_str(), " failed: ");
            match &response.error {
                Some(e) => {
                    message.append(e.code.as_str());
                    message.append(": ");
                    message.append(e.message.as_str());
                    assert(message@ =~= "Command "@ + response@.command_id + " failed: "@ + (e@.code
                        + ": "@ + e@.message));
                },
                None => {
                    message.append("unknown error");
                },
            }
            self.add_log_at(now, LogLevel::Error, message, "socket");
        }
    }

    /// Takes in the answer to a command, at the present time.
    pub fn handle_command_response(&mut self, response: ResponseMessage)
        ensures
            exists|now: u64| final(self)@ == old(self)@.response_folded(response@, now),
    {
        let now = now_millis();
        self.handle_command_response_at(response, now);
    }

    /// Folds an event into the state, at the time `now`.
    pub fn handle_unified_event_at(&mut self, event: UnifiedEvent, now: u64)
        ensures
            final(self)@ == old(self)@.folded(event@, now),
            old(self)@.apps_counted() ==> final(self)@.apps_counted(),
    {
        match event {
            UnifiedEvent::Legacy(e) => self.handle_event_at(e, now),
            UnifiedEvent::LogTransport(e) => self.handle_log_transport_event(&e, now),
            UnifiedEvent::Error(message) => self.add_error_at(now, message),
        }
    }

    /// Folds an event into the state, at the present time.
    pub fn handle_unified_event(&mut self, event: UnifiedEvent)
        ensures
            exists|now: u64| final(self)@ == old(self)@.folded(event@, now),
            old(self)@.apps_counted() ==> final(self)@.apps_counted(),
    {
        let now = now_millis();
        self.handle_unified_event_at(event, now);
    }
}

} // verus!
