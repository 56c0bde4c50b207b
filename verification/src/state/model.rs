//! The records that the dashboard keeps, each with its mathematical value.

use crate::state::tabs::{ActivitySubTab, FocusArea, QuitDialogSelection, QuitMode, Tab};
use vstd::prelude::*;

verus! {

/// How many samples each metrics history keeps.
pub const METRICS_HISTORY_SIZE: usize = 60;

/// How many tool calls the overview keeps.
pub const MAX_TOOL_CALLS: usize = 5;

/// How many log entries are kept over all sessions.
pub const MAX_LOGS: usize = 1000;

/// How many log entries are kept of one session.
pub const MAX_SESSION_LOGS: usize = 500;

/// How many recent errors are kept.
pub const MAX_RECENT_ERRORS: usize = 5;

/// How severe a log entry is.
#[derive(Debug, Clone, Copy, PartialEq, Eq, Structural)]
pub enum LogLevel {
    Info,
    Warn,
    Error,
    Debug,
}

/// One tool call, as the overview shows it.
#[derive(Debug)]
pub struct ToolCallSummary {
    pub name: String,
    pub timestamp: u64,
    pub success: bool,
    pub duration_ms: Option<u64>,
}

/// The mathematical value of a [`ToolCallSummary`].
pub struct ToolCallSummaryView {
    pub name: Seq<char>,
    pub timestamp: u64,
    pub success: bool,
    pub duration_ms: Option<u64>,
}

impl View for ToolCallSummary {
    type V = ToolCallSummaryView;

    open spec fn view(&self) -> ToolCallSummaryView {
        ToolCallSummaryView {
            name: self.name@,
            timestamp: self.timestamp,
            success: self.success,
            duration_ms: self.duration_ms,
        }
    }
}

impl DeepView for ToolCallSummary {
    type V = ToolCallSummaryView;

    open spec fn deep_view(&self) -> ToolCallSummaryView {
        self@
    }
}

impl Clone for ToolCallSummary {
    fn clone(&self) -> (r: Self)
        ensures
            r@ == self@,
    {
        ToolCallSummary {
            name: self.name.clone(),
            timestamp: self.timestamp,
            success: self.success,
            duration_ms: self.duration_ms,
        }
    }
}

/// The summary that is always on screen. It is computed anew from the collections
/// whenever they change.
#[derive(Debug, Clone)]
pub struct OverviewData {
    /// How many different apps own a tool or a resource.
    pub registered_apps: usize,
    pub scope_count: usize,
    pub server_address: Option<String>,
    pub server_port: Option<u16>,
    pub active_sessions: usize,
    pub total_sessions: usize,
    /// The latest tool calls, newest first.
    pub last_tool_calls: Vec<ToolCallSummary>,
}

/// The mathematical value of a [`OverviewData`].
pub struct OverviewDataView {
    pub registered_apps: usize,
    pub scope_count: usize,
    pub server_address: Option<Seq<char>>,
    pub server_port: Option<u16>,
    pub active_sessions: usize,
    pub total_sessions: usize,
    pub last_tool_calls: Seq<ToolCallSummaryView>,
}

impl View for OverviewData {
    type V = OverviewDataView;

    open spec fn view(&self) -> OverviewDataView {
        OverviewDataView {
            registered_apps: self.registered_apps,
            scope_count: self.scope_count,
            server_address: self.server_address.deep_view(),
            server_port: self.server_port,
            active_sessions: self.active_sessions,
            total_sessions: self.total_sessions,
            last_tool_calls: self.last_tool_calls.deep_view(),
        }
    }
}

impl DeepView for OverviewData {
    type V = OverviewDataView;

    open spec fn deep_view(&self) -> OverviewDataView {
        self@
    }
}

impl OverviewDataView {
    /// The value that [`OverviewData::default`] gives.
    pub open spec fn initial() -> OverviewDataView {
        OverviewDataView {
            registered_apps: 0,
            scope_count: 0,
            server_address: None,
            server_port: None,
            active_sessions: 0,
            total_sessions: 0,
            last_tool_calls: Seq::empty(),
        }
    }
}

impl Default for OverviewData {
    fn default() -> (r: Self)
        ensures
            r@ == OverviewDataView::initial(),
    {
        let r = OverviewData {
            registered_apps: 0,
            scope_count: 0,
            server_address: None,
            server_port: None,
            active_sessions: 0,
            total_sessions: 0,
            last_tool_calls: Vec::new(),
        };
        assert(r.last_tool_calls.deep_view() =~= Seq::empty());
        r
    }
}

/// One log entry.
#[derive(Debug)]
pub struct LogEntry {
    pub timestamp: u64,
    pub level: LogLevel,
    pub message: String,
    pub source: String,
    pub session_id: Option<String>,
    pub request_id: Option<String>,
}

/// The mathematical value of a [`LogEntry`].
pub struct LogEntryView {
    pub timestamp: u64,
    pub level: LogLevel,
    pub message: Seq<char>,
    pub source: Seq<char>,
    pub session_id: Option<Seq<char>>,
    pub request_id: Option<Seq<char>>,
}

impl View for LogEntry {
    type V = LogEntryView;

    open spec fn view(&self) -> LogEntryView {
        LogEntryView {
            timestamp: self.timestamp,
            level: self.level,
            message: self.message@,
            source: self.source@,
            session_id: self.session_id.deep_view(),
            request_id: self.request_id.deep_view(),
        }
    }
}

impl DeepView for LogEntry {
    type V = LogEntryView;

    open spec fn deep_view(&self) -> LogEntryView {
        self@
    }
}

impl Clone for LogEntry {
    fn clone(&self) -> (r: Self)
        ensures
            r@ == self@,
    {
        LogEntry {
            timestamp: self.timestamp,
            level: self.level,
            message: self.message.clone(),
            source: self.source.clone(),
            session_id: self.session_id.clone(),
            request_id: self.request_id.clone(),
        }
    }
}

/// Which log entries to show.
#[derive(Debug)]
pub struct LogFilter {
    pub app_id: Option<String>,
    pub tool_id: Option<String>,
    pub session_id: Option<String>,
    pub level: Option<LogLevel>,
}

/// The mathematical value of a [`LogFilter`].
pub struct LogFilterView {
    pub app_id: Option<Seq<char>>,
    pub tool_id: Option<Seq<char>>,
    pub session_id: Option<Seq<char>>,
    pub level: Option<LogLevel>,
}

impl View for LogFilter {
    type V = LogFilterView;

    open spec fn view(&self) -> LogFilterView {
        LogFilterView {
            app_id: self.app_id.deep_view(),
            tool_id: self.tool_id.deep_view(),
            session_id: self.session_id.deep_view(),
            level: self.level,
        }
    }
}

impl DeepView for LogFilter {
    type V = LogFilterView;

    open spec fn deep_view(&self) -> LogFilterView {
        self@
    }
}

impl Clone for LogFilter {
    fn clone(&self) -> (r: Self)
        ensures
            r@ == self@,
    {
        LogFilter {
            app_id: self.app_id.clone(),
            tool_id: self.tool_id.clone(),
            session_id: self.session_id.clone(),
            level: self.level,
        }
    }
}

impl LogFilterView {
    /// The value that [`LogFilter::default`] gives.
    pub open spec fn initial() -> LogFilterView {
        LogFilterView {
            app_id: None,
            tool_id: None,
            session_id: None,
            level: None,
        }
    }
}

impl Default for LogFilter {
    fn default() -> (r: Self)
        ensures
            r@ == LogFilterView::initial(),
    {
        let r = LogFilter {
            app_id: None,
            tool_id: None,
            session_id: None,
            level: None,
        };
        r
    }
}

/// A session. A session that disconnects stays, marked as not active.
#[derive(Debug)]
pub struct SessionInfo {
    pub id: String,
    pub transport_type: Option<String>,
    pub client_name: Option<String>,
    pub client_version: Option<String>,
    pub user_agent: Option<String>,
    pub connected_at: u64,
    pub is_active: bool,
    /// One of public, transparent, orchestrated.
    pub auth_mode: Option<String>,
    pub auth_user_name: Option<String>,
    pub auth_user_email: Option<String>,
    pub is_anonymous: Option<bool>,
}

/// The mathematical value of a [`SessionInfo`].
pub struct SessionInfoView {
    pub id: Seq<char>,
    pub transport_type: Option<Seq<char>>,
    pub client_name: Option<Seq<char>>,
    pub client_version: Option<Seq<char>>,
    pub user_agent: Option<Seq<char>>,
    pub connected_at: u64,
    pub is_active: bool,
    pub auth_mode: Option<Seq<char>>,
    pub auth_user_name: Option<Seq<char>>,
    pub auth_user_email: Option<Seq<char>>,
    pub is_anonymous: Option<bool>,
}

impl View for SessionInfo {
    type V = SessionInfoView;

    open spec fn view(&self) -> SessionInfoView {
        SessionInfoView {
            id: self.id@,
            transport_type: self.transport_type.deep_view(),
            client_name: self.client_name.deep_view(),
            client_version: self.client_version.deep_view(),
            user_agent: self.user_agent.deep_view(),
            connected_at: self.connected_at,
            is_active: self.is_active,
            auth_mode: self.auth_mode.deep_view(),
            auth_user_name: self.auth_user_name.deep_view(),
            auth_user_email: self.auth_user_email.deep_view(),
            is_anonymous: self.is_anonymous,
        }
    }
}

impl DeepView for SessionInfo {
    type V = SessionInfoView;

    open spec fn deep_view(&self) -> SessionInfoView {
        self@
    }
}

impl Clone for SessionInfo {
    fn clone(&self) -> (r: Self)
        ensures
            r@ == self@,
    {
        SessionInfo {
            id: self.id.clone(),
            transport_type: self.transport_type.clone(),
            client_name: self.client_name.clone(),
            client_version: self.client_version.clone(),
            user_agent: self.user_agent.clone(),
            connected_at: self.connected_at,
            is_active: self.is_active,
            auth_mode: self.auth_mode.clone(),
            auth_user_name: self.auth_user_name.clone(),
            auth_user_email: self.auth_user_email.clone(),
            is_anonymous: self.is_anonymous,
        }
    }
}

/// A registered tool.
#[derive(Debug)]
pub struct ToolInfo {
    pub name: String,
    pub description: Option<String>,
    pub input_schema: Option<String>,
    pub output_schema: Option<String>,
    pub owner_kind: Option<String>,
    pub owner_id: Option<String>,
}

/// The mathematical value of a [`ToolInfo`].
pub struct ToolInfoView {
    pub name: Seq<char>,
    pub description: Option<Seq<char>>,
    pub input_schema: Option<Seq<char>>,
    pub output_schema: Option<Seq<char>>,
    pub owner_kind: Option<Seq<char>>,
    pub owner_id: Option<Seq<char>>,
}

impl View for ToolInfo {
    type V = ToolInfoView;

    open spec fn view(&self) -> ToolInfoView {
        ToolInfoView {
            name: self.name@,
            description: self.description.deep_view(),
            input_schema: self.input_schema.deep_view(),
            output_schema: self.output_schema.deep_view(),
            owner_kind: self.owner_kind.deep_view(),
            owner_id: self.owner_id.deep_view(),
        }
    }
}

impl DeepView for ToolInfo {
    type V = ToolInfoView;

    open spec fn deep_view(&self) -> ToolInfoView {
        self@
    }
}

impl Clone for ToolInfo {
    fn clone(&self) -> (r: Self)
        ensures
            r@ == self@,
    {
        ToolInfo {
            name: self.name.clone(),
            description: self.description.clone(),
            input_schema: self.input_schema.clone(),
            output_schema: self.output_schema.clone(),
            owner_kind: self.owner_kind.clone(),
            owner_id: self.owner_id.clone(),
        }
    }
}

/// A registered resource.
#[derive(Debug)]
pub struct ResourceInfo {
    pub name: String,
    pub uri: Option<String>,
    pub owner_kind: Option<String>,
    pub owner_id: Option<String>,
}

/// The mathematical value of a [`ResourceInfo`].
pub struct ResourceInfoView {
    pub name: Seq<char>,
    pub uri: Option<Seq<char>>,
    pub owner_kind: Option<Seq<char>>,
    pub owner_id: Option<Seq<char>>,
}

impl View for ResourceInfo {
    type V = ResourceInfoView;

    open spec fn view(&self) -> ResourceInfoView {
        ResourceInfoView {
            name: self.name@,
            uri: self.uri.deep_view(),
            owner_kind: self.owner_kind.deep_view(),
            owner_id: self.owner_id.deep_view(),
        }
    }
}

impl DeepView for ResourceInfo {
    type V = ResourceInfoView;

    open spec fn deep_view(&self) -> ResourceInfoView {
        self@
    }
}

impl Clone for ResourceInfo {
    fn clone(&self) -> (r: Self)
        ensures
            r@ == self@,
    {
        ResourceInfo {
            name: self.name.clone(),
            uri: self.uri.clone(),
            owner_kind: self.owner_kind.clone(),
            owner_id: self.owner_id.clone(),
        }
    }
}

/// A registered prompt.
#[derive(Debug)]
pub struct PromptInfo {
    pub name: String,
    pub owner_kind: Option<String>,
    pub owner_id: Option<String>,
}

/// The mathematical value of a [`PromptInfo`].
pub struct PromptInfoView {
    pub name: Seq<char>,
    pub owner_kind: Option<Seq<char>>,
    pub owner_id: Option<Seq<char>>,
}

impl View for PromptInfo {
    type V = PromptInfoView;

    open spec fn view(&self) -> PromptInfoView {
        PromptInfoView {
            name: self.name@,
            owner_kind: self.owner_kind.deep_view(),
            owner_id: self.owner_id.deep_view(),
        }
    }
}

impl DeepView for PromptInfo {
    type V = PromptInfoView;

    open spec fn deep_view(&self) -> PromptInfoView {
        self@
    }
}

impl Clone for PromptInfo {
    fn clone(&self) -> (r: Self)
        ensures
            r@ == self@,
    {
        PromptInfo {
            name: self.name.clone(),
            owner_kind: self.owner_kind.clone(),
            owner_id: self.owner_id.clone(),
        }
    }
}

/// A registered plugin.
#[derive(Debug)]
pub struct PluginInfo {
    pub name: String,
    pub version: Option<String>,
    pub owner_id: Option<String>,
}

/// The mathematical value of a [`PluginInfo`].
pub struct PluginInfoView {
    pub name: Seq<char>,
    pub version: Option<Seq<char>>,
    pub owner_id: Option<Seq<char>>,
}

impl View for PluginInfo {
    type V = PluginInfoView;

    open spec fn view(&self) -> PluginInfoView {
        PluginInfoView {
            name: self.name@,
            version: self.version.deep_view(),
            owner_id: self.owner_id.deep_view(),
        }
    }
}

impl DeepView for PluginInfo {
    type V = PluginInfoView;

    open spec fn deep_view(&self) -> PluginInfoView {
        self@
    }
}

impl Clone for PluginInfo {
    fn clone(&self) -> (r: Self)
        ensures
            r@ == self@,
    {
        PluginInfo {
            name: self.name.clone(),
            version: self.version.clone(),
            owner_id: self.owner_id.clone(),
        }
    }
}

/// A registered adapter.
#[derive(Debug)]
pub struct AdapterInfo {
    pub name: String,
    pub description: Option<String>,
    pub owner_id: Option<String>,
}

/// The mathematical value of a [`AdapterInfo`].
pub struct AdapterInfoView {
    pub name: Seq<char>,
    pub description: Option<Seq<char>>,
    pub owner_id: Option<Seq<char>>,
}

impl View for AdapterInfo {
    type V = AdapterInfoView;

    open spec fn view(&self) -> AdapterInfoView {
        AdapterInfoView {
            name: self.name@,
            description: self.description.deep_view(),
            owner_id: self.owner_id.deep_view(),
        }
    }
}

impl DeepView for AdapterInfo {
    type V = AdapterInfoView;

    open spec fn deep_view(&self) -> AdapterInfoView {
        self@
    }
}

impl Clone for AdapterInfo {
    fn clone(&self) -> (r: Self)
        ensures
            r@ == self@,
    {
        AdapterInfo {
            name: self.name.clone(),
            description: self.description.clone(),
            owner_id: self.owner_id.clone(),
        }
    }
}

/// An app, as a snapshot declares it.
#[derive(Debug)]
pub struct AppInfo {
    pub id: String,
    pub name: String,
    pub tool_count: usize,
    pub resource_count: usize,
    pub prompt_count: usize,
    pub plugin_count: usize,
}

/// The mathematical value of a [`AppInfo`].
pub struct AppInfoView {
    pub id: Seq<char>,
    pub name: Seq<char>,
    pub tool_count: usize,
    pub resource_count: usize,
    pub prompt_count: usize,
    pub plugin_count: usize,
}

impl View for AppInfo {
    type V = AppInfoView;

    open spec fn view(&self) -> AppInfoView {
        AppInfoView {
            id: self.id@,
            name: self.name@,
            tool_count: self.tool_count,
            resource_count: self.resource_count,
            prompt_count: self.prompt_count,
            plugin_count: self.plugin_count,
        }
    }
}

impl DeepView for AppInfo {
    type V = AppInfoView;

    open spec fn deep_view(&self) -> AppInfoView {
        self@
    }
}

impl Clone for AppInfo {
    fn clone(&self) -> (r: Self)
        ensures
            r@ == self@,
    {
        AppInfo {
            id: self.id.clone(),
            name: self.name.clone(),
            tool_count: self.tool_count,
            resource_count: self.resource_count,
            prompt_count: self.prompt_count,
            plugin_count: self.plugin_count,
        }
    }
}

/// A scope: a container of apps.
#[derive(Debug)]
pub struct ScopeInfo {
    pub id: String,
    pub name: String,
}

/// The mathematical value of a [`ScopeInfo`].
pub struct ScopeInfoView {
    pub id: Seq<char>,
    pub name: Seq<char>,
}

impl View for ScopeInfo {
    type V = ScopeInfoView;

    open spec fn view(&self) -> ScopeInfoView {
        ScopeInfoView {
            id: self.id@,
            name: self.name@,
        }
    }
}

impl DeepView for ScopeInfo {
    type V = ScopeInfoView;

    open spec fn deep_view(&self) -> ScopeInfoView {
        self@
    }
}

impl Clone for ScopeInfo {
    fn clone(&self) -> (r: Self)
        ensures
            r@ == self@,
    {
        ScopeInfo {
            id: self.id.clone(),
            name: self.name.clone(),
        }
    }
}

/// What a registry event tells of one entry. Each registry keeps the fields that it has a use for.
#[derive(Debug)]
pub struct EntryDetail {
    pub name: String,
    pub description: Option<String>,
    pub input_schema: Option<String>,
    pub uri: Option<String>,
    pub version: Option<String>,
    pub owner_kind: Option<String>,
    pub owner_id: Option<String>,
}

/// The mathematical value of a [`EntryDetail`].
pub struct EntryDetailView {
    pub name: Seq<char>,
    pub description: Option<Seq<char>>,
    pub input_schema: Option<Seq<char>>,
    pub uri: Option<Seq<char>>,
    pub version: Option<Seq<char>>,
    pub owner_kind: Option<Seq<char>>,
    pub owner_id: Option<Seq<char>>,
}

impl View for EntryDetail {
    type V = EntryDetailView;

    open spec fn view(&self) -> EntryDetailView {
        EntryDetailView {
            name: self.name@,
            description: self.description.deep_view(),
            input_schema: self.input_schema.deep_view(),
            uri: self.uri.deep_view(),
            version: self.version.deep_view(),
            owner_kind: self.owner_kind.deep_view(),
            owner_id: self.owner_id.deep_view(),
        }
    }
}

impl DeepView for EntryDetail {
    type V = EntryDetailView;

    open spec fn deep_view(&self) -> EntryDetailView {
        self@
    }
}

impl Clone for EntryDetail {
    fn clone(&self) -> (r: Self)
        ensures
            r@ == self@,
    {
        EntryDetail {
            name: self.name.clone(),
            description: self.description.clone(),
            input_schema: self.input_schema.clone(),
            uri: self.uri.clone(),
            version: self.version.clone(),
            owner_kind: self.owner_kind.clone(),
            owner_id: self.owner_id.clone(),
        }
    }
}

/// How often one tool was called.
#[derive(Debug)]
pub struct ToolUsage {
    pub name: String,
    pub count: u64,
}

/// The mathematical value of a [`ToolUsage`].
pub struct ToolUsageView {
    pub name: Seq<char>,
    pub count: u64,
}

impl View for ToolUsage {
    type V = ToolUsageView;

    open spec fn view(&self) -> ToolUsageView {
        ToolUsageView {
            name: self.name@,
            count: self.count,
        }
    }
}

impl DeepView for ToolUsage {
    type V = ToolUsageView;

    open spec fn deep_view(&self) -> ToolUsageView {
        self@
    }
}

impl Clone for ToolUsage {
    fn clone(&self) -> (r: Self)
        ensures
            r@ == self@,
    {
        ToolUsage {
            name: self.name.clone(),
            count: self.count,
        }
    }
}

/// Running totals and the two sample histories. Every total stops at the
/// largest number that it can hold.
#[derive(Debug, Clone)]
pub struct MetricsData {
    pub total_requests: u64,
    pub successful_requests: u64,
    pub failed_requests: u64,
    pub total_duration_ms: u64,
    /// The call count of each tool, in the order of its first call.
    pub tool_usage: Vec<ToolUsage>,
    pub inbound_bytes: u64,
    pub outbound_bytes: u64,
    pub total_tokens: u64,
    pub prompt_tokens: u64,
    pub completion_tokens: u64,
    /// The processor load in hundredths of a percent.
    pub current_cpu: u32,
    /// The memory in use, in bytes.
    pub current_memory: u64,
    /// The latest processor samples, oldest first.
    pub cpu_history: Vec<u32>,
    /// The latest memory samples, oldest first.
    pub memory_history: Vec<u64>,
}

/// The mathematical value of a [`MetricsData`].
pub struct MetricsDataView {
    pub total_requests: u64,
    pub successful_requests: u64,
    pub failed_requests: u64,
    pub total_duration_ms: u64,
    pub tool_usage: Seq<ToolUsageView>,
    pub inbound_bytes: u64,
    pub outbound_bytes: u64,
    pub total_tokens: u64,
    pub prompt_tokens: u64,
    pub completion_tokens: u64,
    pub current_cpu: u32,
    pub current_memory: u64,
    pub cpu_history: Seq<u32>,
    pub memory_history: Seq<u64>,
}

impl View for MetricsData {
    type V = MetricsDataView;

    open spec fn view(&self) -> MetricsDataView {
        MetricsDataView {
            total_requests: self.total_requests,
            successful_requests: self.successful_requests,
            failed_requests: self.failed_requests,
            total_duration_ms: self.total_duration_ms,
            tool_usage: self.tool_usage.deep_view(),
            inbound_bytes: self.inbound_bytes,
            outbound_bytes: self.outbound_bytes,
            total_tokens: self.total_tokens,
            prompt_tokens: self.prompt_tokens,
            completion_tokens: self.completion_tokens,
            current_cpu: self.current_cpu,
            current_memory: self.current_memory,
            cpu_history: self.cpu_history@,
            memory_history: self.memory_history@,
        }
    }
}

impl DeepView for MetricsData {
    type V = MetricsDataView;

    open spec fn deep_view(&self) -> MetricsDataView {
        self@
    }
}

impl MetricsDataView {
    /// The value that [`MetricsData::default`] gives.
    pub open spec fn initial() -> MetricsDataView {
        MetricsDataView {
            total_requests: 0,
            successful_requests: 0,
            failed_requests: 0,
            total_duration_ms: 0,
            tool_usage: Seq::empty(),
            inbound_bytes: 0,
            outbound_bytes: 0,
            total_tokens: 0,
            prompt_tokens: 0,
            completion_tokens: 0,
            current_cpu: 0,
            current_memory: 0,
            cpu_history: Seq::empty(),
            memory_history: Seq::empty(),
        }
    }
}

impl Default for MetricsData {
    fn default() -> (r: Self)
        ensures
            r@ == MetricsDataView::initial(),
    {
        let r = MetricsData {
            total_requests: 0,
            successful_requests: 0,
            failed_requests: 0,
            total_duration_ms: 0,
            tool_usage: Vec::new(),
            inbound_bytes: 0,
            outbound_bytes: 0,
            total_tokens: 0,
            prompt_tokens: 0,
            completion_tokens: 0,
            current_cpu: 0,
            current_memory: 0,
            cpu_history: Vec::new(),
            memory_history: Vec::new(),
        };
        assert(r.tool_usage.deep_view() =~= Seq::empty());
        r
    }
}

/// A request, from its start on.
#[derive(Debug)]
pub struct ApiRequest {
    pub id: String,
    pub flow_name: String,
    pub method: Option<String>,
    pub entry_name: Option<String>,
    pub started_at: u64,
    pub duration_ms: Option<u64>,
    pub is_error: bool,
    pub error_message: Option<String>,
    pub session_id: Option<String>,
}

/// The mathematical value of a [`ApiRequest`].
pub struct ApiRequestView {
    pub id: Seq<char>,
    pub flow_name: Seq<char>,
    pub method: Option<Seq<char>>,
    pub entry_name: Option<Seq<char>>,
    pub started_at: u64,
    pub duration_ms: Option<u64>,
    pub is_error: bool,
    pub error_message: Option<Seq<char>>,
    pub session_id: Option<Seq<char>>,
}

impl View for ApiRequest {
    type V = ApiRequestView;

    open spec fn view(&self) -> ApiRequestView {
        ApiRequestView {
            id: self.id@,
            flow_name: self.flow_name@,
            method: self.method.deep_view(),
            entry_name: self.entry_name.deep_view(),
            started_at: self.started_at,
            duration_ms: self.duration_ms,
            is_error: self.is_error,
            error_message: self.error_message.deep_view(),
            session_id: self.session_id.deep_view(),
        }
    }
}

impl DeepView for ApiRequest {
    type V = ApiRequestView;

    open spec fn deep_view(&self) -> ApiRequestView {
        self@
    }
}

impl Clone for ApiRequest {
    fn clone(&self) -> (r: Self)
        ensures
            r@ == self@,
    {
        ApiRequest {
            id: self.id.clone(),
            flow_name: self.flow_name.clone(),
            method: self.method.clone(),
            entry_name: self.entry_name.clone(),
            started_at: self.started_at,
            duration_ms: self.duration_ms,
            is_error: self.is_error,
            error_message: self.error_message.clone(),
            session_id: self.session_id.clone(),
        }
    }
}

/// What is known of the server.
#[derive(Debug)]
pub struct ServerStatus {
    pub is_ready: bool,
    pub name: Option<String>,
    pub version: Option<String>,
    pub address: Option<String>,
    pub uptime_ms: Option<u64>,
    pub error: Option<String>,
}

/// The mathematical value of a [`ServerStatus`].
pub struct ServerStatusView {
    pub is_ready: bool,
    pub name: Option<Seq<char>>,
    pub version: Option<Seq<char>>,
    pub address: Option<Seq<char>>,
    pub uptime_ms: Option<u64>,
    pub error: Option<Seq<char>>,
}

impl View for ServerStatus {
    type V = ServerStatusView;

    open spec fn view(&self) -> ServerStatusView {
        ServerStatusView {
            is_ready: self.is_ready,
            name: self.name.deep_view(),
            version: self.version.deep_view(),
            address: self.address.deep_view(),
            uptime_ms: self.uptime_ms,
            error: self.error.deep_view(),
        }
    }
}

impl DeepView for ServerStatus {
    type V = ServerStatusView;

    open spec fn deep_view(&self) -> ServerStatusView {
        self@
    }
}

impl Clone for ServerStatus {
    fn clone(&self) -> (r: Self)
        ensures
            r@ == self@,
    {
        ServerStatus {
            is_ready: self.is_ready,
            name: self.name.clone(),
            version: self.version.clone(),
            address: self.address.clone(),
            uptime_ms: self.uptime_ms,
            error: self.error.clone(),
        }
    }
}

impl ServerStatusView {
    /// The value that [`ServerStatus::default`] gives.
    pub open spec fn initial() -> ServerStatusView {
        ServerStatusView {
            is_ready: false,
            name: None,
            version: None,
            address: None,
            uptime_ms: None,
            error: None,
        }
    }
}

impl Default for ServerStatus {
    fn default() -> (r: Self)
        ensures
            r@ == ServerStatusView::initial(),
    {
        let r = ServerStatus {
            is_ready: false,
            name: None,
            version: None,
            address: None,
            uptime_ms: None,
            error: None,
        };
        r
    }
}

/// What is known of the configuration.
#[derive(Debug, Clone)]
pub struct ConfigStatus {
    pub is_loaded: bool,
    pub config_path: Option<String>,
    pub loaded_keys: Vec<String>,
    pub missing_keys: Vec<String>,
    pub errors: Vec<String>,
}

/// The mathematical value of a [`ConfigStatus`].
pub struct ConfigStatusView {
    pub is_loaded: bool,
    pub config_path: Option<Seq<char>>,
    pub loaded_keys: Seq<Seq<char>>,
    pub missing_keys: Seq<Seq<char>>,
    pub errors: Seq<Seq<char>>,
}

impl View for ConfigStatus {
    type V = ConfigStatusView;

    open spec fn view(&self) -> ConfigStatusView {
        ConfigStatusView {
            is_loaded: self.is_loaded,
            config_path: self.config_path.deep_view(),
            loaded_keys: self.loaded_keys.deep_view(),
            missing_keys: self.missing_keys.deep_view(),
            errors: self.errors.deep_view(),
        }
    }
}

impl DeepView for ConfigStatus {
    type V = ConfigStatusView;

    open spec fn deep_view(&self) -> ConfigStatusView {
        self@
    }
}

impl ConfigStatusView {
    /// The value that [`ConfigStatus::default`] gives.
    pub open spec fn initial() -> ConfigStatusView {
        ConfigStatusView {
            is_loaded: false,
            config_path: None,
            loaded_keys: Seq::empty(),
            missing_keys: Seq::empty(),
            errors: Seq::empty(),
        }
    }
}

impl Default for ConfigStatus {
    fn default() -> (r: Self)
        ensures
            r@ == ConfigStatusView::initial(),
    {
        let r = ConfigStatus {
            is_loaded: false,
            config_path: None,
            loaded_keys: Vec::new(),
            missing_keys: Vec::new(),
            errors: Vec::new(),
        };
        assert(r.loaded_keys.deep_view() =~= Seq::empty());
        assert(r.missing_keys.deep_view() =~= Seq::empty());
        assert(r.errors.deep_view() =~= Seq::empty());
        r
    }
}

/// The log entries of one session, oldest first.
#[derive(Debug, Clone)]
pub struct SessionLog {
    pub session_id: String,
    pub entries: Vec<LogEntry>,
}

/// The mathematical value of a [`SessionLog`].
pub struct SessionLogView {
    pub session_id: Seq<char>,
    pub entries: Seq<LogEntryView>,
}

impl View for SessionLog {
    type V = SessionLogView;

    open spec fn view(&self) -> SessionLogView {
        SessionLogView {
            session_id: self.session_id@,
            entries: self.entries.deep_view(),
        }
    }
}

impl DeepView for SessionLog {
    type V = SessionLogView;

    open spec fn deep_view(&self) -> SessionLogView {
        self@
    }
}

/// The scope that holds an app.
#[derive(Debug)]
pub struct AppScope {
    pub app_id: String,
    pub scope_id: String,
}

/// The mathematical value of a [`AppScope`].
pub struct AppScopeView {
    pub app_id: Seq<char>,
    pub scope_id: Seq<char>,
}

impl View for AppScope {
    type V = AppScopeView;

    open spec fn view(&self) -> AppScopeView {
        AppScopeView {
            app_id: self.app_id@,
            scope_id: self.scope_id@,
        }
    }
}

impl DeepView for AppScope {
    type V = AppScopeView;

    open spec fn deep_view(&self) -> AppScopeView {
        self@
    }
}

impl Clone for AppScope {
    fn clone(&self) -> (r: Self)
        ensures
            r@ == self@,
    {
        AppScope {
            app_id: self.app_id.clone(),
            scope_id: self.scope_id.clone(),
        }
    }
}

/// The whole state of the dashboard.
#[derive(Debug)]
pub struct DashboardState {
    pub active_tab: Tab,
    pub focus: FocusArea,
    pub show_help: bool,
    pub quit_mode: QuitMode,
    pub quit_dialog_selection: QuitDialogSelection,
    pub events_received: u64,
    pub lines_read: u64,
    /// How many tagged lines could not be read, and how many faults were shown.
    pub parse_failures: u64,
    pub pipe_path: Option<String>,
    pub pipe_connected: bool,
    pub socket_path: Option<String>,
    pub socket_connected: bool,
    /// Why the connection failed, if it did.
    pub connection_error: Option<String>,
    pub connection_started_at: Option<u64>,
    /// The latest faults, oldest first.
    pub recent_errors: Vec<String>,
    pub overview: OverviewData,
    /// The sessions, each id once, in the order in which they first connected.
    pub sessions: Vec<SessionInfo>,
    /// The log of each session, each id once.
    pub session_logs: Vec<SessionLog>,
    pub selected_session: Option<String>,
    pub tools: Vec<ToolInfo>,
    pub resources: Vec<ResourceInfo>,
    pub prompts: Vec<PromptInfo>,
    pub plugins: Vec<PluginInfo>,
    pub adapters: Vec<AdapterInfo>,
    pub activity_sub_tab: ActivitySubTab,
    /// The log over all sessions, oldest first.
    pub logs: Vec<LogEntry>,
    pub log_filter: LogFilter,
    pub metrics: MetricsData,
    /// The requests in the order in which they started.
    pub requests: Vec<ApiRequest>,
    pub server: ServerStatus,
    pub config: ConfigStatus,
    pub list_selected: usize,
    /// In the log: how many lines the view is scrolled up from the newest.
    pub list_scroll: usize,
    pub detail_scroll: usize,
    pub overview_scroll: usize,
    pub scopes: Vec<ScopeInfo>,
    pub apps: Vec<AppInfo>,
    /// The keys of the graph nodes whose children show, each once.
    pub graph_expanded: Vec<String>,
    pub graph_selected: usize,
    /// The scope of each app that a snapshot placed in one, each app once.
    pub app_scope_map: Vec<AppScope>,
}

/// The mathematical value of a [`DashboardState`].
pub struct DashboardStateView {
    pub active_tab: Tab,
    pub focus: FocusArea,
    pub show_help: bool,
    pub quit_mode: QuitMode,
    pub quit_dialog_selection: QuitDialogSelection,
    pub events_received: u64,
    pub lines_read: u64,
    pub parse_failures: u64,
    pub pipe_path: Option<Seq<char>>,
    pub pipe_connected: bool,
    pub socket_path: Option<Seq<char>>,
    pub socket_connected: bool,
    pub connection_error: Option<Seq<char>>,
    pub connection_started_at: Option<u64>,
    pub recent_errors: Seq<Seq<char>>,
    pub overview: OverviewDataView,
    pub sessions: Seq<SessionInfoView>,
    pub session_logs: Seq<SessionLogView>,
    pub selected_session: Option<Seq<char>>,
    pub tools: Seq<ToolInfoView>,
    pub resources: Seq<ResourceInfoView>,
    pub prompts: Seq<PromptInfoView>,
    pub plugins: Seq<PluginInfoView>,
    pub adapters: Seq<AdapterInfoView>,
    pub activity_sub_tab: ActivitySubTab,
    pub logs: Seq<LogEntryView>,
    pub log_filter: LogFilterView,
    pub metrics: MetricsDataView,
    pub requests: Seq<ApiRequestView>,
    pub server: ServerStatusView,
    pub config: ConfigStatusView,
    pub list_selected: usize,
    pub list_scroll: usize,
    pub detail_scroll: usize,
    pub overview_scroll: usize,
    pub scopes: Seq<ScopeInfoView>,
    pub apps: Seq<AppInfoView>,
    pub graph_expanded: Seq<Seq<char>>,
    pub graph_selected: usize,
    pub app_scope_map: Seq<AppScopeView>,
}

impl View for DashboardState {
    type V = DashboardStateView;

    open spec fn view(&self) -> DashboardStateView {
        DashboardStateView {
            active_tab: self.active_tab,
            focus: self.focus,
            show_help: self.show_help,
            quit_mode: self.quit_mode,
            quit_dialog_selection: self.quit_dialog_selection,
            events_received: self.events_received,
            lines_read: self.lines_read,
            parse_failures: self.parse_failures,
            pipe_path: self.pipe_path.deep_view(),
            pipe_connected: self.pipe_connected,
            socket_path: self.socket_path.deep_view(),
            socket_connected: self.socket_connected,
            connection_error: self.connection_error.deep_view(),
            connection_started_at: self.connection_started_at,
            recent_errors: self.recent_errors.deep_view(),
            overview: self.overview@,
            sessions: self.sessions.deep_view(),
            session_logs: self.session_logs.deep_view(),
            selected_session: self.selected_session.deep_view(),
            tools: self.tools.deep_view(),
            resources: self.resources.deep_view(),
            prompts: self.prompts.deep_view(),
            plugins: self.plugins.deep_view(),
            adapters: self.adapters.deep_view(),
            activity_sub_tab: self.activity_sub_tab,
            logs: self.logs.deep_view(),
            log_filter: self.log_filter@,
            metrics: self.metrics@,
            requests: self.requests.deep_view(),
            server: self.server@,
            config: self.config@,
            list_selected: self.list_selected,
            list_scroll: self.list_scroll,
            detail_scroll: self.detail_scroll,
            overview_scroll: self.overview_scroll,
            scopes: self.scopes.deep_view(),
            apps: self.apps.deep_view(),
            graph_expanded: self.graph_expanded.deep_view(),
            graph_selected: self.graph_selected,
            app_scope_map: self.app_scope_map.deep_view(),
        }
    }
}

impl DeepView for DashboardState {
    type V = DashboardStateView;

    open spec fn deep_view(&self) -> DashboardStateView {
        self@
    }
}

impl DashboardStateView {
    /// The value that [`DashboardState::default`] gives.
    pub open spec fn initial() -> DashboardStateView {
        DashboardStateView {
            active_tab: Tab::Sessions,
            focus: FocusArea::TabBar,
            show_help: false,
            quit_mode: QuitMode::NotQuitting,
            quit_dialog_selection: QuitDialogSelection::Cancel,
            events_received: 0,
            lines_read: 0,
            parse_failures: 0,
            pipe_path: None,
            pipe_connected: false,
            socket_path: None,
            socket_connected: false,
            connection_error: None,
            connection_started_at: None,
            recent_errors: Seq::empty(),
            overview: OverviewDataView::initial(),
            sessions: Seq::empty(),
            session_logs: Seq::empty(),
            selected_session: None,
            tools: Seq::empty(),
            resources: Seq::empty(),
            prompts: Seq::empty(),
            plugins: Seq::empty(),
            adapters: Seq::empty(),
            activity_sub_tab: ActivitySubTab::Tools,
            logs: Seq::empty(),
            log_filter: LogFilterView::initial(),
            metrics: MetricsDataView::initial(),
            requests: Seq::empty(),
            server: ServerStatusView::initial(),
            config: ConfigStatusView::initial(),
            list_selected: 0,
            list_scroll: 0,
            detail_scroll: 0,
            overview_scroll: 0,
            scopes: Seq::empty(),
            apps: Seq::empty(),
            graph_expanded: Seq::empty(),
            graph_selected: 0,
            app_scope_map: Seq::empty(),
        }
    }
}

impl Default for DashboardState {
    fn default() -> (r: Self)
        ensures
            r@ == DashboardStateView::initial(),
    {
        let r = DashboardState {
            active_tab: Tab::Sessions,
            focus: FocusArea::TabBar,
            show_help: false,
            quit_mode: QuitMode::NotQuitting,
            quit_dialog_selection: QuitDialogSelection::Cancel,
            events_received: 0,
            lines_read: 0,
            parse_failures: 0,
            pipe_path: None,
            pipe_connected: false,
            socket_path: None,
            socket_connected: false,
            connection_error: None,
            connection_started_at: None,
            recent_errors: Vec::new(),
            overview: OverviewData::default(),
            sessions: Vec::new(),
            session_logs: Vec::new(),
            selected_session: None,
            tools: Vec::new(),
            resources: Vec::new(),
            prompts: Vec::new(),
            plugins: Vec::new(),
            adapters: Vec::new(),
            activity_sub_tab: ActivitySubTab::Tools,
            logs: Vec::new(),
            log_filter: LogFilter::default(),
            metrics: MetricsData::default(),
            requests: Vec::new(),
            server: ServerStatus::default(),
            config: ConfigStatus::default(),
            list_selected: 0,
            list_scroll: 0,
            detail_scroll: 0,
            overview_scroll: 0,
            scopes: Vec::new(),
            apps: Vec::new(),
            graph_expanded: Vec::new(),
            graph_selected: 0,
            app_scope_map: Vec::new(),
        };
        assert(r.recent_errors.deep_view() =~= Seq::empty());
        assert(r.sessions.deep_view() =~= Seq::empty());
        assert(r.session_logs.deep_view() =~= Seq::empty());
        assert(r.tools.deep_view() =~= Seq::empty());
        assert(r.resources.deep_view() =~= Seq::empty());
        assert(r.prompts.deep_view() =~= Seq::empty());
        assert(r.plugins.deep_view() =~= Seq::empty());
        assert(r.adapters.deep_view() =~= Seq::empty());
        assert(r.logs.deep_view() =~= Seq::empty());
        assert(r.requests.deep_view() =~= Seq::empty());
        assert(r.scopes.deep_view() =~= Seq::empty());
        assert(r.apps.deep_view() =~= Seq::empty());
        assert(r.graph_expanded.deep_view() =~= Seq::empty());
        assert(r.app_scope_map.deep_view() =~= Seq::empty());
        r
    }
}

} // verus!
