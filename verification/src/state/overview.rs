//! The aggregates that are derived from the collections: the overview and
//! the metrics.

use crate::clock::now_millis;
use crate::state::keyed::{index_of, keys_of, position, push_front, ring_push, text_in_list};
use crate::state::model::{
    DashboardState, DashboardStateView, MetricsData, MetricsDataView, OverviewData,
    OverviewDataView, ResourceInfoView, SessionInfoView, ToolCallSummary, ToolCallSummaryView,
    ToolInfoView, ToolUsage, ToolUsageView, MAX_TOOL_CALLS, METRICS_HISTORY_SIZE,
};
use crate::text::str_eq;
use vstd::prelude::*;

verus! {

/// The sum of two totals, stopping at the largest number that a total holds.
pub open spec fn sat_add(a: u64, b: u64) -> u64 {
    if a + b > u64::MAX {
        u64::MAX
    } else {
        (a + b) as u64
    }
}

impl OverviewDataView {
    /// The overview with one more tool call in front of the latest ones.
    pub open spec fn with_tool_call(self, call: ToolCallSummaryView) -> OverviewDataView {
        OverviewDataView {
            last_tool_calls: push_front(self.last_tool_calls, call, MAX_TOOL_CALLS as nat),
            ..self
        }
    }
}

impl OverviewData {
    /// Puts a tool call that ended at `now` in front of the latest ones.
    pub fn add_tool_call_at(
        &mut self,
        now: u64,
        name: String,
        success: bool,
        duration_ms: Option<u64>,
    )
        ensures
            final(self)@ == old(self)@.with_tool_call(
                ToolCallSummaryView { name: name@, timestamp: now, success, duration_ms },
            ),
    {
        let ghost calls = self.last_tool_calls.deep_view();
        let call = ToolCallSummary { name, timestamp: now, success, duration_ms };
        let ghost c = call@;
        self.last_tool_calls.insert(0, call);
        if self.last_tool_calls.len() > MAX_TOOL_CALLS {
            self.last_tool_calls.truncate(MAX_TOOL_CALLS);
        }
        assert(self.last_tool_calls.deep_view() =~= push_front(calls, c, MAX_TOOL_CALLS as nat));
    }

    /// Puts a tool call that ended just now in front of the latest ones.
    pub fn add_tool_call(&mut self, name: String, success: bool, duration_ms: Option<u64>)
        ensures
            exists|now: u64|
                final(self)@ == old(self)@.with_tool_call(
                    ToolCallSummaryView { name: name@, timestamp: now, success, duration_ms },
                ),
    {
        let now = now_millis();
        self.add_tool_call_at(now, name, success, duration_ms);
    }
}

/// The usage counts after one more call of `name`: its count goes up by
/// one; a tool that was not called before is listed with one call.
pub open spec fn usage_counted(usage: Seq<ToolUsageView>, name: Seq<char>) -> Seq<ToolUsageView> {
    match index_of(keys_of::<ToolUsage>(usage), name) {
        Some(i) => usage.update(
            i,
            ToolUsageView { name: usage[i].name, count: sat_add(usage[i].count, 1) },
        ),
        None => usage.push(ToolUsageView { name, count: 1 }),
    }
}

impl MetricsDataView {
    /// The metrics after one more request ended.
    pub open spec fn with_request(
        self,
        success: bool,
        duration_ms: Option<u64>,
        tool_name: Option<Seq<char>>,
    ) -> MetricsDataView {
        MetricsDataView {
            total_requests: sat_add(self.total_requests, 1),
            successful_requests: if success {
                sat_add(self.successful_requests, 1)
            } else {
                self.successful_requests
            },
            failed_requests: if success {
                self.failed_requests
            } else {
                sat_add(self.failed_requests, 1)
            },
            total_duration_ms: match duration_ms {
                Some(d) => sat_add(self.total_duration_ms, d),
                None => self.total_duration_ms,
            },
            tool_usage: match tool_name {
                Some(name) => usage_counted(self.tool_usage, name),
                None => self.tool_usage,
            },
            ..self
        }
    }

    /// The metrics after the bytes of one request were counted. A token is
    /// reckoned as four bytes.
    pub open spec fn with_traffic(self, inbound: u64, outbound: u64) -> MetricsDataView {
        MetricsDataView {
            inbound_bytes: sat_add(self.inbound_bytes, inbound),
            outbound_bytes: sat_add(self.outbound_bytes, outbound),
            prompt_tokens: sat_add(self.prompt_tokens, inbound / 4),
            completion_tokens: sat_add(self.completion_tokens, outbound / 4),
            total_tokens: sat_add(self.total_tokens, sat_add(inbound / 4, outbound / 4)),
            ..self
        }
    }

    /// The metrics after one more sample of the processor and the memory.
    pub open spec fn with_sample(self, cpu: u32, memory: u64) -> MetricsDataView {
        MetricsDataView {
            current_cpu: cpu,
            current_memory: memory,
            cpu_history: ring_push(self.cpu_history, cpu, METRICS_HISTORY_SIZE as nat),
            memory_history: ring_push(self.memory_history, memory, METRICS_HISTORY_SIZE as nat),
            ..self
        }
    }

    /// How often the tool was called.
    pub open spec fn calls_of(self, name: Seq<char>) -> u64 {
        match index_of(keys_of::<ToolUsage>(self.tool_usage), name) {
            Some(i) => self.tool_usage[i].count,
            None => 0,
        }
    }
}

impl MetricsData {
    /// Counts a request that ended, and a call of the tool where one is named.
    pub fn record_request(&mut self, success: bool, duration_ms: Option<u64>, tool_name: Option<&str>)
        ensures
            final(self)@ == old(self)@.with_request(success, duration_ms, tool_name.deep_view()),
    {
        self.total_requests = self.total_requests.saturating_add(1);
        if success {
            self.successful_requests = self.successful_requests.saturating_add(1);
        } else {
            self.failed_requests = self.failed_requests.saturating_add(1);
        }
        match duration_ms {
            Some(d) => {
                self.total_duration_ms = self.total_duration_ms.saturating_add(d);
            },
            None => {},
        }
        match tool_name {
            Some(name) => {
                let ghost usage = self.tool_usage.deep_view();
                match position(&self.tool_usage, name) {
                    Some(i) => {
                        let mut entry = self.tool_usage.remove(i);
                        entry.count = entry.count.saturating_add(1);
                        self.tool_usage.insert(i, entry);
                        assert(self.tool_usage.deep_view() =~= usage_counted(usage, name@));
                    },
                    None => {
                        self.tool_usage.push(ToolUsage { name: name.to_owned(), count: 1 });
                        assert(self.tool_usage.deep_view() =~= usage_counted(usage, name@));
                    },
                }
            },
            None => {},
        }
    }

    /// Counts the bytes that one request took in and gave out.
    pub fn record_traffic(&mut self, inbound: u64, outbound: u64)
        ensures
            final(self)@ == old(self)@.with_traffic(inbound, outbound),
    {
        self.inbound_bytes = self.inbound_bytes.saturating_add(inbound);
        self.outbound_bytes = self.outbound_bytes.saturating_add(outbound);
        let inbound_tokens: u64 = inbound / 4;
        let outbound_tokens: u64 = outbound / 4;
        self.prompt_tokens = self.prompt_tokens.saturating_add(inbound_tokens);
        self.completion_tokens = self.completion_tokens.saturating_add(outbound_tokens);
        self.total_tokens = self.total_tokens.saturating_add(
            inbound_tokens.saturating_add(outbound_tokens),
        );
    }

    /// Takes in a sample: the processor load in hundredths of a percent and
    /// the memory in bytes.
    pub fn update_system_metrics(&mut self, cpu: u32, memory: u64)
        ensures
            final(self)@ == old(self)@.with_sample(cpu, memory),
    {
        self.current_cpu = cpu;
        self.current_memory = memory;
        let ghost cpus = self.cpu_history@;
        let ghost mems = self.memory_history@;
        self.cpu_history.push(cpu);
        self.memory_history.push(memory);
        if self.cpu_history.len() > METRICS_HISTORY_SIZE {
            self.cpu_history.remove(0);
        }
        if self.memory_history.len() > METRICS_HISTORY_SIZE {
            self.memory_history.remove(0);
        }
        assert(self.cpu_history@ =~= ring_push(cpus, cpu, METRICS_HISTORY_SIZE as nat));
        assert(self.memory_history@ =~= ring_push(mems, memory, METRICS_HISTORY_SIZE as nat));
    }

    /// How often the tool was called.
    pub fn tool_calls(&self, name: &str) -> (r: u64)
        ensures
            r == self@.calls_of(name@),
    {
        match position(&self.tool_usage, name) {
            Some(i) => self.tool_usage[i].count,
            None => 0,
        }
    }
}

/// How many of the sessions are active.
pub open spec fn active_count(sessions: Seq<SessionInfoView>) -> nat {
    sessions.filter(|s: SessionInfoView| s.is_active).len()
}

/// The kind and the id of the owner of an entry, where it has them.
pub type Owner = (Option<Seq<char>>, Option<Seq<char>>);

/// The owners of the tools, in order.
pub open spec fn tool_owners(tools: Seq<ToolInfoView>) -> Seq<Owner> {
    Seq::new(tools.len(), |i: int| (tools[i].owner_kind, tools[i].owner_id))
}

/// The owners of the resources, in order.
pub open spec fn resource_owners(resources: Seq<ResourceInfoView>) -> Seq<Owner> {
    Seq::new(resources.len(), |i: int| (resources[i].owner_kind, resources[i].owner_id))
}

/// Whether the owner is an app with an id.
pub open spec fn is_app_owner(owner: Owner) -> bool {
    owner.0 == Some("app"@) && owner.1 is Some
}

/// The ids of the apps among the owners.
pub open spec fn app_ids(owners: Seq<Owner>) -> Set<Seq<char>>
    decreases owners.len(),
{
    if owners.len() == 0 {
        Set::empty()
    } else if is_app_owner(owners.last()) {
        app_ids(owners.drop_last()).insert(owners.last().1.unwrap())
    } else {
        app_ids(owners.drop_last())
    }
}

/// The ids of the apps that own a tool or a resource.
pub open spec fn app_owner_ids(
    tools: Seq<ToolInfoView>,
    resources: Seq<ResourceInfoView>,
) -> Set<Seq<char>> {
    app_ids(tool_owners(tools) + resource_owners(resources))
}

/// The ids of the apps among the owners are finitely many, and an id is
/// among them exactly when some owner is an app with that id.
pub proof fn lemma_app_ids(owners: Seq<Owner>)
    ensures
        app_ids(owners).finite(),
        app_ids(owners).len() <= owners.len(),
        forall|id: Seq<char>|
            app_ids(owners).contains(id) <==> exists|i: int|
                0 <= i < owners.len() && #[trigger] owners[i] == (Some("app"@), Some(id)),
    decreases owners.len(),
{
    if owners.len() > 0 {
        let rest = owners.drop_last();
        lemma_app_ids(rest);
        assert forall|id: Seq<char>|
            app_ids(owners).contains(id) <==> exists|i: int|
                0 <= i < owners.len() && #[trigger] owners[i] == (Some("app"@), Some(id)) by {
            if app_ids(owners).contains(id) {
                if app_ids(rest).contains(id) {
                    let i = choose|i: int|
                        0 <= i < rest.len() && #[trigger] rest[i] == (Some("app"@), Some(id));
                    assert(owners[i] == rest[i]);
                } else {
                    assert(owners[owners.len() - 1] == (Some("app"@), Some(id)));
                }
            }
            if exists|i: int|
                0 <= i < owners.len() && #[trigger] owners[i] == (Some("app"@), Some(id)) {
                let i = choose|i: int|
                    0 <= i < owners.len() && #[trigger] owners[i] == (Some("app"@), Some(id));
                if i < rest.len() {
                    assert(rest[i] == owners[i]);
                }
            }
        }
    }
}

impl DashboardStateView {
    /// The state with its session counts computed anew.
    pub open spec fn sessions_counted(self) -> DashboardStateView {
        DashboardStateView {
            overview: OverviewDataView {
                total_sessions: self.sessions.len() as usize,
                active_sessions: active_count(self.sessions) as usize,
                ..self.overview
            },
            ..self
        }
    }

    /// The state with its counts of apps and scopes computed anew.
    pub open spec fn registry_counted(self) -> DashboardStateView {
        DashboardStateView {
            overview: OverviewDataView {
                registered_apps: app_owner_ids(self.tools, self.resources).len() as usize,
                scope_count: self.scopes.len() as usize,
                ..self.overview
            },
            ..self
        }
    }

    /// Whether the overview counts as many apps as own a tool or a resource.
    pub open spec fn apps_counted(self) -> bool {
        self.overview.registered_apps == app_owner_ids(self.tools, self.resources).len()
    }
}

/// Counting the apps twice gives what counting them once gives, and the
/// count is then the number of apps that own a tool or a resource, wherever
/// the overview can hold that number.
pub proof fn lemma_registry_count_is_stable(s: DashboardStateView)
    ensures
        s.registry_counted().registry_counted() == s.registry_counted(),
        app_owner_ids(s.tools, s.resources).len() <= usize::MAX
            ==> s.registry_counted().apps_counted(),
        s.apps_counted() ==> s.registry_counted().overview.registered_apps
            == s.overview.registered_apps,
{
}

fn note_app_owner(
    seen: &mut Vec<String>,
    kind: &Option<String>,
    id: &Option<String>,
    Ghost(done): Ghost<Seq<Owner>>,
)
    requires
        old(seen).deep_view().no_duplicates(),
        old(seen).deep_view().to_set() == app_ids(done),
    ensures
        final(seen).deep_view().no_duplicates(),
        final(seen).deep_view().to_set() == app_ids(done.push((kind.deep_view(), id.deep_view()))),
{
    let ghost owner = (kind.deep_view(), id.deep_view());
    let ghost before = seen.deep_view();
    proof {
        assert(done.push(owner).drop_last() =~= done);
        assert(done.push(owner).last() == owner);
    }
    match kind {
        Some(k) => {
            if str_eq(k.as_str(), "app") {
                match id {
                    Some(i) => {
                        if !text_in_list(seen, i.as_str()) {
                            seen.push(i.clone());
                            assert(seen.deep_view() =~= before.push(i@));
                            assert(before.push(i@).to_set() =~= before.to_set().insert(i@)) by {
                                assert forall|x: Seq<char>|
                                    before.push(i@).contains(x) <==> (before.contains(x) || x
                                        == i@) by {
                                    if before.push(i@).contains(x) {
                                        let k = choose|k: int|
                                            0 <= k < before.push(i@).len() && before.push(i@)[k]
                                                == x;
                                        if k < before.len() {
                                            assert(before[k] == x);
                                        }
                                    }
                                    if before.contains(x) {
                                        let k = choose|k: int| 0 <= k < before.len() && before[k] == x;
                                        assert(before.push(i@)[k] == x);
                                    }
                                    if x == i@ {
                                        assert(before.push(i@)[before.len() as int] == x);
                                    }
                                }
                            }
                        } else {
                            assert(before.to_set().insert(i@) =~= before.to_set());
                        }
                    },
                    None => {},
                }
            }
        },
        None => {},
    }
}

impl DashboardState {
    /// Computes the session counts of the overview anew.
    pub fn update_overview_sessions(&mut self)
        ensures
            final(self)@ == old(self)@.sessions_counted(),
            final(self)@.overview.total_sessions == old(self)@.sessions.len(),
            final(self)@.overview.active_sessions == active_count(old(self)@.sessions),
    {
        let ghost sessions = self.sessions.deep_view();
        let ghost pred = |s: SessionInfoView| s.is_active;
        let mut active: usize = 0;
        let mut i: usize = 0;
        assert(sessions.take(0) =~= Seq::<SessionInfoView>::empty());
        while i < self.sessions.len()
            invariant
                i <= self.sessions.len(),
                sessions == self.sessions.deep_view(),
                pred == |s: SessionInfoView| s.is_active,
                active == sessions.take(i as int).filter(pred).len(),
                active <= i,
            decreases self.sessions.len() - i,
        {
            proof {
                assert(sessions.take(i + 1) =~= sessions.take(i as int).push(sessions[i as int]));
                sessions.take(i as int).lemma_filter_push(sessions[i as int], pred);
            }
            if self.sessions[i].is_active {
                active += 1;
            }
            i += 1;
        }
        assert(sessions.take(sessions.len() as int) =~= sessions);
        self.overview.total_sessions = self.sessions.len();
        self.overview.active_sessions = active;
    }

    /// Computes the counts of apps and scopes of the overview anew.
    pub fn update_overview_registry(&mut self)
        ensures
            final(self)@ == old(self)@.registry_counted(),
            final(self)@.overview.registered_apps == app_owner_ids(
                old(self)@.tools,
                old(self)@.resources,
            ).len(),
            final(self)@.overview.scope_count == old(self)@.scopes.len(),
            final(self)@.apps_counted(),
    {
        let ghost tools = tool_owners(self.tools.deep_view());
        let ghost resources = resource_owners(self.resources.deep_view());
        let mut seen: Vec<String> = Vec::new();
        assert(seen.deep_view() =~= Seq::<Seq<char>>::empty());
        assert(seen.deep_view().to_set() =~= Set::<Seq<char>>::empty());
        assert(tools.take(0) =~= Seq::<Owner>::empty());
        let mut i: usize = 0;
        while i < self.tools.len()
            invariant
                i <= self.tools.len(),
                tools == tool_owners(self.tools.deep_view()),
                seen.deep_view().no_duplicates(),
                seen.deep_view().to_set() == app_ids(tools.take(i as int)),
            decreases self.tools.len() - i,
        {
            note_app_owner(
                &mut seen,
                &self.tools[i].owner_kind,
                &self.tools[i].owner_id,
                Ghost(tools.take(i as int)),
            );
            assert(tools.take(i + 1) =~= tools.take(i as int).push(tools[i as int]));
            i += 1;
        }
        assert(tools.take(tools.len() as int) =~= tools);
        assert(tools + resources.take(0) =~= tools);
        let mut j: usize = 0;
        while j < self.resources.len()
            invariant
                j <= self.resources.len(),
                tools == tool_owners(self.tools.deep_view()),
                resources == resource_owners(self.resources.deep_view()),
                seen.deep_view().no_duplicates(),
                seen.deep_view().to_set() == app_ids(tools + resources.take(j as int)),
            decreases self.resources.len() - j,
        {
            note_app_owner(
                &mut seen,
                &self.resources[j].owner_kind,
                &self.resources[j].owner_id,
                Ghost(tools + resources.take(j as int)),
            );
            assert(tools + resources.take(j + 1) =~= (tools + resources.take(j as int)).push(
                resources[j as int],
            ));
            j += 1;
        }
        assert(resources.take(resources.len() as int) =~= resources);
        proof {
            seen.deep_view().unique_seq_to_set();
        }
        self.overview.registered_apps = seen.len();
        self.overview.scope_count = self.scopes.len();
    }
}

} // verus!
