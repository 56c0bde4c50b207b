//! Taking in a snapshot of the whole server: it replaces the registries and
//! the scopes, whatever was folded in before.

use crate::event::socket::{
    AdapterInfoSnapshot, AdapterInfoSnapshotView, OwnerInfo, OwnerInfoView, PluginInfoSnapshot,
    PluginInfoSnapshotView, ScopeState, ScopeStateView, SessionState, SessionStateView,
    StateSnapshot, StateSnapshotView,
};
use crate::state::keyed::{index_of, keys_of, position};
use crate::state::model::{
    AdapterInfo, AppInfo, AppInfoView, AppScope, AppScopeView, DashboardState,
    DashboardStateView, EntryDetail, EntryDetailView, LogLevel, OverviewDataView, PluginInfo,
    PromptInfo, ResourceInfo, ScopeInfo, ScopeInfoView, ServerStatusView, SessionInfo,
    SessionInfoView, ToolInfo,
};
use crate::state::registry::FromEntry;
use crate::text::{decimal, decimal_string, str_eq};
use vstd::prelude::*;

verus! {

/// An entry of a snapshot, of any of the five registries.
pub trait ToDetail: DeepView + Sized {
    /// What the entry tells, as an entry of the scope.
    spec fn detail(scope_id: Seq<char>, v: Self::V) -> EntryDetailView;

    fn to_detail(&self, scope_id: &str) -> (r: EntryDetail)
        ensures
            r@ == Self::detail(scope_id@, self.deep_view()),
    ;
}

/// The kind of the owner; an entry without owner is owned by its scope.
pub open spec fn kind_or_scope(owner: Option<OwnerInfoView>) -> Option<Seq<char>> {
    match owner {
        Some(o) => Some(o.kind),
        None => Some("scope"@),
    }
}

/// The id of the owner; an entry without owner is owned by its scope.
pub open spec fn id_or_scope(owner: Option<OwnerInfoView>, scope_id: Seq<char>) -> Option<
    Seq<char>,
> {
    match owner {
        Some(o) => Some(o.id),
        None => Some(scope_id),
    }
}

/// The kind of the owner, where there is one.
pub open spec fn kind_of(owner: Option<OwnerInfoView>) -> Option<Seq<char>> {
    match owner {
        Some(o) => Some(o.kind),
        None => None,
    }
}

/// The id of the owner, where there is one.
pub open spec fn id_of(owner: Option<OwnerInfoView>) -> Option<Seq<char>> {
    match owner {
        Some(o) => Some(o.id),
        None => None,
    }
}

fn kind_or_scope_exec(owner: &Option<OwnerInfo>) -> (r: Option<String>)
    ensures
        r.deep_view() == kind_or_scope(owner.deep_view()),
{
    match owner {
        Some(o) => Some(o.kind.clone()),
        None => Some("scope".to_owned()),
    }
}

fn id_or_scope_exec(owner: &Option<OwnerInfo>, scope_id: &str) -> (r: Option<String>)
    ensures
        r.deep_view() == id_or_scope(owner.deep_view(), scope_id@),
{
    match owner {
        Some(o) => Some(o.id.clone()),
        None => Some(scope_id.to_owned()),
    }
}

fn kind_of_exec(owner: &Option<OwnerInfo>) -> (r: Option<String>)
    ensures
        r.deep_view() == kind_of(owner.deep_view()),
{
    match owner {
        Some(o) => Some(o.kind.clone()),
        None => None,
    }
}

fn id_of_exec(owner: &Option<OwnerInfo>) -> (r: Option<String>)
    ensures
        r.deep_view() == id_of(owner.deep_view()),
{
    match owner {
        Some(o) => Some(o.id.clone()),
        None => None,
    }
}

impl ToDetail for crate::event::socket::ToolInfo {
    open spec fn detail(scope_id: Seq<char>, v: crate::event::socket::ToolInfoView) -> EntryDetailView {
        EntryDetailView {
            name: v.name,
            description: v.description,
            input_schema: None,
            uri: None,
            version: None,
            owner_kind: kind_or_scope(v.owner),
            owner_id: id_or_scope(v.owner, scope_id),
        }
    }

    fn to_detail(&self, scope_id: &str) -> (r: EntryDetail) {
        EntryDetail {
            name: self.name.clone(),
            description: self.description.clone(),
            input_schema: None,
            uri: None,
            version: None,
            owner_kind: kind_or_scope_exec(&self.owner),
            owner_id: id_or_scope_exec(&self.owner, scope_id),
        }
    }
}

impl ToDetail for crate::event::socket::ResourceInfo {
    open spec fn detail(
        scope_id: Seq<char>,
        v: crate::event::socket::ResourceInfoView,
    ) -> EntryDetailView {
        EntryDetailView {
            name: v.name,
            description: v.description,
            input_schema: None,
            uri: Some(v.uri),
            version: None,
            owner_kind: kind_or_scope(v.owner),
            owner_id: id_or_scope(v.owner, scope_id),
        }
    }

    fn to_detail(&self, scope_id: &str) -> (r: EntryDetail) {
        EntryDetail {
            name: self.name.clone(),
            description: self.description.clone(),
            input_schema: None,
            uri: Some(self.uri.clone()),
            version: None,
            owner_kind: kind_or_scope_exec(&self.owner),
            owner_id: id_or_scope_exec(&self.owner, scope_id),
        }
    }
}

impl ToDetail for crate::event::socket::PromptInfo {
    open spec fn detail(scope_id: Seq<char>, v: crate::event::socket::PromptInfoView) -> EntryDetailView {
        EntryDetailView {
            name: v.name,
            description: v.description,
            input_schema: None,
            uri: None,
            version: None,
            owner_kind: kind_or_scope(v.owner),
            owner_id: id_or_scope(v.owner, scope_id),
        }
    }

    fn to_detail(&self, scope_id: &str) -> (r: EntryDetail) {
        EntryDetail {
            name: self.name.clone(),
            description: self.description.clone(),
            input_schema: None,
            uri: None,
            version: None,
            owner_kind: kind_or_scope_exec(&self.owner),
            owner_id: id_or_scope_exec(&self.owner, scope_id),
        }
    }
}

impl ToDetail for PluginInfoSnapshot {
    open spec fn detail(scope_id: Seq<char>, v: PluginInfoSnapshotView) -> EntryDetailView {
        EntryDetailView {
            name: v.name,
            description: None,
            input_schema: None,
            uri: None,
            version: v.version,
            owner_kind: kind_of(v.owner),
            owner_id: id_of(v.owner),
        }
    }

    fn to_detail(&self, scope_id: &str) -> (r: EntryDetail) {
        EntryDetail {
            name: self.name.clone(),
            description: None,
            input_schema: None,
            uri: None,
            version: self.version.clone(),
            owner_kind: kind_of_exec(&self.owner),
            owner_id: id_of_exec(&self.owner),
        }
    }
}

impl ToDetail for AdapterInfoSnapshot {
    open spec fn detail(scope_id: Seq<char>, v: AdapterInfoSnapshotView) -> EntryDetailView {
        EntryDetailView {
            name: v.name,
            description: v.description,
            input_schema: None,
            uri: None,
            version: None,
            owner_kind: kind_of(v.owner),
            owner_id: id_of(v.owner),
        }
    }

    fn to_detail(&self, scope_id: &str) -> (r: EntryDetail) {
        EntryDetail {
            name: self.name.clone(),
            description: self.description.clone(),
            input_schema: None,
            uri: None,
            version: None,
            owner_kind: kind_of_exec(&self.owner),
            owner_id: id_of_exec(&self.owner),
        }
    }
}

/// What the entries of a scope tell, in order.
pub open spec fn details_of<T: ToDetail>(scope_id: Seq<char>, items: Seq<T::V>) -> Seq<
    EntryDetailView,
> {
    Seq::new(items.len(), |i: int| T::detail(scope_id, items[i]))
}

/// The records that the entries give, one for each, in order.
pub open spec fn records_of<T: FromEntry>(details: Seq<EntryDetailView>) -> Seq<T::V> {
    Seq::new(details.len(), |i: int| T::made(details[i]))
}

/// The app that an entry places in the scope: its owner, where that is an
/// app other than the scope itself.
pub open spec fn placed_app(detail: EntryDetailView, scope_id: Seq<char>) -> Option<Seq<char>> {
    if detail.owner_kind == Some("app"@) && detail.owner_id is Some && detail.owner_id
        != Some(scope_id) {
        detail.owner_id
    } else {
        None
    }
}

/// The map with the app in the scope; an app that was placed before moves.
pub open spec fn app_placed(map: Seq<AppScopeView>, app_id: Seq<char>, scope_id: Seq<char>) -> Seq<
    AppScopeView,
> {
    match index_of(keys_of::<AppScope>(map), app_id) {
        Some(i) => map.update(i, AppScopeView { app_id: map[i].app_id, scope_id }),
        None => map.push(AppScopeView { app_id, scope_id }),
    }
}

/// The map after the owners of the entries were placed in the scope, in order.
pub open spec fn apps_placed(
    map: Seq<AppScopeView>,
    details: Seq<EntryDetailView>,
    scope_id: Seq<char>,
) -> Seq<AppScopeView>
    decreases details.len(),
{
    if details.len() == 0 {
        map
    } else {
        let before = apps_placed(map, details.drop_last(), scope_id);
        match placed_app(details.last(), scope_id) {
            Some(app_id) => app_placed(before, app_id, scope_id),
            None => before,
        }
    }
}

/// The session that a snapshot tells of.
pub open spec fn snapshot_session(s: SessionStateView) -> SessionInfoView {
    SessionInfoView {
        id: s.session_id,
        transport_type: Some(s.transport_type),
        client_name: match s.client_info {
            Some(c) => Some(c.name),
            None => None,
        },
        client_version: match s.client_info {
            Some(c) => Some(c.version),
            None => None,
        },
        user_agent: None,
        connected_at: s.connected_at,
        is_active: true,
        auth_mode: s.auth_mode,
        auth_user_name: match s.auth_user {
            Some(u) => u.name,
            None => None,
        },
        auth_user_email: match s.auth_user {
            Some(u) => u.email,
            None => None,
        },
        is_anonymous: s.is_anonymous,
    }
}

impl DashboardStateView {
    /// The state after the entries of one registry of a scope were taken in.
    pub open spec fn scope_tools_taken(self, scope_id: Seq<char>, details: Seq<EntryDetailView>) -> DashboardStateView {
        DashboardStateView {
            tools: self.tools + records_of::<ToolInfo>(details),
            app_scope_map: apps_placed(self.app_scope_map, details, scope_id),
            ..self
        }
    }

    pub open spec fn scope_resources_taken(self, scope_id: Seq<char>, details: Seq<EntryDetailView>) -> DashboardStateView {
        DashboardStateView {
            resources: self.resources + records_of::<ResourceInfo>(details),
            app_scope_map: apps_placed(self.app_scope_map, details, scope_id),
            ..self
        }
    }

    pub open spec fn scope_prompts_taken(self, scope_id: Seq<char>, details: Seq<EntryDetailView>) -> DashboardStateView {
        DashboardStateView {
            prompts: self.prompts + records_of::<PromptInfo>(details),
            app_scope_map: apps_placed(self.app_scope_map, details, scope_id),
            ..self
        }
    }

    pub open spec fn scope_plugins_taken(self, scope_id: Seq<char>, details: Seq<EntryDetailView>) -> DashboardStateView {
        DashboardStateView {
            plugins: self.plugins + records_of::<PluginInfo>(details),
            app_scope_map: apps_placed(self.app_scope_map, details, scope_id),
            ..self
        }
    }

    pub open spec fn scope_adapters_taken(self, scope_id: Seq<char>, details: Seq<EntryDetailView>) -> DashboardStateView {
        DashboardStateView {
            adapters: self.adapters + records_of::<AdapterInfo>(details),
            app_scope_map: apps_placed(self.app_scope_map, details, scope_id),
            ..self
        }
    }

    /// The state after one scope of a snapshot was taken in: the scope is
    /// listed, its entries go to the ends of the registries, each app that
    /// owns one of them is placed in the scope, and the scope is listed as
    /// an app with its counts.
    pub open spec fn scope_taken(self, scope: ScopeStateView) -> DashboardStateView {
        let listed = DashboardStateView {
            scopes: self.scopes.push(ScopeInfoView { id: scope.id, name: scope.id }),
            ..self
        };
        let filled = listed.scope_tools_taken(
            scope.id,
            details_of::<crate::event::socket::ToolInfo>(scope.id, scope.tools),
        ).scope_resources_taken(
            scope.id,
            details_of::<crate::event::socket::ResourceInfo>(scope.id, scope.resources),
        ).scope_prompts_taken(
            scope.id,
            details_of::<crate::event::socket::PromptInfo>(scope.id, scope.prompts),
        ).scope_plugins_taken(
            scope.id,
            details_of::<PluginInfoSnapshot>(scope.id, scope.plugins),
        ).scope_adapters_taken(
            scope.id,
            details_of::<AdapterInfoSnapshot>(scope.id, scope.adapters),
        );
        DashboardStateView {
            apps: filled.apps.push(
                AppInfoView {
                    id: scope.id,
                    name: scope.id,
                    tool_count: scope.tools.len() as usize,
                    resource_count: scope.resources.len() as usize,
                    prompt_count: scope.prompts.len() as usize,
                    plugin_count: scope.plugins.len() as usize,
                },
            ),
            ..filled
        }
    }

    /// The state after the scopes of a snapshot were taken in, in order.
    pub open spec fn scopes_taken(self, scopes: Seq<ScopeStateView>) -> DashboardStateView
        decreases scopes.len(),
    {
        if scopes.len() == 0 {
            self
        } else {
            self.scopes_taken(scopes.drop_last()).scope_taken(scopes.last())
        }
    }

    /// The state after the sessions of a snapshot were taken in, in order.
    pub open spec fn sessions_taken(self, sessions: Seq<SessionStateView>) -> DashboardStateView
        decreases sessions.len(),
    {
        if sessions.len() == 0 {
            self
        } else {
            self.sessions_taken(sessions.drop_last()).session_opened(
                snapshot_session(sessions.last()),
            )
        }
    }

    /// The state with its registries, its scopes and its placing of apps
    /// emptied, and the server known by name and version and ready.
    pub open spec fn cleared_for(self, snapshot: StateSnapshotView) -> DashboardStateView {
        DashboardStateView {
            server: ServerStatusView {
                name: Some(snapshot.server.name),
                version: Some(snapshot.server.version),
                is_ready: true,
                ..self.server
            },
            tools: Seq::empty(),
            resources: Seq::empty(),
            prompts: Seq::empty(),
            plugins: Seq::empty(),
            adapters: Seq::empty(),
            scopes: Seq::empty(),
            app_scope_map: Seq::empty(),
            ..self
        }
    }

    /// The message that tells what a snapshot brought.
    pub open spec fn snapshot_message(self) -> Seq<char> {
        "Connected to server: "@ + decimal(self.tools.len()) + " tools, "@ + decimal(
            self.resources.len(),
        ) + " resources, "@ + decimal(self.prompts.len()) + " prompts, "@ + decimal(
            self.plugins.len(),
        ) + " plugins, "@ + decimal(self.adapters.len()) + " adapters, "@ + decimal(
            self.sessions.len(),
        ) + " sessions"@
    }

    /// The state after a snapshot was taken in at `now`.
    pub open spec fn snapshot_folded(self, snapshot: StateSnapshotView, now: u64) -> DashboardStateView {
        let filled = self.cleared_for(snapshot).scopes_taken(snapshot.scopes).sessions_taken(
            snapshot.sessions,
        ).sessions_counted().registry_counted();
        let addressed = DashboardStateView {
            overview: OverviewDataView { server_address: filled.server.address, ..filled.overview },
            ..filled
        };
        addressed.noted(now, LogLevel::Info, addressed.snapshot_message(), "system"@)
    }
}

/// What the entries of a scope tell, in order.
pub fn details_of_exec<T: ToDetail>(scope_id: &str, items: &Vec<T>) -> (r: Vec<EntryDetail>)
    ensures
        r.deep_view() == details_of::<T>(scope_id@, items.deep_view()),
{
    let mut out: Vec<EntryDetail> = Vec::new();
    let mut i: usize = 0;
    while i < items.len()
        invariant
            i <= items.len(),
            out.len() == i,
            forall|k: int|
                0 <= k < i ==> (#[trigger] out@[k])@ == T::detail(scope_id@, items@[k].deep_view()),
        decreases items.len() - i,
    {
        out.push(items[i].to_detail(scope_id));
        i += 1;
    }
    assert(out.deep_view() =~= details_of::<T>(scope_id@, items.deep_view()));
    out
}

/// Puts a record for each entry at the end of a registry.
pub fn push_records<T: FromEntry>(items: &mut Vec<T>, details: &Vec<EntryDetail>)
    ensures
        final(items).deep_view() == old(items).deep_view() + records_of::<T>(details.deep_view()),
{
    let ghost start = items.deep_view();
    let ghost all = records_of::<T>(details.deep_view());
    let mut i: usize = 0;
    assert(start + all.take(0) =~= start);
    while i < details.len()
        invariant
            i <= details.len(),
            all == records_of::<T>(details.deep_view()),
            items.deep_view() == start + all.take(i as int),
        decreases details.len() - i,
    {
        let ghost now = items.deep_view();
        items.push(T::make(&details[i]));
        assert(items.deep_view() =~= now.push(all[i as int]));
        assert(start + all.take(i + 1) =~= (start + all.take(i as int)).push(all[i as int]));
        i += 1;
    }
    assert(all.take(all.len() as int) =~= all);
}

/// Places the owners of the entries in the scope.
pub fn place_apps(map: &mut Vec<AppScope>, details: &Vec<EntryDetail>, scope_id: &str)
    ensures
        final(map).deep_view() == apps_placed(old(map).deep_view(), details.deep_view(), scope_id@),
{
    let ghost start = map.deep_view();
    let ghost all = details.deep_view();
    let mut i: usize = 0;
    assert(all.take(0) =~= Seq::<EntryDetailView>::empty());
    while i < details.len()
        invariant
            i <= details.len(),
            all == details.deep_view(),
            map.deep_view() == apps_placed(start, all.take(i as int), scope_id@),
        decreases details.len() - i,
    {
        let ghost now = map.deep_view();
        proof {
            assert(all.take(i + 1).drop_last() =~= all.take(i as int));
            assert(all.take(i + 1).last() == all[i as int]);
        }
        let d = &details[i];
        let is_app = match &d.owner_kind {
            Some(k) => str_eq(k.as_str(), "app"),
            None => false,
        };
        if is_app {
            match &d.owner_id {
                Some(id) => {
                    if !str_eq(id.as_str(), scope_id) {
                        match position(map, id.as_str()) {
                            Some(k) => {
                                let mut entry = map.remove(k);
                                entry.scope_id = scope_id.to_owned();
                                map.insert(k, entry);
                                assert(map.deep_view() =~= app_placed(now, id@, scope_id@));
                            },
                            None => {
                                map.push(
                                    AppScope { app_id: id.clone(), scope_id: scope_id.to_owned() },
                                );
                                assert(map.deep_view() =~= app_placed(now, id@, scope_id@));
                            },
                        }
                    }
                },
                None => {},
            }
        }
        i += 1;
    }
    assert(all.take(all.len() as int) =~= all);
}

fn snapshot_session_exec(s: SessionState) -> (r: SessionInfo)
    ensures
        r@ == snapshot_session(s@),
{
    SessionInfo {
        id: s.session_id,
        transport_type: Some(s.transport_type),
        client_name: match &s.client_info {
            Some(c) => Some(c.name.clone()),
            None => None,
        },
        client_version: match &s.client_info {
            Some(c) => Some(c.version.clone()),
            None => None,
        },
        user_agent: None,
        connected_at: s.connected_at,
        is_active: true,
        auth_mode: s.auth_mode,
        auth_user_name: match &s.auth_user {
            Some(u) => match &u.name {
                Some(n) => Some(n.clone()),
                None => None,
            },
            None => None,
        },
        auth_user_email: match &s.auth_user {
            Some(u) => match &u.email {
                Some(n) => Some(n.clone()),
                None => None,
            },
            None => None,
        },
        is_anonymous: s.is_anonymous,
    }
}

impl DashboardState {
    /// Takes in one scope of a snapshot.
    pub fn take_scope(&mut self, scope: &ScopeState)
        ensures
            final(self)@ == old(self)@.scope_taken(scope@),
    {
        let id = scope.id.as_str();
        let ghost scopes = self.scopes.deep_view();
        self.scopes.push(ScopeInfo { id: scope.id.clone(), name: scope.id.clone() });
        assert(self.scopes.deep_view() =~= scopes.push(
            ScopeInfoView { id: scope@.id, name: scope@.id },
        ));
        let tools = details_of_exec(id, &scope.tools);
        push_records(&mut self.tools, &tools);
        place_apps(&mut self.app_scope_map, &tools, id);
        let resources = details_of_exec(id, &scope.resources);
        push_records(&mut self.resources, &resources);
        place_apps(&mut self.app_scope_map, &resources, id);
        let prompts = details_of_exec(id, &scope.prompts);
        push_records(&mut self.prompts, &prompts);
        place_apps(&mut self.app_scope_map, &prompts, id);
        let plugins = details_of_exec(id, &scope.plugins);
        push_records(&mut self.plugins, &plugins);
        place_apps(&mut self.app_scope_map, &plugins, id);
        let adapters = details_of_exec(id, &scope.adapters);
        push_records(&mut self.adapters, &adapters);
        place_apps(&mut self.app_scope_map, &adapters, id);
        let ghost apps = self.apps.deep_view();
        let app = AppInfo {
            id: scope.id.clone(),
            name: scope.id.clone(),
            tool_count: scope.tools.len(),
            resource_count: scope.resources.len(),
            prompt_count: scope.prompts.len(),
            plugin_count: scope.plugins.len(),
        };
        let ghost a = app@;
        self.apps.push(app);
        assert(self.apps.deep_view() =~= apps.push(a));
    }

    /// Empties what a snapshot replaces, and takes in what it tells of the server.
    pub fn clear_for_snapshot(&mut self, name: String, version: String)
        ensures
            final(self)@ == (DashboardStateView {
                server: ServerStatusView {
                    name: Some(name@),
                    version: Some(version@),
                    is_ready: true,
                    ..old(self)@.server
                },
                tools: Seq::empty(),
                resources: Seq::empty(),
                prompts: Seq::empty(),
                plugins: Seq::empty(),
                adapters: Seq::empty(),
                scopes: Seq::empty(),
                app_scope_map: Seq::empty(),
                ..old(self)@
            }),
    {
        self.server.name = Some(name);
        self.server.version = Some(version);
        self.server.is_ready = true;
        self.tools.clear();
        self.resources.clear();
        self.prompts.clear();
        self.plugins.clear();
        self.adapters.clear();
        self.scopes.clear();
        self.app_scope_map.clear();
        proof {
            assert(self.tools.deep_view() =~= Seq::empty());
            assert(self.resources.deep_view() =~= Seq::empty());
            assert(self.prompts.deep_view() =~= Seq::empty());
            assert(self.plugins.deep_view() =~= Seq::empty());
            assert(self.adapters.deep_view() =~= Seq::empty());
            assert(self.scopes.deep_view() =~= Seq::empty());
            assert(self.app_scope_map.deep_view() =~= Seq::empty());
        }
    }

    /// Takes in the scopes of a snapshot, in order.
    pub fn take_scopes(&mut self, scopes: &Vec<ScopeState>)
        ensures
            final(self)@ == old(self)@.scopes_taken(scopes.deep_view()),
    {
        let ghost start = self@;
        let ghost all = scopes.deep_view();
        let mut i: usize = 0;
        assert(all.take(0) =~= Seq::<ScopeStateView>::empty());
        while i < scopes.len()
            invariant
                i <= scopes.len(),
                scopes.deep_view() == all,
                self@ == start.scopes_taken(all.take(i as int)),
            decreases scopes.len() - i,
        {
            proof {
                assert(all.take(i + 1).drop_last() =~= all.take(i as int));
                assert(all.take(i + 1).last() == all[i as int]);
            }
            self.take_scope(&scopes[i]);
            i += 1;
        }
        assert(all.take(all.len() as int) =~= all);
    }

    /// Takes in the sessions of a snapshot, in order.
    pub fn take_sessions(&mut self, sessions: Vec<SessionState>)
        ensures
            final(self)@ == old(self)@.sessions_taken(sessions.deep_view()),
    {
        let ghost start = self@;
        let ghost all = sessions.deep_view();
        let ghost mut done: int = 0;
        let mut sessions = sessions;
        assert(all.take(0) =~= Seq::<SessionStateView>::empty());
        assert(all.skip(0) =~= all);
        while sessions.len() > 0
            invariant
                0 <= done <= all.len(),
                sessions.len() == all.len() - done,
                sessions.deep_view() == all.skip(done),
                self@ == start.sessions_taken(all.take(done)),
            decreases sessions.len(),
        {
            let ghost rest = sessions.deep_view();
            let s = sessions.remove(0);
            proof {
                assert(rest[0] == all.skip(done)[0]);
                assert(s@ == all[done]);
                assert(sessions.deep_view() =~= rest.skip(1));
                assert(all.skip(done).skip(1) =~= all.skip(done + 1));
                assert(all.take(done + 1).drop_last() =~= all.take(done));
                assert(all.take(done + 1).last() == all[done]);
                done = done + 1;
            }
            self.open_session(snapshot_session_exec(s));
        }
        assert(all.take(all.len() as int) =~= all);
    }

    /// The message that tells what a snapshot brought.
    pub fn snapshot_message(&self) -> (r: String)
        ensures
            r@ == self@.snapshot_message(),
    {
        let mut message = "Connected to server: ".to_owned();
        message.append(decimal_string(self.tools.len() as u64).as_str());
        message.append(" tools, ");
        message.append(decimal_string(self.resources.len() as u64).as_str());
        message.append(" resources, ");
        message.append(decimal_string(self.prompts.len() as u64).as_str());
        message.append(" prompts, ");
        message.append(decimal_string(self.plugins.len() as u64).as_str());
        message.append(" plugins, ");
        message.append(decimal_string(self.adapters.len() as u64).as_str());
        message.append(" adapters, ");
        message.append(decimal_string(self.sessions.len() as u64).as_str());
        message.append(" sessions");
        message
    }

    /// Takes in a snapshot of the whole server, at the time `now`.
    pub fn handle_state_snapshot_at(&mut self, snapshot: StateSnapshot, now: u64)
        ensures
            final(self)@ == old(self)@.snapshot_folded(snapshot@, now),
            final(self)@.apps_counted(),
    {
        self.clear_for_snapshot(snapshot.server.name, snapshot.server.version);
        self.take_scopes(&snapshot.scopes);
        self.take_sessions(snapshot.sessions);
        self.update_overview_sessions();
        self.update_overview_registry();
        self.overview.server_address = match &self.server.address {
            Some(a) => Some(a.clone()),
            None => None,
        };
        let message = self.snapshot_message();
        self.add_log_at(now, LogLevel::Info, message, "system");
    }

    /// Takes in a snapshot of the whole server, at the present time.
    pub fn handle_state_snapshot(&mut self, snapshot: StateSnapshot)
        ensures
            exists|now: u64| final(self)@ == old(self)@.snapshot_folded(snapshot@, now),
            final(self)@.apps_counted(),
    {
        let now = crate::clock::now_millis();
        self.handle_state_snapshot_at(snapshot, now);
    }
}

} // verus!
