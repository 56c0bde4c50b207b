//! Computing the rows of the ownership graph.

use crate::state::graph::{admits_entry, app_inserted, app_rows, apps_rows, apps_sorted, container_owner_ids, container_rows, deeper, distinct, entry_owner_ids, entry_row, entry_rows, headed, other_than, owned_by, rows_of_containers, rows_of_entries, scope_rows, toggled, with_key, without_key, AppFilter, Container, GraphNode, GraphNodeView, InferredApp, InferredAppView, OwnedEntry, OwnerRule, OwnerRuleView, Row};
use crate::state::keyed::{position, sorted_refs, text_in_list};
use crate::state::model::{AdapterInfo, DashboardState, DashboardStateView, PluginInfo, PromptInfo, ResourceInfo, ToolInfo};
use crate::text::{clone_text, chars_of, concat, str_eq, text_le_exec};
use vstd::prelude::*;

verus! {

/// Which apps a part of the graph shows.
pub enum AppPick<'a> {
    All,
    InScope(&'a str),
    Orphans,
}

impl<'a> View for AppPick<'a> {
    type V = AppFilter;

    open spec fn view(&self) -> AppFilter {
        match self {
            AppPick::All => AppFilter::All,
            AppPick::InScope(s) => AppFilter::InScope(s@),
            AppPick::Orphans => AppFilter::Orphans,
        }
    }
}

fn text_is(text: &Option<String>, wanted: &str) -> (r: bool)
    ensures
        r == (text.deep_view() == Some(wanted@)),
{
    match text {
        Some(t) => str_eq(t.as_str(), wanted),
        None => false,
    }
}

fn is_app_or_scope_exec(kind: &Option<String>) -> (r: bool)
    ensures
        r == crate::state::graph::is_app_or_scope(kind.deep_view()),
{
    text_is(kind, "app") || text_is(kind, "scope")
}

fn rule_admits(rule: &OwnerRule, kind: &Option<String>, id: &Option<String>) -> (r: bool)
    ensures
        r == rule@.admits(kind.deep_view(), id.deep_view()),
{
    match rule {
        OwnerRule::Exactly(k, i) => text_is(kind, k) && text_is(id, i),
        OwnerRule::AppOrScope(i) => is_app_or_scope_exec(kind) && text_is(id, i),
        OwnerRule::Direct => kind.is_none(),
    }
}

/// A copy of a node.
pub fn clone_node(node: &GraphNode) -> (r: GraphNode)
    ensures
        r@ == node@,
{
    match node {
        GraphNode::Server => GraphNode::Server,
        GraphNode::Scope { id, name } => GraphNode::Scope { id: id.clone(), name: name.clone() },
        GraphNode::App { id, name, scope_id } => GraphNode::App {
            id: id.clone(),
            name: name.clone(),
            scope_id: clone_text(scope_id),
        },
        GraphNode::Plugin { name, owner_app } => GraphNode::Plugin {
            name: name.clone(),
            owner_app: owner_app.clone(),
        },
        GraphNode::Adapter { name, owner_app } => GraphNode::Adapter {
            name: name.clone(),
            owner_app: owner_app.clone(),
        },
        GraphNode::Tool { name, owner_kind, owner_id } => GraphNode::Tool {
            name: name.clone(),
            owner_kind: clone_text(owner_kind),
            owner_id: clone_text(owner_id),
        },
        GraphNode::Resource { name, owner_kind, owner_id } => GraphNode::Resource {
            name: name.clone(),
            owner_kind: clone_text(owner_kind),
            owner_id: clone_text(owner_id),
        },
        GraphNode::Prompt { name, owner_kind, owner_id } => GraphNode::Prompt {
            name: name.clone(),
            owner_kind: clone_text(owner_kind),
            owner_id: clone_text(owner_id),
        },
        GraphNode::DirectHeader => GraphNode::DirectHeader,
    }
}

fn push_entry_rows<T: OwnedEntry>(
    rows: &mut Vec<(GraphNode, usize)>,
    items: &Vec<T>,
    rule: &OwnerRule,
    depth: usize,
)
    ensures
        final(rows).deep_view() == old(rows).deep_view() + entry_rows::<T>(
            items.deep_view(),
            rule@,
            depth,
        ),
{
    let ghost start = rows.deep_view();
    let sorted = sorted_refs(items);
    let ghost all = sorted.deep_view();
    let ghost keep = admits_entry::<T>(rule@);
    let mut i: usize = 0;
    proof {
        assert(all.take(0) =~= Seq::<T::V>::empty());
        assert(all.take(0).filter(keep) =~= Seq::<T::V>::empty());
        assert(start + rows_of_entries::<T>(Seq::<T::V>::empty(), rule@, depth) =~= start);
    }
    while i < sorted.len()
        invariant
            i <= sorted.len(),
            all == sorted.deep_view(),
            keep == admits_entry::<T>(rule@),
            rows.deep_view() == start + rows_of_entries::<T>(
                all.take(i as int).filter(keep),
                rule@,
                depth,
            ),
        decreases sorted.len() - i,
    {
        let ghost now = rows.deep_view();
        let ghost shown = all.take(i as int).filter(keep);
        proof {
            assert(all.take(i + 1) =~= all.take(i as int).push(all[i as int]));
            all.take(i as int).lemma_filter_push(all[i as int], keep);
        }
        let x = sorted[i];
        if rule_admits(rule, x.owner_kind(), x.owner_id()) {
            let node = match rule {
                OwnerRule::Direct => T::node(x.key().clone(), None, None),
                _ => T::node(x.key().clone(), clone_text(x.owner_kind()), clone_text(x.owner_id())),
            };
            let ghost row = (node@, depth);
            rows.push((node, depth));
            proof {
                assert(row == entry_row::<T>(all[i as int], rule@, depth));
                assert(rows.deep_view() =~= now.push(row));
                assert(rows_of_entries::<T>(shown.push(all[i as int]), rule@, depth)
                    =~= rows_of_entries::<T>(shown, rule@, depth).push(row));
                assert(start + rows_of_entries::<T>(shown, rule@, depth).push(row) =~= (start
                    + rows_of_entries::<T>(shown, rule@, depth)).push(row));
            }
        }
        i += 1;
    }
    assert(all.take(all.len() as int) =~= all);
}

fn deeper_exec(depth: usize, by: usize) -> (r: usize)
    ensures
        r == deeper(depth, by as nat),
{
    depth.saturating_add(by)
}

fn push_container_rows<C: Container>(
    rows: &mut Vec<(GraphNode, usize)>,
    state: &DashboardState,
    items: &Vec<C>,
    app_id: &str,
    depth: usize,
)
    ensures
        final(rows).deep_view() == old(rows).deep_view() + container_rows::<C>(
            state@,
            items.deep_view(),
            app_id@,
            depth,
        ),
{
    let ghost start = rows.deep_view();
    let sorted = sorted_refs(items);
    let ghost all = sorted.deep_view();
    let ghost keep = owned_by::<C>(app_id@);
    let mut i: usize = 0;
    proof {
        assert(all.take(0) =~= Seq::<C::V>::empty());
        assert(all.take(0).filter(keep) =~= Seq::<C::V>::empty());
        assert(start + Seq::<Row>::empty() =~= start);
    }
    while i < sorted.len()
        invariant
            i <= sorted.len(),
            all == sorted.deep_view(),
            keep == owned_by::<C>(app_id@),
            rows.deep_view() == start + rows_of_containers::<C>(
                state@,
                all.take(i as int).filter(keep),
                app_id@,
                depth,
            ),
        decreases sorted.len() - i,
    {
        let ghost now = rows.deep_view();
        let ghost shown = all.take(i as int).filter(keep);
        let ghost before = rows_of_containers::<C>(state@, shown, app_id@, depth);
        proof {
            assert(all.take(i + 1) =~= all.take(i as int).push(all[i as int]));
            all.take(i as int).lemma_filter_push(all[i as int], keep);
            assert(shown.push(all[i as int]).drop_last() =~= shown);
            assert(shown.push(all[i as int]).last() == all[i as int]);
        }
        let c = sorted[i];
        if text_is(c.owner(), app_id) {
            let node = C::node(c.key().clone(), app_id.to_owned());
            let ghost row = (node@, deeper(depth, 1));
            rows.push((node, deeper_exec(depth, 1)));
            assert(rows.deep_view() =~= now.push(row));
            assert(start + before.push(row) =~= (start + before).push(row));
            let key = concat(C::prefix(), c.key().as_str());
            if text_in_list(&state.graph_expanded, key.as_str()) {
                let ghost tools = entry_rows::<ToolInfo>(
                    state@.tools,
                    OwnerRuleView::Exactly(C::kind_text(), C::key_of(all[i as int])),
                    deeper(depth, 2),
                );
                push_entry_rows(
                    rows,
                    &state.tools,
                    &OwnerRule::Exactly(C::kind(), c.key().as_str()),
                    deeper_exec(depth, 2),
                );
                assert(start + (before.push(row) + tools) =~= (start + before).push(row) + tools);
            }
        }
        i += 1;
    }
    assert(all.take(all.len() as int) =~= all);
}

fn push_app_rows(rows: &mut Vec<(GraphNode, usize)>, state: &DashboardState, app: &InferredApp, depth: usize)
    ensures
        final(rows).deep_view() == old(rows).deep_view() + app_rows(
            state@,
            app@,
            app@.scope_id,
            depth,
        ),
{
    let ghost start = rows.deep_view();
    let node = GraphNode::App {
        id: app.id.clone(),
        name: app.name.clone(),
        scope_id: clone_text(&app.scope_id),
    };
    let ghost head = seq![(node@, depth)];
    rows.push((node, depth));
    assert(rows.deep_view() =~= start + head);
    if text_in_list(&state.graph_expanded, app.id.as_str()) {
        let id = app.id.as_str();
        let next = deeper_exec(depth, 1);
        let ghost a = container_rows::<AdapterInfo>(state@, state@.adapters, id@, depth);
        let ghost p = container_rows::<PluginInfo>(state@, state@.plugins, id@, depth);
        let ghost t = entry_rows::<ToolInfo>(state@.tools, OwnerRuleView::AppOrScope(id@), next);
        let ghost r = entry_rows::<ResourceInfo>(
            state@.resources,
            OwnerRuleView::AppOrScope(id@),
            next,
        );
        let ghost q = entry_rows::<PromptInfo>(state@.prompts, OwnerRuleView::AppOrScope(id@), next);
        push_container_rows(rows, state, &state.adapters, id, depth);
        push_container_rows(rows, state, &state.plugins, id, depth);
        push_entry_rows(rows, &state.tools, &OwnerRule::AppOrScope(id), next);
        push_entry_rows(rows, &state.resources, &OwnerRule::AppOrScope(id), next);
        push_entry_rows(rows, &state.prompts, &OwnerRule::AppOrScope(id), next);
        assert(start + head + a + p + t + r + q =~= start + (head + a + p + t + r + q));
    }
}

fn pick_admits(pick: &AppPick, app: &InferredApp) -> (r: bool)
    ensures
        r == pick@.admits(app@),
{
    match pick {
        AppPick::All => true,
        AppPick::InScope(s) => text_is(&app.scope_id, s),
        AppPick::Orphans => app.scope_id.is_none(),
    }
}

fn push_apps_rows(
    rows: &mut Vec<(GraphNode, usize)>,
    state: &DashboardState,
    apps: &Vec<InferredApp>,
    pick: &AppPick,
    depth: usize,
)
    ensures
        final(rows).deep_view() == old(rows).deep_view() + apps_rows(
            state@,
            apps.deep_view(),
            pick@,
            depth,
        ),
{
    let ghost start = rows.deep_view();
    let ghost all = apps.deep_view();
    let mut i: usize = 0;
    assert(all.take(0) =~= Seq::<InferredAppView>::empty());
    assert(start + Seq::<Row>::empty() =~= start);
    while i < apps.len()
        invariant
            i <= apps.len(),
            all == apps.deep_view(),
            rows.deep_view() == start + apps_rows(state@, all.take(i as int), pick@, depth),
        decreases apps.len() - i,
    {
        let ghost before = apps_rows(state@, all.take(i as int), pick@, depth);
        proof {
            assert(all.take(i + 1).drop_last() =~= all.take(i as int));
            assert(all.take(i + 1).last() == all[i as int]);
        }
        if pick_admits(pick, &apps[i]) {
            let ghost own = app_rows(state@, all[i as int], all[i as int].scope_id, depth);
            push_app_rows(rows, state, &apps[i], depth);
            assert(start + before + own =~= start + (before + own));
        }
        i += 1;
    }
    assert(all.take(all.len() as int) =~= all);
}

fn push_scope_rows(rows: &mut Vec<(GraphNode, usize)>, state: &DashboardState, apps: &Vec<InferredApp>)
    ensures
        final(rows).deep_view() == old(rows).deep_view() + scope_rows(
            state@,
            apps.deep_view(),
            state@.scopes,
        ),
{
    let ghost start = rows.deep_view();
    let ghost all = state@.scopes;
    let mut i: usize = 0;
    assert(all.take(0) =~= Seq::<crate::state::model::ScopeInfoView>::empty());
    assert(start + Seq::<Row>::empty() =~= start);
    while i < state.scopes.len()
        invariant
            i <= state.scopes.len(),
            all == state@.scopes,
            all == state.scopes.deep_view(),
            rows.deep_view() == start + scope_rows(state@, apps.deep_view(), all.take(i as int)),
        decreases state.scopes.len() - i,
    {
        let ghost now = rows.deep_view();
        let ghost before = scope_rows(state@, apps.deep_view(), all.take(i as int));
        proof {
            assert(all.take(i + 1).drop_last() =~= all.take(i as int));
            assert(all.take(i + 1).last() == all[i as int]);
        }
        let scope = &state.scopes[i];
        let node = GraphNode::Scope { id: scope.id.clone(), name: scope.name.clone() };
        let ghost row = (node@, 1usize);
        rows.push((node, 1));
        assert(rows.deep_view() =~= now.push(row));
        assert(start + before.push(row) =~= (start + before).push(row));
        let key = concat("scope:", scope.id.as_str());
        if text_in_list(&state.graph_expanded, key.as_str()) {
            let ghost own = apps_rows(state@, apps.deep_view(), AppFilter::InScope(scope@.id), 2);
            push_apps_rows(rows, state, apps, &AppPick::InScope(scope.id.as_str()), 2);
            assert(start + (before.push(row) + own) =~= (start + before).push(row) + own);
        }
        i += 1;
    }
    assert(all.take(all.len() as int) =~= all);
}

fn push_headed(rows: &mut Vec<(GraphNode, usize)>, under: Vec<(GraphNode, usize)>)
    ensures
        final(rows).deep_view() == old(rows).deep_view() + headed(under.deep_view()),
{
    let ghost start = rows.deep_view();
    let ghost all = under.deep_view();
    if under.len() > 0 {
        rows.push((GraphNode::DirectHeader, 1));
        let ghost with_head = rows.deep_view();
        assert(with_head =~= start + seq![(GraphNodeView::DirectHeader, 1usize)]);
        let mut under = under;
        rows.append(&mut under);
        assert(rows.deep_view() =~= with_head + all);
        assert(with_head + all =~= start + headed(all));
    } else {
        assert(start + headed(all) =~= start);
    }
}

// ---------------------------------------------------------------------------
// The apps
// ---------------------------------------------------------------------------

fn push_entry_owner_ids<T: OwnedEntry>(ids: &mut Vec<String>, items: &Vec<T>)
    ensures
        final(ids).deep_view() == old(ids).deep_view() + entry_owner_ids::<T>(items.deep_view()),
{
    let ghost start = ids.deep_view();
    let ghost all = items.deep_view();
    let mut i: usize = 0;
    assert(all.take(0) =~= Seq::<T::V>::empty());
    assert(start + Seq::<Seq<char>>::empty() =~= start);
    while i < items.len()
        invariant
            i <= items.len(),
            all == items.deep_view(),
            ids.deep_view() == start + entry_owner_ids::<T>(all.take(i as int)),
        decreases items.len() - i,
    {
        let ghost now = ids.deep_view();
        let ghost before = entry_owner_ids::<T>(all.take(i as int));
        proof {
            assert(all.take(i + 1).drop_last() =~= all.take(i as int));
            assert(all.take(i + 1).last() == all[i as int]);
        }
        let x = &items[i];
        if is_app_or_scope_exec(x.owner_kind()) {
            match x.owner_id() {
                Some(id) => {
                    ids.push(id.clone());
                    assert(ids.deep_view() =~= now.push(id@));
                    assert(start + before.push(id@) =~= (start + before).push(id@));
                },
                None => {},
            }
        }
        i += 1;
    }
    assert(all.take(all.len() as int) =~= all);
}

fn push_container_owner_ids<C: Container>(ids: &mut Vec<String>, items: &Vec<C>)
    ensures
        final(ids).deep_view() == old(ids).deep_view() + container_owner_ids::<C>(
            items.deep_view(),
        ),
{
    let ghost start = ids.deep_view();
    let ghost all = items.deep_view();
    let mut i: usize = 0;
    assert(all.take(0) =~= Seq::<C::V>::empty());
    assert(start + Seq::<Seq<char>>::empty() =~= start);
    while i < items.len()
        invariant
            i <= items.len(),
            all == items.deep_view(),
            ids.deep_view() == start + container_owner_ids::<C>(all.take(i as int)),
        decreases items.len() - i,
    {
        let ghost now = ids.deep_view();
        let ghost before = container_owner_ids::<C>(all.take(i as int));
        proof {
            assert(all.take(i + 1).drop_last() =~= all.take(i as int));
            assert(all.take(i + 1).last() == all[i as int]);
        }
        match items[i].owner() {
            Some(id) => {
                ids.push(id.clone());
                assert(ids.deep_view() =~= now.push(id@));
                assert(start + before.push(id@) =~= (start + before).push(id@));
            },
            None => {},
        }
        i += 1;
    }
    assert(all.take(all.len() as int) =~= all);
}

fn distinct_exec(texts: &Vec<String>) -> (r: Vec<String>)
    ensures
        r.deep_view() == distinct(texts.deep_view()),
{
    let ghost all = texts.deep_view();
    let mut out: Vec<String> = Vec::new();
    let mut i: usize = 0;
    assert(all.take(0) =~= Seq::<Seq<char>>::empty());
    assert(out.deep_view() =~= Seq::<Seq<char>>::empty());
    while i < texts.len()
        invariant
            i <= texts.len(),
            all == texts.deep_view(),
            out.deep_view() == distinct(all.take(i as int)),
        decreases texts.len() - i,
    {
        let ghost now = out.deep_view();
        proof {
            assert(all.take(i + 1).drop_last() =~= all.take(i as int));
            assert(all.take(i + 1).last() == all[i as int]);
        }
        if !text_in_list(&out, texts[i].as_str()) {
            out.push(texts[i].clone());
            assert(out.deep_view() =~= now.push(all[i as int]));
        }
        i += 1;
    }
    assert(all.take(all.len() as int) =~= all);
    out
}

fn name_comes_first(app: &InferredApp, name: &Vec<char>) -> (r: bool)
    ensures
        r == crate::text::text_le(app@.name, name@),
{
    let own = chars_of(app.name.as_str());
    text_le_exec(&own, name)
}

fn insert_app(apps: &mut Vec<InferredApp>, app: InferredApp)
    ensures
        final(apps).deep_view() == app_inserted(old(apps).deep_view(), app@),
{
    let ghost all = apps.deep_view();
    let name = chars_of(app.name.as_str());
    let mut k: usize = apps.len();
    assert(all.take(k as int) =~= all);
    assert(app_inserted(all, app@) + all.skip(k as int) =~= app_inserted(all, app@));
    while k > 0 && !name_comes_first(&apps[k - 1], &name)
        invariant
            k <= apps.len(),
            all == apps.deep_view(),
            name@ == app@.name,
            app_inserted(all, app@) == app_inserted(all.take(k as int), app@) + all.skip(k as int),
        decreases k,
    {
        proof {
            assert(all.take(k as int).last() == all[k - 1]);
            assert(all.take(k as int).drop_last() =~= all.take(k - 1));
            let inner = app_inserted(all.take(k - 1), app@);
            assert(inner.push(all[k - 1]) + all.skip(k as int) =~= inner + all.skip(k - 1));
        }
        k -= 1;
    }
    let ghost a = app@;
    proof {
        if k == 0 {
            assert(all.take(0) =~= Seq::<InferredAppView>::empty());
        } else {
            assert(all.take(k as int).last() == all[k - 1]);
        }
        assert(app_inserted(all.take(k as int), a) =~= all.take(k as int).push(a));
    }
    apps.insert(k, app);
    assert(apps.deep_view() =~= all.take(k as int).push(a) + all.skip(k as int));
}

fn app_of_exec(state: &DashboardState, id: &String) -> (r: InferredApp)
    ensures
        r@ == state@.app_of(id@),
{
    let name = match position(&state.apps, id.as_str()) {
        Some(i) => state.apps[i].name.clone(),
        None => id.clone(),
    };
    let scope_id = match position(&state.app_scope_map, id.as_str()) {
        Some(i) => Some(state.app_scope_map[i].scope_id.clone()),
        None => match position(&state.scopes, id.as_str()) {
            Some(i) => Some(state.scopes[i].id.clone()),
            None => None,
        },
    };
    InferredApp { id: id.clone(), name, scope_id }
}

/// The apps, inferred from the owners of the entries, in the order of their names.
pub fn infer_apps(state: &DashboardState) -> (r: Vec<InferredApp>)
    ensures
        r.deep_view() == state@.inferred_apps(),
{
    let mut all: Vec<String> = Vec::new();
    assert(all.deep_view() =~= Seq::<Seq<char>>::empty());
    push_entry_owner_ids(&mut all, &state.tools);
    push_entry_owner_ids(&mut all, &state.resources);
    push_entry_owner_ids(&mut all, &state.prompts);
    push_container_owner_ids(&mut all, &state.plugins);
    push_container_owner_ids(&mut all, &state.adapters);
    assert(all.deep_view() =~= state@.owner_ids());
    let ids = distinct_exec(&all);
    let ghost found = state@.apps_of(ids.deep_view());
    let mut out: Vec<InferredApp> = Vec::new();
    let mut i: usize = 0;
    assert(found.take(0) =~= Seq::<InferredAppView>::empty());
    assert(out.deep_view() =~= Seq::<InferredAppView>::empty());
    while i < ids.len()
        invariant
            i <= ids.len(),
            found == state@.apps_of(ids.deep_view()),
            out.deep_view() == apps_sorted(found.take(i as int)),
        decreases ids.len() - i,
    {
        proof {
            assert(found.take(i + 1).drop_last() =~= found.take(i as int));
            assert(found.take(i + 1).last() == found[i as int]);
        }
        insert_app(&mut out, app_of_exec(state, &ids[i]));
        i += 1;
    }
    assert(found.take(found.len() as int) =~= found);
    out
}

/// The graph as its rows from top to bottom.
pub fn build_graph_nodes(state: &DashboardState) -> (r: Vec<(GraphNode, usize)>)
    ensures
        r.deep_view() == state@.graph_rows(),
{
    let apps = infer_apps(state);
    let mut rows: Vec<(GraphNode, usize)> = Vec::new();
    rows.push((GraphNode::Server, 0));
    let ghost top = seq![(GraphNodeView::Server, 0usize)];
    assert(rows.deep_view() =~= top);
    if state.scopes.len() > 1 {
        push_scope_rows(&mut rows, state, &apps);
        let mut orphans: Vec<(GraphNode, usize)> = Vec::new();
        assert(orphans.deep_view() =~= Seq::<Row>::empty());
        push_apps_rows(&mut orphans, state, &apps, &AppPick::Orphans, 2);
        assert(orphans.deep_view() =~= apps_rows(
            state@,
            apps.deep_view(),
            AppFilter::Orphans,
            2,
        ));
        push_headed(&mut rows, orphans);
    } else {
        push_apps_rows(&mut rows, state, &apps, &AppPick::All, 1);
        let mut direct: Vec<(GraphNode, usize)> = Vec::new();
        assert(direct.deep_view() =~= Seq::<Row>::empty());
        push_entry_rows(&mut direct, &state.tools, &OwnerRule::Direct, 2);
        push_entry_rows(&mut direct, &state.resources, &OwnerRule::Direct, 2);
        push_entry_rows(&mut direct, &state.prompts, &OwnerRule::Direct, 2);
        assert(direct.deep_view() =~= state@.direct_rows());
        push_headed(&mut rows, direct);
    }
    rows
}

/// The node of the row, if there is such a row.
pub fn get_node_at_index(state: &DashboardState, index: usize) -> (r: Option<GraphNode>)
    ensures
        r.deep_view() == state@.node_at(index as nat),
{
    let rows = build_graph_nodes(state);
    if index < rows.len() {
        Some(clone_node(&rows[index].0))
    } else {
        None
    }
}

impl DashboardState {
    /// How many rows the graph has.
    pub fn graph_tree_len(&self) -> (r: usize)
        ensures
            r == self@.graph_rows().len(),
    {
        build_graph_nodes(self).len()
    }

    /// Expands the node of the key.
    pub fn expand_graph_node(&mut self, id: &str)
        ensures
            final(self)@ == (DashboardStateView {
                graph_expanded: with_key(old(self)@.graph_expanded, id@),
                ..old(self)@
            }),
    {
        let ghost keys = self.graph_expanded.deep_view();
        if !text_in_list(&self.graph_expanded, id) {
            self.graph_expanded.push(id.to_owned());
            assert(self.graph_expanded.deep_view() =~= keys.push(id@));
        }
    }

    /// Collapses the node of the key.
    pub fn collapse_graph_node(&mut self, id: &str)
        ensures
            final(self)@ == (DashboardStateView {
                graph_expanded: without_key(old(self)@.graph_expanded, id@),
                ..old(self)@
            }),
    {
        let ghost before = self.graph_expanded.deep_view();
        let ghost pred = other_than(id@);
        let ghost mut done: int = 0;
        let mut i: usize = 0;
        assert(before.take(0) =~= Seq::<Seq<char>>::empty());
        assert(before.skip(0) =~= before);
        assert(self.graph_expanded.deep_view().take(0) =~= Seq::<Seq<char>>::empty());
        assert(self.graph_expanded.deep_view().skip(0) =~= before);
        while i < self.graph_expanded.len()
            invariant
                0 <= done <= before.len(),
                i <= self.graph_expanded.len(),
                self.graph_expanded.len() - i == before.len() - done,
                self.graph_expanded.deep_view().take(i as int) == before.take(done).filter(pred),
                self.graph_expanded.deep_view().skip(i as int) == before.skip(done),
                pred == other_than(id@),
                self@ == (DashboardStateView {
                    graph_expanded: self.graph_expanded.deep_view(),
                    ..old(self)@
                }),
            decreases self.graph_expanded.len() - i,
        {
            let ghost now = self.graph_expanded.deep_view();
            proof {
                assert(now[i as int] == now.skip(i as int)[0]);
                assert(now[i as int] == before[done]);
                assert(before.take(done + 1) =~= before.take(done).push(before[done]));
                before.take(done).lemma_filter_push(before[done], pred);
            }
            if str_eq(self.graph_expanded[i].as_str(), id) {
                self.graph_expanded.remove(i);
                proof {
                    assert(self.graph_expanded.deep_view() =~= now.remove(i as int));
                    assert(self.graph_expanded.deep_view().take(i as int) =~= now.take(i as int));
                    assert(self.graph_expanded.deep_view().skip(i as int) =~= now.skip(
                        i as int,
                    ).skip(1));
                    assert(before.skip(done).skip(1) =~= before.skip(done + 1));
                    done = done + 1;
                }
            } else {
                proof {
                    assert(now.take(i + 1) =~= now.take(i as int).push(now[i as int]));
                    assert(now.skip(i + 1) =~= now.skip(i as int).skip(1));
                    assert(before.skip(done).skip(1) =~= before.skip(done + 1));
                    done = done + 1;
                }
                i += 1;
            }
        }
        assert(self.graph_expanded.deep_view().take(i as int) =~= self.graph_expanded.deep_view());
        assert(before.take(done) =~= before);
    }

    /// Expands the node of the key if it is collapsed, and collapses it if
    /// it is expanded.
    pub fn toggle_graph_expand(&mut self, id: &str)
        ensures
            final(self)@ == (DashboardStateView {
                graph_expanded: toggled(old(self)@.graph_expanded, id@),
                ..old(self)@
            }),
    {
        if text_in_list(&self.graph_expanded, id) {
            self.collapse_graph_node(id);
        } else {
            self.expand_graph_node(id);
        }
    }
}

} // verus!
