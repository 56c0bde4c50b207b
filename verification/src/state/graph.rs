//! The ownership graph: server, scopes, apps, adapters and plugins, and the
//! entries that each owns.
//!
//! The graph is never stored. It is computed from the collections and the
//! set of expanded nodes each time it is asked for, as a list of rows from
//! top to bottom, so that it cannot drift from the collections. The
//! children of a node stand in the order of their names, so that the index
//! of a row keeps its meaning from one drawing to the next.

use crate::state::keyed::{
    in_key_order, index_of, keys_of, lemma_filter_keeps_key_order, lemma_sorted_by_key,
    sorted_by_key, Keyed,
};
use crate::state::model::{AdapterInfo, AdapterInfoView, AppInfo, AppScope, DashboardStateView, PluginInfo, PluginInfoView, PromptInfo, PromptInfoView, ResourceInfo, ResourceInfoView, ScopeInfo, ScopeInfoView, ToolInfo, ToolInfoView};
use crate::text::text_le;
use vstd::prelude::*;

verus! {

/// A node of the graph.
#[derive(Debug, Clone)]
pub enum GraphNode {
    Server,
    Scope { id: String, name: String },
    App { id: String, name: String, scope_id: Option<String> },
    Plugin { name: String, owner_app: String },
    Adapter { name: String, owner_app: String },
    Tool { name: String, owner_kind: Option<String>, owner_id: Option<String> },
    Resource { name: String, owner_kind: Option<String>, owner_id: Option<String> },
    Prompt { name: String, owner_kind: Option<String>, owner_id: Option<String> },
    /// The heading of what is owned by no app.
    DirectHeader,
}

/// The mathematical value of a [`GraphNode`].
pub enum GraphNodeView {
    Server,
    Scope { id: Seq<char>, name: Seq<char> },
    App { id: Seq<char>, name: Seq<char>, scope_id: Option<Seq<char>> },
    Plugin { name: Seq<char>, owner_app: Seq<char> },
    Adapter { name: Seq<char>, owner_app: Seq<char> },
    Tool { name: Seq<char>, owner_kind: Option<Seq<char>>, owner_id: Option<Seq<char>> },
    Resource { name: Seq<char>, owner_kind: Option<Seq<char>>, owner_id: Option<Seq<char>> },
    Prompt { name: Seq<char>, owner_kind: Option<Seq<char>>, owner_id: Option<Seq<char>> },
    DirectHeader,
}

impl View for GraphNode {
    type V = GraphNodeView;

    open spec fn view(&self) -> GraphNodeView {
        match self {
            GraphNode::Server => GraphNodeView::Server,
            GraphNode::Scope { id, name } => GraphNodeView::Scope { id: id@, name: name@ },
            GraphNode::App { id, name, scope_id } => GraphNodeView::App {
                id: id@,
                name: name@,
                scope_id: scope_id.deep_view(),
            },
            GraphNode::Plugin { name, owner_app } => GraphNodeView::Plugin {
                name: name@,
                owner_app: owner_app@,
            },
            GraphNode::Adapter { name, owner_app } => GraphNodeView::Adapter {
                name: name@,
                owner_app: owner_app@,
            },
            GraphNode::Tool { name, owner_kind, owner_id } => GraphNodeView::Tool {
                name: name@,
                owner_kind: owner_kind.deep_view(),
                owner_id: owner_id.deep_view(),
            },
            GraphNode::Resource { name, owner_kind, owner_id } => GraphNodeView::Resource {
                name: name@,
                owner_kind: owner_kind.deep_view(),
                owner_id: owner_id.deep_view(),
            },
            GraphNode::Prompt { name, owner_kind, owner_id } => GraphNodeView::Prompt {
                name: name@,
                owner_kind: owner_kind.deep_view(),
                owner_id: owner_id.deep_view(),
            },
            GraphNode::DirectHeader => GraphNodeView::DirectHeader,
        }
    }
}

impl DeepView for GraphNode {
    type V = GraphNodeView;

    open spec fn deep_view(&self) -> GraphNodeView {
        self@
    }
}

/// A row of the graph: a node and how deep it stands.
pub type Row = (GraphNodeView, usize);

/// An app, as it is inferred from the owners of the entries.
#[derive(Debug, Clone)]
pub struct InferredApp {
    pub id: String,
    pub name: String,
    /// The scope that holds the app, where one does.
    pub scope_id: Option<String>,
}

/// The mathematical value of an [`InferredApp`].
pub struct InferredAppView {
    pub id: Seq<char>,
    pub name: Seq<char>,
    pub scope_id: Option<Seq<char>>,
}

impl View for InferredApp {
    type V = InferredAppView;

    open spec fn view(&self) -> InferredAppView {
        InferredAppView { id: self.id@, name: self.name@, scope_id: self.scope_id.deep_view() }
    }
}

impl DeepView for InferredApp {
    type V = InferredAppView;

    open spec fn deep_view(&self) -> InferredAppView {
        self@
    }
}

/// Which entries a part of the graph shows.
pub enum OwnerRule<'a> {
    /// Those of the owner of the kind and the id.
    Exactly(&'a str, &'a str),
    /// Those of the app or scope of the id.
    AppOrScope(&'a str),
    /// Those without owner.
    Direct,
}

/// The mathematical value of an [`OwnerRule`].
pub enum OwnerRuleView {
    Exactly(Seq<char>, Seq<char>),
    AppOrScope(Seq<char>),
    Direct,
}

impl<'a> View for OwnerRule<'a> {
    type V = OwnerRuleView;

    open spec fn view(&self) -> OwnerRuleView {
        match self {
            OwnerRule::Exactly(k, i) => OwnerRuleView::Exactly(k@, i@),
            OwnerRule::AppOrScope(i) => OwnerRuleView::AppOrScope(i@),
            OwnerRule::Direct => OwnerRuleView::Direct,
        }
    }
}

/// Whether the kind of an owner is that of an app or of a scope.
pub open spec fn is_app_or_scope(kind: Option<Seq<char>>) -> bool {
    kind == Some("app"@) || kind == Some("scope"@)
}

impl OwnerRuleView {
    /// Whether the rule shows an entry of the owner.
    pub open spec fn admits(self, kind: Option<Seq<char>>, id: Option<Seq<char>>) -> bool {
        match self {
            OwnerRuleView::Exactly(k, i) => kind == Some(k) && id == Some(i),
            OwnerRuleView::AppOrScope(i) => is_app_or_scope(kind) && id == Some(i),
            OwnerRuleView::Direct => kind is None,
        }
    }
}

/// An entry that has an owner and stands in the graph as a leaf.
pub trait OwnedEntry: Keyed + Sized {
    spec fn entry_owner_kind(v: Self::V) -> Option<Seq<char>>;

    spec fn entry_owner_id(v: Self::V) -> Option<Seq<char>>;

    /// The node of an entry.
    spec fn entry_node(
        name: Seq<char>,
        kind: Option<Seq<char>>,
        id: Option<Seq<char>>,
    ) -> GraphNodeView;

    fn owner_kind(&self) -> (r: &Option<String>)
        ensures
            r.deep_view() == Self::entry_owner_kind(self.deep_view()),
    ;

    fn owner_id(&self) -> (r: &Option<String>)
        ensures
            r.deep_view() == Self::entry_owner_id(self.deep_view()),
    ;

    fn node(name: String, kind: Option<String>, id: Option<String>) -> (r: GraphNode)
        ensures
            r@ == Self::entry_node(name@, kind.deep_view(), id.deep_view()),
    ;
}

impl OwnedEntry for ToolInfo {
    open spec fn entry_owner_kind(v: ToolInfoView) -> Option<Seq<char>> {
        v.owner_kind
    }

    open spec fn entry_owner_id(v: ToolInfoView) -> Option<Seq<char>> {
        v.owner_id
    }

    open spec fn entry_node(
        name: Seq<char>,
        kind: Option<Seq<char>>,
        id: Option<Seq<char>>,
    ) -> GraphNodeView {
        GraphNodeView::Tool { name, owner_kind: kind, owner_id: id }
    }

    fn owner_kind(&self) -> (r: &Option<String>) {
        &self.owner_kind
    }

    fn owner_id(&self) -> (r: &Option<String>) {
        &self.owner_id
    }

    fn node(name: String, kind: Option<String>, id: Option<String>) -> (r: GraphNode) {
        GraphNode::Tool { name, owner_kind: kind, owner_id: id }
    }
}

impl OwnedEntry for ResourceInfo {
    open spec fn entry_owner_kind(v: ResourceInfoView) -> Option<Seq<char>> {
        v.owner_kind
    }

    open spec fn entry_owner_id(v: ResourceInfoView) -> Option<Seq<char>> {
        v.owner_id
    }

    open spec fn entry_node(
        name: Seq<char>,
        kind: Option<Seq<char>>,
        id: Option<Seq<char>>,
    ) -> GraphNodeView {
        GraphNodeView::Resource { name, owner_kind: kind, owner_id: id }
    }

    fn owner_kind(&self) -> (r: &Option<String>) {
        &self.owner_kind
    }

    fn owner_id(&self) -> (r: &Option<String>) {
        &self.owner_id
    }

    fn node(name: String, kind: Option<String>, id: Option<String>) -> (r: GraphNode) {
        GraphNode::Resource { name, owner_kind: kind, owner_id: id }
    }
}

impl OwnedEntry for PromptInfo {
    open spec fn entry_owner_kind(v: PromptInfoView) -> Option<Seq<char>> {
        v.owner_kind
    }

    open spec fn entry_owner_id(v: PromptInfoView) -> Option<Seq<char>> {
        v.owner_id
    }

    open spec fn entry_node(
        name: Seq<char>,
        kind: Option<Seq<char>>,
        id: Option<Seq<char>>,
    ) -> GraphNodeView {
        GraphNodeView::Prompt { name, owner_kind: kind, owner_id: id }
    }

    fn owner_kind(&self) -> (r: &Option<String>) {
        &self.owner_kind
    }

    fn owner_id(&self) -> (r: &Option<String>) {
        &self.owner_id
    }

    fn node(name: String, kind: Option<String>, id: Option<String>) -> (r: GraphNode) {
        GraphNode::Prompt { name, owner_kind: kind, owner_id: id }
    }
}

/// An adapter or a plugin: it is owned by an app, and owns tools.
pub trait Container: Keyed + Sized {
    spec fn container_owner(v: Self::V) -> Option<Seq<char>>;

    /// The node of a container.
    spec fn container_node(name: Seq<char>, owner_app: Seq<char>) -> GraphNodeView;

    /// The kind under which a container owns its tools.
    spec fn kind_text() -> Seq<char>;

    /// What stands before the name in the key of the node of a container.
    spec fn key_prefix() -> Seq<char>;

    fn owner(&self) -> (r: &Option<String>)
        ensures
            r.deep_view() == Self::container_owner(self.deep_view()),
    ;

    fn node(name: String, owner_app: String) -> (r: GraphNode)
        ensures
            r@ == Self::container_node(name@, owner_app@),
    ;

    fn kind() -> (r: &'static str)
        ensures
            r@ == Self::kind_text(),
    ;

    fn prefix() -> (r: &'static str)
        ensures
            r@ == Self::key_prefix(),
    ;
}

impl Container for AdapterInfo {
    open spec fn container_owner(v: AdapterInfoView) -> Option<Seq<char>> {
        v.owner_id
    }

    open spec fn container_node(name: Seq<char>, owner_app: Seq<char>) -> GraphNodeView {
        GraphNodeView::Adapter { name, owner_app }
    }

    open spec fn kind_text() -> Seq<char> {
        "adapter"@
    }

    open spec fn key_prefix() -> Seq<char> {
        "adapter:"@
    }

    fn owner(&self) -> (r: &Option<String>) {
        &self.owner_id
    }

    fn node(name: String, owner_app: String) -> (r: GraphNode) {
        GraphNode::Adapter { name, owner_app }
    }

    fn kind() -> (r: &'static str) {
        "adapter"
    }

    fn prefix() -> (r: &'static str) {
        "adapter:"
    }
}

impl Container for PluginInfo {
    open spec fn container_owner(v: PluginInfoView) -> Option<Seq<char>> {
        v.owner_id
    }

    open spec fn container_node(name: Seq<char>, owner_app: Seq<char>) -> GraphNodeView {
        GraphNodeView::Plugin { name, owner_app }
    }

    open spec fn kind_text() -> Seq<char> {
        "plugin"@
    }

    open spec fn key_prefix() -> Seq<char> {
        "plugin:"@
    }

    fn owner(&self) -> (r: &Option<String>) {
        &self.owner_id
    }

    fn node(name: String, owner_app: String) -> (r: GraphNode) {
        GraphNode::Plugin { name, owner_app }
    }

    fn kind() -> (r: &'static str) {
        "plugin"
    }

    fn prefix() -> (r: &'static str) {
        "plugin:"
    }
}

// ---------------------------------------------------------------------------
// The apps
// ---------------------------------------------------------------------------

/// The ids of the apps and scopes that own one of the entries, in order.
pub open spec fn entry_owner_ids<T: OwnedEntry>(items: Seq<T::V>) -> Seq<Seq<char>>
    decreases items.len(),
{
    if items.len() == 0 {
        Seq::empty()
    } else {
        let before = entry_owner_ids::<T>(items.drop_last());
        let x = items.last();
        if is_app_or_scope(T::entry_owner_kind(x)) && T::entry_owner_id(x) is Some {
            before.push(T::entry_owner_id(x).unwrap())
        } else {
            before
        }
    }
}

/// The ids of the owners of the containers, in order.
pub open spec fn container_owner_ids<C: Container>(items: Seq<C::V>) -> Seq<Seq<char>>
    decreases items.len(),
{
    if items.len() == 0 {
        Seq::empty()
    } else {
        let before = container_owner_ids::<C>(items.drop_last());
        match C::container_owner(items.last()) {
            Some(id) => before.push(id),
            None => before,
        }
    }
}

/// The texts without repetition, each where it first occurs.
pub open spec fn distinct(texts: Seq<Seq<char>>) -> Seq<Seq<char>>
    decreases texts.len(),
{
    if texts.len() == 0 {
        Seq::empty()
    } else {
        let before = distinct(texts.drop_last());
        if before.contains(texts.last()) {
            before
        } else {
            before.push(texts.last())
        }
    }
}

/// The apps with one more, in the order of their names; among apps of one
/// name the new one comes last.
pub open spec fn app_inserted(apps: Seq<InferredAppView>, app: InferredAppView) -> Seq<
    InferredAppView,
>
    decreases apps.len(),
{
    if apps.len() == 0 {
        seq![app]
    } else if text_le(apps.last().name, app.name) {
        apps.push(app)
    } else {
        app_inserted(apps.drop_last(), app).push(apps.last())
    }
}

/// The apps in the order of their names.
pub open spec fn apps_sorted(apps: Seq<InferredAppView>) -> Seq<InferredAppView>
    decreases apps.len(),
{
    if apps.len() == 0 {
        Seq::empty()
    } else {
        app_inserted(apps_sorted(apps.drop_last()), apps.last())
    }
}

/// Whether the apps stand in the order of their names.
pub open spec fn in_name_order(apps: Seq<InferredAppView>) -> bool {
    forall|i: int, j: int| 0 <= i < j < apps.len() ==> text_le(apps[i].name, apps[j].name)
}

/// Inserting keeps the order of the names, and adds the app and nothing else.
pub proof fn lemma_app_inserted(apps: Seq<InferredAppView>, app: InferredAppView)
    requires
        in_name_order(apps),
    ensures
        in_name_order(app_inserted(apps, app)),
        app_inserted(apps, app).len() == apps.len() + 1,
        app_inserted(apps, app).to_multiset() == apps.to_multiset().insert(app),
    decreases apps.len(),
{
    broadcast use vstd::seq_lib::group_to_multiset_ensures;

    let out = app_inserted(apps, app);
    if apps.len() == 0 {
        assert(apps =~= Seq::<InferredAppView>::empty());
        assert(out =~= Seq::<InferredAppView>::empty().push(app));
    } else if text_le(apps.last().name, app.name) {
        assert forall|i: int, j: int| 0 <= i < j < out.len() implies text_le(
            out[i].name,
            out[j].name,
        ) by {
            if j == apps.len() {
                if i < apps.len() - 1 {
                    crate::text::lemma_text_le_transitive(
                        apps[i].name,
                        apps.last().name,
                        app.name,
                    );
                }
            }
        }
    } else {
        let rest = apps.drop_last();
        assert forall|i: int, j: int| 0 <= i < j < rest.len() implies text_le(
            rest[i].name,
            rest[j].name,
        ) by {
            assert(rest[i] == apps[i] && rest[j] == apps[j]);
        }
        lemma_app_inserted(rest, app);
        let inner = app_inserted(rest, app);
        crate::text::lemma_text_le_total(apps.last().name, app.name);
        assert forall|k: int| 0 <= k < inner.len() implies text_le(
            inner[k].name,
            apps.last().name,
        ) by {
            assert(inner.to_multiset().count(inner[k]) > 0);
            if inner[k] == app {
            } else {
                assert(rest.to_multiset().count(inner[k]) > 0);
                assert(rest.contains(inner[k]));
                let m = choose|m: int| 0 <= m < rest.len() && rest[m] == inner[k];
                assert(apps[m] == rest[m]);
                if m < apps.len() - 1 {
                }
                assert(text_le(apps[m].name, apps[apps.len() - 1].name));
            }
        }
        assert forall|i: int, j: int| 0 <= i < j < out.len() implies text_le(
            out[i].name,
            out[j].name,
        ) by {
            if j < inner.len() {
                assert(out[i] == inner[i] && out[j] == inner[j]);
            } else {
                assert(out[i] == inner[i]);
            }
        }
        assert(apps =~= rest.push(apps.last()));
    }
}

/// The sorted apps stand in the order of their names, and are the same apps.
pub proof fn lemma_apps_sorted(apps: Seq<InferredAppView>)
    ensures
        in_name_order(apps_sorted(apps)),
        apps_sorted(apps).len() == apps.len(),
        apps_sorted(apps).to_multiset() == apps.to_multiset(),
    decreases apps.len(),
{
    broadcast use vstd::seq_lib::group_to_multiset_ensures;

    if apps.len() == 0 {
        assert(apps =~= Seq::<InferredAppView>::empty());
    } else {
        lemma_apps_sorted(apps.drop_last());
        lemma_app_inserted(apps_sorted(apps.drop_last()), apps.last());
        assert(apps =~= apps.drop_last().push(apps.last()));
    }
}

impl DashboardStateView {
    /// The ids of all owners that count as apps, in the order of the
    /// collections, with repetition.
    pub open spec fn owner_ids(self) -> Seq<Seq<char>> {
        entry_owner_ids::<ToolInfo>(self.tools) + entry_owner_ids::<ResourceInfo>(self.resources)
            + entry_owner_ids::<PromptInfo>(self.prompts) + container_owner_ids::<PluginInfo>(
            self.plugins,
        ) + container_owner_ids::<AdapterInfo>(self.adapters)
    }

    /// The name of the app of the id: that under which it is listed, else the id.
    pub open spec fn app_name(self, id: Seq<char>) -> Seq<char> {
        match index_of(keys_of::<AppInfo>(self.apps), id) {
            Some(i) => self.apps[i].name,
            None => id,
        }
    }

    /// The scope of the app of the id: that in which a snapshot placed it,
    /// else the scope of the same id, if there is one.
    pub open spec fn app_scope(self, id: Seq<char>) -> Option<Seq<char>> {
        match index_of(keys_of::<AppScope>(self.app_scope_map), id) {
            Some(i) => Some(self.app_scope_map[i].scope_id),
            None => match index_of(keys_of::<ScopeInfo>(self.scopes), id) {
                Some(i) => Some(self.scopes[i].id),
                None => None,
            },
        }
    }

    /// The app of the id.
    pub open spec fn app_of(self, id: Seq<char>) -> InferredAppView {
        InferredAppView { id, name: self.app_name(id), scope_id: self.app_scope(id) }
    }

    /// The apps of the ids, in order.
    pub open spec fn apps_of(self, ids: Seq<Seq<char>>) -> Seq<InferredAppView> {
        Seq::new(ids.len(), |i: int| self.app_of(ids[i]))
    }

    /// The apps: every id that owns an entry as an app or a scope, or owns a
    /// plugin or an adapter, is one. They stand in the order of their names.
    pub open spec fn inferred_apps(self) -> Seq<InferredAppView> {
        apps_sorted(self.apps_of(distinct(self.owner_ids())))
    }

    /// Whether the node of the key is expanded.
    pub open spec fn is_expanded(self, key: Seq<char>) -> bool {
        self.graph_expanded.contains(key)
    }
}

// ---------------------------------------------------------------------------
// The rows
// ---------------------------------------------------------------------------

/// The test that the rule shows an entry.
pub open spec fn admits_entry<T: OwnedEntry>(rule: OwnerRuleView) -> spec_fn(T::V) -> bool {
    |x: T::V| rule.admits(T::entry_owner_kind(x), T::entry_owner_id(x))
}

/// The entries that the rule shows, in the order of their names.
pub open spec fn shown_entries<T: OwnedEntry>(items: Seq<T::V>, rule: OwnerRuleView) -> Seq<T::V> {
    sorted_by_key::<T>(items).filter(admits_entry::<T>(rule))
}

/// The row of an entry. An entry without owner is shown without owner.
pub open spec fn entry_row<T: OwnedEntry>(x: T::V, rule: OwnerRuleView, depth: usize) -> Row {
    (
        if rule is Direct {
            T::entry_node(T::key_of(x), None, None)
        } else {
            T::entry_node(T::key_of(x), T::entry_owner_kind(x), T::entry_owner_id(x))
        },
        depth,
    )
}

/// The rows of the entries, one for each, in their order.
pub open spec fn rows_of_entries<T: OwnedEntry>(
    entries: Seq<T::V>,
    rule: OwnerRuleView,
    depth: usize,
) -> Seq<Row> {
    Seq::new(entries.len(), |i: int| entry_row::<T>(entries[i], rule, depth))
}

/// The rows of the entries that the rule shows, in the order of their names.
pub open spec fn entry_rows<T: OwnedEntry>(items: Seq<T::V>, rule: OwnerRuleView, depth: usize) -> Seq<
    Row,
> {
    rows_of_entries::<T>(shown_entries::<T>(items, rule), rule, depth)
}

/// The entries under one parent stand in the order of their names: each is
/// one of the entries that the rule shows, and there is a row for each.
pub proof fn lemma_entries_in_name_order<T: OwnedEntry>(
    items: Seq<T::V>,
    rule: OwnerRuleView,
    depth: usize,
)
    ensures
        in_key_order::<T>(shown_entries::<T>(items, rule)),
        entry_rows::<T>(items, rule, depth).len() == shown_entries::<T>(items, rule).len(),
        forall|i: int|
            0 <= i < shown_entries::<T>(items, rule).len() ==> {
                let x = #[trigger] shown_entries::<T>(items, rule)[i];
                &&& items.contains(x)
                &&& rule.admits(T::entry_owner_kind(x), T::entry_owner_id(x))
                &&& entry_rows::<T>(items, rule, depth)[i] == entry_row::<T>(x, rule, depth)
            },
{
    broadcast use vstd::seq_lib::group_to_multiset_ensures;

    let sorted = sorted_by_key::<T>(items);
    let keep = admits_entry::<T>(rule);
    let shown = sorted.filter(keep);
    lemma_sorted_by_key::<T>(items);
    lemma_filter_keeps_key_order::<T>(sorted, keep);
    assert forall|i: int| 0 <= i < shown.len() implies {
        let x = #[trigger] shown[i];
        &&& items.contains(x)
        &&& rule.admits(T::entry_owner_kind(x), T::entry_owner_id(x))
        &&& entry_rows::<T>(items, rule, depth)[i] == entry_row::<T>(x, rule, depth)
    } by {
        let x = shown[i];
        sorted.lemma_filter_pred(keep, i);
        assert(shown.contains(x));
        sorted.lemma_filter_contains_rev(keep, x);
        assert(sorted.to_multiset().count(x) > 0);
        assert(items.to_multiset().count(x) > 0);
    }
}

/// How deep the children of a node stand.
pub open spec fn deeper(depth: usize, by: nat) -> usize {
    if depth + by > usize::MAX {
        usize::MAX
    } else {
        (depth + by) as usize
    }
}

/// The test that the app owns a container.
pub open spec fn owned_by<C: Container>(app_id: Seq<char>) -> spec_fn(C::V) -> bool {
    |c: C::V| C::container_owner(c) == Some(app_id)
}

/// The containers that the app owns, in the order of their names.
pub open spec fn shown_containers<C: Container>(items: Seq<C::V>, app_id: Seq<char>) -> Seq<C::V> {
    sorted_by_key::<C>(items).filter(owned_by::<C>(app_id))
}

/// The rows of the containers in their order, each followed by its tools
/// where it is expanded.
pub open spec fn rows_of_containers<C: Container>(
    s: DashboardStateView,
    containers: Seq<C::V>,
    app_id: Seq<char>,
    depth: usize,
) -> Seq<Row>
    decreases containers.len(),
{
    if containers.len() == 0 {
        Seq::empty()
    } else {
        let before = rows_of_containers::<C>(s, containers.drop_last(), app_id, depth);
        let c = containers.last();
        let head = before.push((C::container_node(C::key_of(c), app_id), deeper(depth, 1)));
        if s.is_expanded(C::key_prefix() + C::key_of(c)) {
            head + entry_rows::<ToolInfo>(
                s.tools,
                OwnerRuleView::Exactly(C::kind_text(), C::key_of(c)),
                deeper(depth, 2),
            )
        } else {
            head
        }
    }
}

/// The rows of the containers that the app owns, in the order of their
/// names, each followed by its tools where it is expanded.
pub open spec fn container_rows<C: Container>(
    s: DashboardStateView,
    items: Seq<C::V>,
    app_id: Seq<char>,
    depth: usize,
) -> Seq<Row> {
    rows_of_containers::<C>(s, shown_containers::<C>(items, app_id), app_id, depth)
}

/// The containers under one app stand in the order of their names, and each
/// is one that the app owns.
pub proof fn lemma_containers_in_name_order<C: Container>(items: Seq<C::V>, app_id: Seq<char>)
    ensures
        in_key_order::<C>(shown_containers::<C>(items, app_id)),
        forall|i: int|
            0 <= i < shown_containers::<C>(items, app_id).len() ==> {
                let c = #[trigger] shown_containers::<C>(items, app_id)[i];
                items.contains(c) && C::container_owner(c) == Some(app_id)
            },
{
    broadcast use vstd::seq_lib::group_to_multiset_ensures;

    let sorted = sorted_by_key::<C>(items);
    let keep = owned_by::<C>(app_id);
    let shown = sorted.filter(keep);
    lemma_sorted_by_key::<C>(items);
    lemma_filter_keeps_key_order::<C>(sorted, keep);
    assert forall|i: int| 0 <= i < shown.len() implies {
        let c = #[trigger] shown[i];
        items.contains(c) && C::container_owner(c) == Some(app_id)
    } by {
        let c = shown[i];
        sorted.lemma_filter_pred(keep, i);
        assert(shown.contains(c));
        sorted.lemma_filter_contains_rev(keep, c);
        assert(sorted.to_multiset().count(c) > 0);
        assert(items.to_multiset().count(c) > 0);
    }
}

/// The rows of an app: its node and, where it is expanded, its adapters,
/// its plugins, and the tools, resources and prompts that it owns itself.
pub open spec fn app_rows(
    s: DashboardStateView,
    app: InferredAppView,
    scope_id: Option<Seq<char>>,
    depth: usize,
) -> Seq<Row> {
    let head = seq![(GraphNodeView::App { id: app.id, name: app.name, scope_id }, depth)];
    if s.is_expanded(app.id) {
        head + container_rows::<AdapterInfo>(s, s.adapters, app.id, depth) + container_rows::<
            PluginInfo,
        >(s, s.plugins, app.id, depth) + entry_rows::<ToolInfo>(
            s.tools,
            OwnerRuleView::AppOrScope(app.id),
            deeper(depth, 1),
        ) + entry_rows::<ResourceInfo>(
            s.resources,
            OwnerRuleView::AppOrScope(app.id),
            deeper(depth, 1),
        ) + entry_rows::<PromptInfo>(
            s.prompts,
            OwnerRuleView::AppOrScope(app.id),
            deeper(depth, 1),
        )
    } else {
        head
    }
}

/// Which apps a part of the graph shows.
pub enum AppFilter {
    /// All, each with its scope.
    All,
    /// Those of the scope.
    InScope(Seq<char>),
    /// Those of no scope.
    Orphans,
}

impl AppFilter {
    pub open spec fn admits(self, app: InferredAppView) -> bool {
        match self {
            AppFilter::All => true,
            AppFilter::InScope(scope_id) => app.scope_id == Some(scope_id),
            AppFilter::Orphans => app.scope_id is None,
        }
    }
}

/// The rows of the apps that the filter shows, in order.
pub open spec fn apps_rows(
    s: DashboardStateView,
    apps: Seq<InferredAppView>,
    filter: AppFilter,
    depth: usize,
) -> Seq<Row>
    decreases apps.len(),
{
    if apps.len() == 0 {
        Seq::empty()
    } else {
        let before = apps_rows(s, apps.drop_last(), filter, depth);
        if filter.admits(apps.last()) {
            before + app_rows(s, apps.last(), apps.last().scope_id, depth)
        } else {
            before
        }
    }
}

/// The rows of the scopes, each followed by its apps where it is expanded.
pub open spec fn scope_rows(
    s: DashboardStateView,
    apps: Seq<InferredAppView>,
    scopes: Seq<ScopeInfoView>,
) -> Seq<Row>
    decreases scopes.len(),
{
    if scopes.len() == 0 {
        Seq::empty()
    } else {
        let before = scope_rows(s, apps, scopes.drop_last());
        let scope = scopes.last();
        let head = before.push((GraphNodeView::Scope { id: scope.id, name: scope.name }, 1usize));
        if s.is_expanded("scope:"@ + scope.id) {
            head + apps_rows(s, apps, AppFilter::InScope(scope.id), 2)
        } else {
            head
        }
    }
}

/// The rows under a heading; nothing where there are no rows.
pub open spec fn headed(rows: Seq<Row>) -> Seq<Row> {
    if rows.len() > 0 {
        seq![(GraphNodeView::DirectHeader, 1usize)] + rows
    } else {
        Seq::empty()
    }
}

impl DashboardStateView {
    /// The entries without owner, as rows.
    pub open spec fn direct_rows(self) -> Seq<Row> {
        entry_rows::<ToolInfo>(self.tools, OwnerRuleView::Direct, 2) + entry_rows::<ResourceInfo>(
            self.resources,
            OwnerRuleView::Direct,
            2,
        ) + entry_rows::<PromptInfo>(self.prompts, OwnerRuleView::Direct, 2)
    }

    /// The graph as its rows from top to bottom. With more than one scope
    /// the scopes stand under the server and the apps under their scopes,
    /// with the apps of no scope under a heading of their own; else the apps
    /// stand under the server, and the entries without owner under a heading.
    pub open spec fn graph_rows(self) -> Seq<Row> {
        let apps = self.inferred_apps();
        let top = seq![(GraphNodeView::Server, 0usize)];
        if self.scopes.len() > 1 {
            top + scope_rows(self, apps, self.scopes) + headed(
                apps_rows(self, apps, AppFilter::Orphans, 2),
            )
        } else {
            top + apps_rows(self, apps, AppFilter::All, 1) + headed(self.direct_rows())
        }
    }

    /// The node of the row, if there is such a row.
    pub open spec fn node_at(self, index: nat) -> Option<GraphNodeView> {
        if index < self.graph_rows().len() {
            Some(self.graph_rows()[index as int].0)
        } else {
            None
        }
    }
}

/// The test that a key is another than `key`.
pub open spec fn other_than(key: Seq<char>) -> spec_fn(Seq<char>) -> bool {
    |k: Seq<char>| k != key
}

/// The set with the key if it was without it, and without it if it was with it.
pub open spec fn toggled(keys: Seq<Seq<char>>, key: Seq<char>) -> Seq<Seq<char>> {
    if keys.contains(key) {
        keys.filter(other_than(key))
    } else {
        keys.push(key)
    }
}

/// The set with the key.
pub open spec fn with_key(keys: Seq<Seq<char>>, key: Seq<char>) -> Seq<Seq<char>> {
    if keys.contains(key) {
        keys
    } else {
        keys.push(key)
    }
}

/// The set without the key.
pub open spec fn without_key(keys: Seq<Seq<char>>, key: Seq<char>) -> Seq<Seq<char>> {
    keys.filter(other_than(key))
}

/// Taking a key out of a set leaves the other keys, and not the key.
pub proof fn lemma_without_key(keys: Seq<Seq<char>>, key: Seq<char>, other: Seq<char>)
    ensures
        without_key(keys, key).contains(other) == (keys.contains(other) && other != key),
{
    let pred = other_than(key);
    let after = keys.filter(pred);
    if after.contains(other) {
        let i = choose|i: int| 0 <= i < after.len() && after[i] == other;
        keys.lemma_filter_pred(pred, i);
        keys.lemma_filter_contains_rev(pred, other);
    }
    if keys.contains(other) && other != key {
        let i = choose|i: int| 0 <= i < keys.len() && keys[i] == other;
        keys.lemma_filter_contains(pred, i);
    }
}

/// After a toggle the key is in the set exactly when it was not, and every
/// other key is in the set exactly when it was.
pub proof fn lemma_toggle(keys: Seq<Seq<char>>, key: Seq<char>, other: Seq<char>)
    ensures
        toggled(keys, key).contains(key) == !keys.contains(key),
        other != key ==> toggled(keys, key).contains(other) == keys.contains(other),
{
    lemma_without_key(keys, key, key);
    lemma_without_key(keys, key, other);
    crate::state::registry::lemma_push_contains(keys, key, other);
    crate::state::registry::lemma_push_contains(keys, key, key);
}

} // verus!
