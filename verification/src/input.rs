//! Keys: what each key does to the state, by the part of the screen that
//! has the focus.

use crate::state::graph::{toggled, with_key, without_key, GraphNode, GraphNodeView, Row};
use crate::state::graph_build::build_graph_nodes;
use crate::state::model::{DashboardState, DashboardStateView, LogFilterView};
use crate::state::nav::{at_most, down_by, last_index, up_by, PAGE_STEP};
use crate::state::tabs::{FocusArea, QuitDialogSelection, QuitMode, Tab};
use crate::text::{concat, str_eq};
use vstd::prelude::*;

verus! {

/// A key.
#[derive(Debug, Clone, Copy)]
pub enum KeyCode {
    Backspace,
    Enter,
    Left,
    Right,
    Up,
    Down,
    Home,
    End,
    PageUp,
    PageDown,
    Esc,
    Char(char),
    /// Any key that does nothing.
    Other,
}

/// A key that was pressed, and whether the control key was held.
#[derive(Debug, Clone, Copy)]
pub struct KeyEvent {
    pub code: KeyCode,
    pub ctrl: bool,
}

/// The tab that a digit key stands for.
pub open spec fn tab_of_digit(c: char) -> Option<usize> {
    if c == '1' {
        Some(0usize)
    } else if c == '2' {
        Some(1usize)
    } else if c == '3' {
        Some(2usize)
    } else if c == '4' {
        Some(3usize)
    } else if c == '5' {
        Some(4usize)
    } else if c == '6' {
        Some(5usize)
    } else if c == '7' {
        Some(6usize)
    } else {
        None
    }
}

/// The key under which a node is expanded; none for a node that has no children.
pub open spec fn node_key(node: GraphNodeView) -> Option<Seq<char>> {
    match node {
        GraphNodeView::Scope { id, .. } => Some("scope:"@ + id),
        GraphNodeView::App { id, .. } => Some(id),
        GraphNodeView::Plugin { name, .. } => Some("plugin:"@ + name),
        GraphNodeView::Adapter { name, .. } => Some("adapter:"@ + name),
        _ => None,
    }
}

/// The key of the node that owns an entry: of a tool the plugin, the
/// adapter, or the app or scope; of a resource or a prompt the app or scope.
pub open spec fn owner_key(
    kind: Option<Seq<char>>,
    id: Option<Seq<char>>,
    is_tool: bool,
) -> Option<Seq<char>> {
    match (kind, id) {
        (Some(k), Some(i)) => if is_tool && k == "plugin"@ {
            Some("plugin:"@ + i)
        } else if is_tool && k == "adapter"@ {
            Some("adapter:"@ + i)
        } else if k == "app"@ || k == "scope"@ {
            Some(i)
        } else {
            None
        },
        _ => None,
    }
}

/// The index of the nearest row above `below` whose node has the key.
pub open spec fn parent_index(rows: Seq<Row>, key: Seq<char>, below: int) -> Option<int>
    decreases below,
{
    if below <= 0 || below > rows.len() {
        None
    } else if node_key(rows[below - 1].0) == Some(key) {
        Some(below - 1)
    } else {
        parent_index(rows, key, below - 1)
    }
}

impl DashboardStateView {
    /// The key of the node to collapse when the left key is pressed on a
    /// node, and whether the selection moves to that node. A node that is
    /// expanded collapses itself; any other node collapses the node that
    /// owns it.
    pub open spec fn collapse_target(self, node: GraphNodeView) -> (Option<Seq<char>>, bool) {
        match node {
            GraphNodeView::Scope { id, .. } => if self.is_expanded("scope:"@ + id) {
                (Some("scope:"@ + id), false)
            } else {
                (None, false)
            },
            GraphNodeView::App { id, scope_id, .. } => if self.is_expanded(id) {
                (Some(id), false)
            } else {
                match scope_id {
                    Some(sid) => (Some("scope:"@ + sid), true),
                    None => (None, false),
                }
            },
            GraphNodeView::Plugin { name, owner_app } => if self.is_expanded("plugin:"@ + name) {
                (Some("plugin:"@ + name), false)
            } else {
                (Some(owner_app), true)
            },
            GraphNodeView::Adapter { name, owner_app } => if self.is_expanded("adapter:"@ + name) {
                (Some("adapter:"@ + name), false)
            } else {
                (Some(owner_app), true)
            },
            GraphNodeView::Tool { owner_kind, owner_id, .. } => (
                owner_key(owner_kind, owner_id, true),
                true,
            ),
            GraphNodeView::Resource { owner_kind, owner_id, .. } => (
                owner_key(owner_kind, owner_id, false),
                true,
            ),
            GraphNodeView::Prompt { owner_kind, owner_id, .. } => (
                owner_key(owner_kind, owner_id, false),
                true,
            ),
            _ => (None, false),
        }
    }

    /// The state after the selected node of the graph was opened: a node
    /// with children is expanded or collapsed, any other node goes to the
    /// detail view.
    pub open spec fn graph_opened(self) -> DashboardStateView {
        match self.node_at(self.graph_selected as nat) {
            Some(node) => match node_key(node) {
                Some(key) => DashboardStateView {
                    graph_expanded: toggled(self.graph_expanded, key),
                    ..self
                },
                None => DashboardStateView { focus: FocusArea::Detail, ..self },
            },
            None => self,
        }
    }

    /// The state after the selected node of the graph was expanded.
    pub open spec fn graph_expanded_at_selection(self) -> DashboardStateView {
        match self.node_at(self.graph_selected as nat) {
            Some(node) => match node_key(node) {
                Some(key) => DashboardStateView {
                    graph_expanded: with_key(self.graph_expanded, key),
                    ..self
                },
                None => self,
            },
            None => self,
        }
    }

    /// The state after the left key in the graph: the target is collapsed,
    /// and where it owns the selected node the selection moves up to it.
    pub open spec fn graph_collapsed_at_selection(self) -> DashboardStateView {
        match self.node_at(self.graph_selected as nat) {
            Some(node) => match self.collapse_target(node).0 {
                Some(key) => DashboardStateView {
                    graph_selected: if self.collapse_target(node).1 {
                        match parent_index(self.graph_rows(), key, self.graph_selected as int) {
                            Some(i) => i as usize,
                            None => self.graph_selected,
                        }
                    } else {
                        self.graph_selected
                    },
                    graph_expanded: without_key(self.graph_expanded, key),
                    ..self
                },
                None => self,
            },
            None => self,
        }
    }

    /// The state with the selection of the graph at the row, not past the last row.
    pub open spec fn graph_moved_down(self, step: usize) -> DashboardStateView {
        DashboardStateView {
            graph_selected: at_most(
                up_by(self.graph_selected, step),
                last_index(self.graph_rows().len()),
            ),
            ..self
        }
    }

    pub open spec fn focused(self, focus: FocusArea) -> DashboardStateView {
        DashboardStateView { focus, ..self }
    }

    /// What a key does while the tab bar has the focus.
    pub open spec fn tab_bar_key(self, code: KeyCode) -> DashboardStateView {
        match code {
            KeyCode::Left => self.prev_tab(),
            KeyCode::Right => self.next_tab(),
            KeyCode::Enter => self.tab_entered(),
            KeyCode::Down => self.tab_entered(),
            KeyCode::Char(c) => if c == ' ' {
                self.tab_entered()
            } else if c == 'o' {
                self.focused(FocusArea::Overview)
            } else {
                self
            },
            _ => self,
        }
    }

    /// What a key does while the overview has the focus.
    pub open spec fn overview_key(self, code: KeyCode) -> DashboardStateView {
        match code {
            KeyCode::Up => DashboardStateView {
                overview_scroll: down_by(self.overview_scroll, 1),
                ..self
            },
            KeyCode::Down => DashboardStateView {
                overview_scroll: up_by(self.overview_scroll, 1),
                ..self
            },
            KeyCode::PageUp => DashboardStateView {
                overview_scroll: down_by(self.overview_scroll, PAGE_STEP),
                ..self
            },
            KeyCode::PageDown => DashboardStateView {
                overview_scroll: up_by(self.overview_scroll, PAGE_STEP),
                ..self
            },
            KeyCode::Home => DashboardStateView { overview_scroll: 0, ..self },
            KeyCode::Esc => self.focused(FocusArea::TabBar),
            KeyCode::Right => self.focused(FocusArea::TabBar),
            _ => self,
        }
    }

    /// What a key does in the list of the log, which scrolls and selects nothing.
    pub open spec fn logs_key(self, code: KeyCode) -> DashboardStateView {
        match code {
            KeyCode::Up => self.logs_scrolled_up(1),
            KeyCode::Down => self.logs_scrolled_down(1),
            KeyCode::PageUp => self.logs_scrolled_up(PAGE_STEP),
            KeyCode::PageDown => self.logs_scrolled_down(PAGE_STEP),
            KeyCode::Home => DashboardStateView {
                list_scroll: last_index(self.logs.len()),
                ..self
            },
            KeyCode::End => DashboardStateView { list_scroll: 0, ..self },
            KeyCode::Esc => self.focused(FocusArea::TabBar),
            _ => self,
        }
    }

    /// What a key does in the graph.
    pub open spec fn graph_key(self, code: KeyCode) -> DashboardStateView {
        match code {
            KeyCode::Up => DashboardStateView {
                graph_selected: down_by(self.graph_selected, 1),
                ..self
            },
            KeyCode::Down => self.graph_moved_down(1),
            KeyCode::Enter => self.graph_opened(),
            KeyCode::Char(c) => if c == ' ' {
                self.graph_opened()
            } else {
                self
            },
            KeyCode::Right => self.graph_expanded_at_selection(),
            KeyCode::Left => self.graph_collapsed_at_selection(),
            KeyCode::Esc => self.focused(FocusArea::TabBar),
            KeyCode::PageUp => DashboardStateView {
                graph_selected: down_by(self.graph_selected, PAGE_STEP),
                ..self
            },
            KeyCode::PageDown => self.graph_moved_down(PAGE_STEP),
            KeyCode::Home => DashboardStateView { graph_selected: 0, ..self },
            KeyCode::End => DashboardStateView {
                graph_selected: last_index(self.graph_rows().len()),
                ..self
            },
            _ => self,
        }
    }

    /// What a key does in any other list.
    pub open spec fn plain_list_key(self, code: KeyCode) -> DashboardStateView {
        match code {
            KeyCode::Up => self.moved_up(1),
            KeyCode::Down => self.moved_down(1),
            KeyCode::Enter => self.item_selected(),
            KeyCode::Char(c) => if c == ' ' {
                self.item_selected()
            } else {
                self
            },
            KeyCode::Esc => self.focused(FocusArea::TabBar),
            KeyCode::PageUp => self.moved_up(PAGE_STEP),
            KeyCode::PageDown => self.moved_down(PAGE_STEP),
            KeyCode::Home => self.list_reset(),
            KeyCode::End => self.at_bottom(),
            _ => self,
        }
    }

    /// What a key does while a list has the focus.
    pub open spec fn list_key(self, code: KeyCode) -> DashboardStateView {
        match self.active_tab {
            Tab::Logs => self.logs_key(code),
            Tab::Graph => self.graph_key(code),
            _ => self.plain_list_key(code),
        }
    }

    /// What a key does while the detail view has the focus.
    pub open spec fn detail_key(self, code: KeyCode) -> DashboardStateView {
        match code {
            KeyCode::Up => DashboardStateView {
                detail_scroll: down_by(self.detail_scroll, 1),
                ..self
            },
            KeyCode::Down => DashboardStateView {
                detail_scroll: up_by(self.detail_scroll, 1),
                ..self
            },
            KeyCode::Esc => self.detail_left(),
            KeyCode::Backspace => self.detail_left(),
            KeyCode::PageUp => DashboardStateView {
                detail_scroll: down_by(self.detail_scroll, PAGE_STEP),
                ..self
            },
            KeyCode::PageDown => DashboardStateView {
                detail_scroll: up_by(self.detail_scroll, PAGE_STEP),
                ..self
            },
            _ => self,
        }
    }

    /// What a key does while the bar of the sub-tabs has the focus.
    pub open spec fn sub_tab_key(self, code: KeyCode) -> DashboardStateView {
        match code {
            KeyCode::Left => self.prev_sub_tab(),
            KeyCode::Right => self.next_sub_tab(),
            KeyCode::Enter => self.focused(FocusArea::List),
            KeyCode::Down => self.focused(FocusArea::List),
            KeyCode::Char(c) => if c == ' ' {
                self.focused(FocusArea::List)
            } else {
                self
            },
            KeyCode::Esc => self.focused(FocusArea::TabBar),
            _ => self,
        }
    }

    /// What a key does while the filter of the log has the focus.
    pub open spec fn filter_key(self, code: KeyCode) -> DashboardStateView {
        match code {
            KeyCode::Enter => self.focused(FocusArea::List),
            KeyCode::Down => self.focused(FocusArea::List),
            KeyCode::Esc => self.focused(FocusArea::TabBar),
            KeyCode::Backspace => DashboardStateView {
                log_filter: LogFilterView::initial(),
                ..self
            },
            _ => self,
        }
    }

    /// What a key does by the focus.
    pub open spec fn focus_key(self, code: KeyCode) -> DashboardStateView {
        match self.focus {
            FocusArea::TabBar => self.tab_bar_key(code),
            FocusArea::Overview => self.overview_key(code),
            FocusArea::List => self.list_key(code),
            FocusArea::Detail => self.detail_key(code),
            FocusArea::SubTab => self.sub_tab_key(code),
            FocusArea::FilterInput => self.filter_key(code),
        }
    }

    /// What a key does. While the help shows, any key closes it and does
    /// nothing else. The question mark opens the help, and a digit goes to
    /// its tab, wherever the focus is.
    pub open spec fn key_pressed(self, key: KeyEvent) -> DashboardStateView {
        if self.show_help {
            DashboardStateView { show_help: false, ..self }
        } else {
            match key.code {
                KeyCode::Char(c) => if c == '?' {
                    DashboardStateView { show_help: true, ..self }
                } else {
                    match tab_of_digit(c) {
                        Some(index) => self.tab_switched(index).focused(FocusArea::TabBar),
                        None => self.focus_key(key.code),
                    }
                },
                _ => self.focus_key(key.code),
            }
        }
    }

    /// The state that leaves and stops the server.
    pub open spec fn killing(self) -> DashboardStateView {
        DashboardStateView { quit_mode: QuitMode::KillAll, ..self }
    }

    /// The state with the quit dialog closed.
    pub open spec fn quit_cancelled(self) -> DashboardStateView {
        DashboardStateView {
            quit_mode: QuitMode::NotQuitting,
            quit_dialog_selection: QuitDialogSelection::Cancel,
            ..self
        }
    }

    /// Whether the key is control and `c`.
    pub open spec fn is_interrupt(key: KeyEvent) -> bool {
        key.ctrl && key.code == KeyCode::Char('c')
    }

    /// Whether the key makes the program leave: the interrupt does, and so
    /// does the enter key on the button of the quit dialog that stops the server.
    pub open spec fn quits_on(self, key: KeyEvent) -> bool {
        Self::is_interrupt(key) || (self.quit_mode is Confirming && key.code is Enter
            && self.quit_dialog_selection is Kill)
    }

    /// What a key does to the whole program: the quit dialog comes first,
    /// then the interrupt, then `q` on the tab bar, then everything else.
    pub open spec fn app_key_pressed(self, key: KeyEvent) -> DashboardStateView {
        if self.quit_mode is Confirming {
            match key.code {
                KeyCode::Left => DashboardStateView {
                    quit_dialog_selection: match self.quit_dialog_selection {
                        QuitDialogSelection::Cancel => QuitDialogSelection::Kill,
                        QuitDialogSelection::Kill => QuitDialogSelection::Cancel,
                    },
                    ..self
                },
                KeyCode::Right => DashboardStateView {
                    quit_dialog_selection: match self.quit_dialog_selection {
                        QuitDialogSelection::Cancel => QuitDialogSelection::Kill,
                        QuitDialogSelection::Kill => QuitDialogSelection::Cancel,
                    },
                    ..self
                },
                KeyCode::Enter => match self.quit_dialog_selection {
                    QuitDialogSelection::Cancel => self.quit_cancelled(),
                    QuitDialogSelection::Kill => self.killing(),
                },
                KeyCode::Esc => self.quit_cancelled(),
                _ => if Self::is_interrupt(key) {
                    self.killing()
                } else {
                    self
                },
            }
        } else if Self::is_interrupt(key) {
            self.killing()
        } else if key.code == KeyCode::Char('q') && self.focus is TabBar {
            DashboardStateView {
                quit_mode: QuitMode::Confirming,
                quit_dialog_selection: QuitDialogSelection::Cancel,
                ..self
            }
        } else {
            self.key_pressed(key)
        }
    }
}

fn tab_of_digit_exec(c: char) -> (r: Option<usize>)
    ensures
        r == tab_of_digit(c),
{
    if c == '1' {
        Some(0)
    } else if c == '2' {
        Some(1)
    } else if c == '3' {
        Some(2)
    } else if c == '4' {
        Some(3)
    } else if c == '5' {
        Some(4)
    } else if c == '6' {
        Some(5)
    } else if c == '7' {
        Some(6)
    } else {
        None
    }
}

fn node_key_exec(node: &GraphNode) -> (r: Option<String>)
    ensures
        r.deep_view() == node_key(node@),
{
    match node {
        GraphNode::Scope { id, .. } => Some(concat("scope:", id.as_str())),
        GraphNode::App { id, .. } => Some(id.clone()),
        GraphNode::Plugin { name, .. } => Some(concat("plugin:", name.as_str())),
        GraphNode::Adapter { name, .. } => Some(concat("adapter:", name.as_str())),
        _ => None,
    }
}

fn owner_key_exec(kind: &Option<String>, id: &Option<String>, is_tool: bool) -> (r: Option<String>)
    ensures
        r.deep_view() == owner_key(kind.deep_view(), id.deep_view(), is_tool),
{
    match (kind, id) {
        (Some(k), Some(i)) => {
            if is_tool && str_eq(k.as_str(), "plugin") {
                Some(concat("plugin:", i.as_str()))
            } else if is_tool && str_eq(k.as_str(), "adapter") {
                Some(concat("adapter:", i.as_str()))
            } else if str_eq(k.as_str(), "app") || str_eq(k.as_str(), "scope") {
                Some(i.clone())
            } else {
                None
            }
        },
        _ => None,
    }
}

fn is_expanded_exec(state: &DashboardState, key: &str) -> (r: bool)
    ensures
        r == state@.is_expanded(key@),
{
    crate::state::keyed::text_in_list(&state.graph_expanded, key)
}

fn collapse_target_exec(state: &DashboardState, node: &GraphNode) -> (r: (Option<String>, bool))
    ensures
        (r.0.deep_view(), r.1) == state@.collapse_target(node@),
{
    match node {
        GraphNode::Scope { id, .. } => {
            let key = concat("scope:", id.as_str());
            if is_expanded_exec(state, key.as_str()) {
                (Some(key), false)
            } else {
                (None, false)
            }
        },
        GraphNode::App { id, scope_id, .. } => {
            if is_expanded_exec(state, id.as_str()) {
                (Some(id.clone()), false)
            } else {
                match scope_id {
                    Some(sid) => (Some(concat("scope:", sid.as_str())), true),
                    None => (None, false),
                }
            }
        },
        GraphNode::Plugin { name, owner_app } => {
            let key = concat("plugin:", name.as_str());
            if is_expanded_exec(state, key.as_str()) {
                (Some(key), false)
            } else {
                (Some(owner_app.clone()), true)
            }
        },
        GraphNode::Adapter { name, owner_app } => {
            let key = concat("adapter:", name.as_str());
            if is_expanded_exec(state, key.as_str()) {
                (Some(key), false)
            } else {
                (Some(owner_app.clone()), true)
            }
        },
        GraphNode::Tool { owner_kind, owner_id, .. } => (
            owner_key_exec(owner_kind, owner_id, true),
            true,
        ),
        GraphNode::Resource { owner_kind, owner_id, .. } => (
            owner_key_exec(owner_kind, owner_id, false),
            true,
        ),
        GraphNode::Prompt { owner_kind, owner_id, .. } => (
            owner_key_exec(owner_kind, owner_id, false),
            true,
        ),
        _ => (None, false),
    }
}

fn parent_index_exec(rows: &Vec<(GraphNode, usize)>, key: &str, below: usize) -> (r: Option<usize>)
    requires
        below <= rows.len(),
    ensures
        match r {
            Some(i) => parent_index(rows.deep_view(), key@, below as int) == Some(i as int),
            None => parent_index(rows.deep_view(), key@, below as int) is None,
        },
{
    let mut i: usize = below;
    while i > 0
        invariant
            i <= below <= rows.len(),
            parent_index(rows.deep_view(), key@, below as int) == parent_index(
                rows.deep_view(),
                key@,
                i as int,
            ),
        decreases i,
    {
        let found = match node_key_exec(&rows[i - 1].0) {
            Some(k) => str_eq(k.as_str(), key),
            None => false,
        };
        if found {
            return Some(i - 1);
        }
        i -= 1;
    }
    None
}

/// Turns keys into changes of the state.
#[derive(Debug, Clone, Copy)]
pub struct InputHandler {}

impl Default for InputHandler {
    fn default() -> (r: InputHandler) {
        InputHandler::new()
    }
}

impl InputHandler {
    pub fn new() -> (r: InputHandler) {
        InputHandler {  }
    }

    fn handle_tab_bar(&mut self, state: &mut DashboardState, code: KeyCode)
        ensures
            final(state)@ == old(state)@.tab_bar_key(code),
    {
        match code {
            KeyCode::Left => state.prev_tab(),
            KeyCode::Right => state.next_tab(),
            KeyCode::Enter => state.enter_tab_content(),
            KeyCode::Down => state.enter_tab_content(),
            KeyCode::Char(c) => {
                if c == ' ' {
                    state.enter_tab_content();
                } else if c == 'o' {
                    state.focus = FocusArea::Overview;
                }
            },
            _ => {},
        }
    }

    fn handle_overview(&mut self, state: &mut DashboardState, code: KeyCode)
        ensures
            final(state)@ == old(state)@.overview_key(code),
    {
        match code {
            KeyCode::Up => state.scroll_overview_up(),
            KeyCode::Down => state.scroll_overview_down(),
            KeyCode::PageUp => {
                state.overview_scroll = state.overview_scroll.saturating_sub(PAGE_STEP);
            },
            KeyCode::PageDown => {
                state.overview_scroll = state.overview_scroll.saturating_add(PAGE_STEP);
            },
            KeyCode::Home => {
                state.overview_scroll = 0;
            },
            KeyCode::Esc => {
                state.focus = FocusArea::TabBar;
            },
            KeyCode::Right => {
                state.focus = FocusArea::TabBar;
            },
            _ => {},
        }
    }

    fn handle_logs_list(&mut self, state: &mut DashboardState, code: KeyCode)
        ensures
            final(state)@ == old(state)@.logs_key(code),
    {
        match code {
            KeyCode::Up => state.scroll_logs_up(1),
            KeyCode::Down => state.scroll_logs_down(1),
            KeyCode::PageUp => state.scroll_logs_up(PAGE_STEP),
            KeyCode::PageDown => state.scroll_logs_down(PAGE_STEP),
            KeyCode::Home => {
                state.list_scroll = state.logs.len().saturating_sub(1);
            },
            KeyCode::End => {
                state.list_scroll = 0;
            },
            KeyCode::Esc => {
                state.focus = FocusArea::TabBar;
            },
            _ => {},
        }
    }

    fn graph_open(&mut self, state: &mut DashboardState)
        ensures
            final(state)@ == old(state)@.graph_opened(),
    {
        let rows = build_graph_nodes(state);
        if state.graph_selected < rows.len() {
            match node_key_exec(&rows[state.graph_selected].0) {
                Some(key) => state.toggle_graph_expand(key.as_str()),
                None => {
                    state.focus = FocusArea::Detail;
                },
            }
        }
    }

    fn graph_expand(&mut self, state: &mut DashboardState)
        ensures
            final(state)@ == old(state)@.graph_expanded_at_selection(),
    {
        let rows = build_graph_nodes(state);
        if state.graph_selected < rows.len() {
            match node_key_exec(&rows[state.graph_selected].0) {
                Some(key) => state.expand_graph_node(key.as_str()),
                None => {},
            }
        }
    }

    fn graph_collapse(&mut self, state: &mut DashboardState)
        ensures
            final(state)@ == old(state)@.graph_collapsed_at_selection(),
    {
        let rows = build_graph_nodes(state);
        if state.graph_selected < rows.len() {
            let target = collapse_target_exec(state, &rows[state.graph_selected].0);
            match target.0 {
                Some(key) => {
                    if target.1 {
                        match parent_index_exec(&rows, key.as_str(), state.graph_selected) {
                            Some(i) => {
                                state.graph_selected = i;
                            },
                            None => {},
                        }
                    }
                    state.collapse_graph_node(key.as_str());
                },
                None => {},
            }
        }
    }

    fn graph_move_down(&mut self, state: &mut DashboardState, step: usize)
        ensures
            final(state)@ == old(state)@.graph_moved_down(step),
    {
        let max = state.graph_tree_len().saturating_sub(1);
        let next = state.graph_selected.saturating_add(step);
        state.graph_selected = if next <= max {
            next
        } else {
            max
        };
    }

    fn handle_graph_list(&mut self, state: &mut DashboardState, code: KeyCode)
        ensures
            final(state)@ == old(state)@.graph_key(code),
    {
        match code {
            KeyCode::Up => {
                state.graph_selected = state.graph_selected.saturating_sub(1);
            },
            KeyCode::Down => self.graph_move_down(state, 1),
            KeyCode::Enter => self.graph_open(state),
            KeyCode::Char(c) => {
                if c == ' ' {
                    self.graph_open(state);
                }
            },
            KeyCode::Right => self.graph_expand(state),
            KeyCode::Left => self.graph_collapse(state),
            KeyCode::Esc => {
                state.focus = FocusArea::TabBar;
            },
            KeyCode::PageUp => {
                state.graph_selected = state.graph_selected.saturating_sub(PAGE_STEP);
            },
            KeyCode::PageDown => self.graph_move_down(state, PAGE_STEP),
            KeyCode::Home => {
                state.graph_selected = 0;
            },
            KeyCode::End => {
                state.graph_selected = state.graph_tree_len().saturating_sub(1);
            },
            _ => {},
        }
    }

    fn handle_plain_list(&mut self, state: &mut DashboardState, code: KeyCode)
        ensures
            final(state)@ == old(state)@.plain_list_key(code),
    {
        match code {
            KeyCode::Up => state.move_up(),
            KeyCode::Down => state.move_down(),
            KeyCode::Enter => state.select_item(),
            KeyCode::Char(c) => {
                if c == ' ' {
                    state.select_item();
                }
            },
            KeyCode::Esc => {
                state.focus = FocusArea::TabBar;
            },
            KeyCode::PageUp => state.page_up(),
            KeyCode::PageDown => state.page_down(),
            KeyCode::Home => state.jump_top(),
            KeyCode::End => state.jump_bottom(),
            _ => {},
        }
    }

    fn handle_list(&mut self, state: &mut DashboardState, code: KeyCode)
        ensures
            final(state)@ == old(state)@.list_key(code),
    {
        match state.active_tab {
            Tab::Logs => self.handle_logs_list(state, code),
            Tab::Graph => self.handle_graph_list(state, code),
            _ => self.handle_plain_list(state, code),
        }
    }

    fn handle_detail(&mut self, state: &mut DashboardState, code: KeyCode)
        ensures
            final(state)@ == old(state)@.detail_key(code),
    {
        match code {
            KeyCode::Up => state.scroll_detail_up(),
            KeyCode::Down => state.scroll_detail_down(),
            KeyCode::Esc => state.back_from_detail(),
            KeyCode::Backspace => state.back_from_detail(),
            KeyCode::PageUp => {
                state.detail_scroll = state.detail_scroll.saturating_sub(PAGE_STEP);
            },
            KeyCode::PageDown => {
                state.detail_scroll = state.detail_scroll.saturating_add(PAGE_STEP);
            },
            _ => {},
        }
    }

    fn handle_sub_tab(&mut self, state: &mut DashboardState, code: KeyCode)
        ensures
            final(state)@ == old(state)@.sub_tab_key(code),
    {
        match code {
            KeyCode::Left => state.prev_sub_tab(),
            KeyCode::Right => state.next_sub_tab(),
            KeyCode::Enter => {
                state.focus = FocusArea::List;
            },
            KeyCode::Down => {
                state.focus = FocusArea::List;
            },
            KeyCode::Char(c) => {
                if c == ' ' {
                    state.focus = FocusArea::List;
                }
            },
            KeyCode::Esc => {
                state.focus = FocusArea::TabBar;
            },
            _ => {},
        }
    }

    fn handle_filter_input(&mut self, state: &mut DashboardState, code: KeyCode)
        ensures
            final(state)@ == old(state)@.filter_key(code),
    {
        match code {
            KeyCode::Enter => {
                state.focus = FocusArea::List;
            },
            KeyCode::Down => {
                state.focus = FocusArea::List;
            },
            KeyCode::Esc => {
                state.focus = FocusArea::TabBar;
            },
            KeyCode::Backspace => state.log_filter.clear(),
            _ => {},
        }
    }

    fn handle_focus(&mut self, state: &mut DashboardState, code: KeyCode)
        ensures
            final(state)@ == old(state)@.focus_key(code),
    {
        match state.focus {
            FocusArea::TabBar => self.handle_tab_bar(state, code),
            FocusArea::Overview => self.handle_overview(state, code),
            FocusArea::List => self.handle_list(state, code),
            FocusArea::Detail => self.handle_detail(state, code),
            FocusArea::SubTab => self.handle_sub_tab(state, code),
            FocusArea::FilterInput => self.handle_filter_input(state, code),
        }
    }

    /// Takes in a key.
    pub fn handle_key(&mut self, state: &mut DashboardState, key: KeyEvent)
        ensures
            final(state)@ == old(state)@.key_pressed(key),
    {
        if state.show_help {
            state.show_help = false;
            return ;
        }
        match key.code {
            KeyCode::Char(c) => {
                if c == '?' {
                    state.toggle_help();
                } else {
                    match tab_of_digit_exec(c) {
                        Some(index) => {
                            state.switch_tab_by_index(index);
                            state.focus = FocusArea::TabBar;
                        },
                        None => self.handle_focus(state, key.code),
                    }
                }
            },
            _ => self.handle_focus(state, key.code),
        }
    }

    /// Takes in a key with the quit dialog in front of everything else, and
    /// says whether the program is to leave.
    pub fn handle_app_key(&mut self, state: &mut DashboardState, key: KeyEvent) -> (quit: bool)
        ensures
            final(state)@ == old(state)@.app_key_pressed(key),
            quit == old(state)@.quits_on(key),
    {
        let interrupt = key.ctrl && match key.code {
            KeyCode::Char(c) => c == 'c',
            _ => false,
        };
        let on_q = match key.code {
            KeyCode::Char(c) => c == 'q',
            _ => false,
        };
        match state.quit_mode {
            QuitMode::Confirming => {
                match key.code {
                    KeyCode::Left => {
                        state.quit_dialog_selection = match state.quit_dialog_selection {
                            QuitDialogSelection::Cancel => QuitDialogSelection::Kill,
                            QuitDialogSelection::Kill => QuitDialogSelection::Cancel,
                        };
                        false
                    },
                    KeyCode::Right => {
                        state.quit_dialog_selection = match state.quit_dialog_selection {
                            QuitDialogSelection::Cancel => QuitDialogSelection::Kill,
                            QuitDialogSelection::Kill => QuitDialogSelection::Cancel,
                        };
                        false
                    },
                    KeyCode::Enter => {
                        match state.quit_dialog_selection {
                            QuitDialogSelection::Cancel => {
                                state.quit_mode = QuitMode::NotQuitting;
                                state.quit_dialog_selection = QuitDialogSelection::Cancel;
                                false
                            },
                            QuitDialogSelection::Kill => {
                                state.quit_mode = QuitMode::KillAll;
                                true
                            },
                        }
                    },
                    KeyCode::Esc => {
                        state.quit_mode = QuitMode::NotQuitting;
                        state.quit_dialog_selection = QuitDialogSelection::Cancel;
                        false
                    },
                    _ => {
                        if interrupt {
                            state.quit_mode = QuitMode::KillAll;
                            true
                        } else {
                            false
                        }
                    },
                }
            },
            _ => {
                if interrupt {
                    state.quit_mode = QuitMode::KillAll;
                    true
                } else if on_q && match state.focus {
                    FocusArea::TabBar => true,
                    _ => false,
                } {
                    state.quit_mode = QuitMode::Confirming;
                    state.quit_dialog_selection = QuitDialogSelection::Cancel;
                    false
                } else {
                    self.handle_key(state, key);
                    false
                }
            },
        }
    }
}

} // verus!
