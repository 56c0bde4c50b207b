//! The ownership graph, the keys and the mouse.

use frontmcp_tui::input::{InputHandler, KeyCode, KeyEvent};
use frontmcp_tui::mouse::{decimal_width, get_tab_at_position, MouseEvent, MouseKind};
use frontmcp_tui::state::graph::GraphNode;
use frontmcp_tui::state::graph_build::{build_graph_nodes, get_node_at_index, infer_apps};
use frontmcp_tui::state::model::{
    AdapterInfo, AppInfo, AppScope, DashboardState, PluginInfo, PromptInfo, ResourceInfo,
    ScopeInfo, SessionInfo, ToolInfo,
};
use frontmcp_tui::state::tabs::{
    ActivitySubTab, FocusArea, QuitDialogSelection, QuitMode, Tab,
};

fn tool(name: &str, kind: Option<&str>, id: Option<&str>) -> ToolInfo {
    ToolInfo {
        name: name.into(),
        description: None,
        input_schema: None,
        output_schema: None,
        owner_kind: kind.map(String::from),
        owner_id: id.map(String::from),
    }
}

fn sample() -> DashboardState {
    let mut s = DashboardState::default();
    s.tools = vec![
        tool("zeta_tool", Some("app"), Some("Zoo")),
        tool("free_tool", None, None),
        tool("cached", Some("plugin"), Some("cache")),
        tool("alpha_tool", Some("scope"), Some("Alpha")),
        tool("rest_get", Some("adapter"), Some("rest")),
        tool("zoo_two", Some("app"), Some("Zoo")),
    ];
    s.resources = vec![
        ResourceInfo { name: "res".into(), uri: None, owner_kind: Some("app".into()), owner_id: Some("Zoo".into()) },
        ResourceInfo { name: "free_res".into(), uri: None, owner_kind: None, owner_id: None },
    ];
    s.prompts = vec![PromptInfo {
        name: "ask".into(),
        owner_kind: Some("app".into()),
        owner_id: Some("Mid".into()),
    }];
    s.plugins = vec![PluginInfo { name: "cache".into(), version: None, owner_id: Some("Zoo".into()) }];
    s.adapters = vec![AdapterInfo { name: "rest".into(), description: None, owner_id: Some("Zoo".into()) }];
    s
}

fn labels(state: &DashboardState) -> Vec<String> {
    build_graph_nodes(state)
        .iter()
        .map(|(node, depth)| {
            let text = match node {
                GraphNode::Server => "server".to_string(),
                GraphNode::Scope { id, .. } => format!("scope {}", id),
                GraphNode::App { id, scope_id, .. } => match scope_id {
                    Some(s) => format!("app {} in {}", id, s),
                    None => format!("app {}", id),
                },
                GraphNode::Plugin { name, owner_app } => format!("plugin {} of {}", name, owner_app),
                GraphNode::Adapter { name, owner_app } => format!("adapter {} of {}", name, owner_app),
                GraphNode::Tool { name, .. } => format!("tool {}", name),
                GraphNode::Resource { name, .. } => format!("resource {}", name),
                GraphNode::Prompt { name, .. } => format!("prompt {}", name),
                GraphNode::DirectHeader => "direct".to_string(),
            };
            format!("{}{}", "  ".repeat(*depth), text)
        })
        .collect()
}

#[test]
fn apps_are_inferred_from_owners_and_sorted_by_name() {
    let mut state = sample();
    let ids: Vec<String> = infer_apps(&state).iter().map(|a| a.id.clone()).collect();
    assert_eq!(ids, vec!["Alpha", "Mid", "Zoo"]);
    // A listed app goes by its listed name, which decides its place.
    state.apps = vec![AppInfo {
        id: "Zoo".into(),
        name: "A zoo".into(),
        tool_count: 0,
        resource_count: 0,
        prompt_count: 0,
        plugin_count: 0,
    }];
    state.scopes = vec![ScopeInfo { id: "Alpha".into(), name: "Alpha".into() }];
    state.app_scope_map = vec![AppScope { app_id: "Mid".into(), scope_id: "Alpha".into() }];
    let apps = infer_apps(&state);
    let seen: Vec<(&str, &str, Option<&str>)> = apps
        .iter()
        .map(|a| (a.id.as_str(), a.name.as_str(), a.scope_id.as_deref()))
        .collect();
    assert_eq!(
        seen,
        vec![("Zoo", "A zoo", None), ("Alpha", "Alpha", Some("Alpha")), ("Mid", "Mid", Some("Alpha"))]
    );
}

#[test]
fn the_graph_shows_what_is_expanded() {
    let mut state = sample();
    assert_eq!(
        labels(&state),
        vec![
            "server",
            "  app Alpha",
            "  app Mid",
            "  app Zoo",
            "  direct",
            "    tool free_tool",
            "    resource free_res",
        ]
    );
    assert_eq!(state.graph_tree_len(), 7);
    state.toggle_graph_expand("Zoo");
    state.toggle_graph_expand("plugin:cache");
    assert_eq!(
        labels(&state),
        vec![
            "server",
            "  app Alpha",
            "  app Mid",
            "  app Zoo",
            "    adapter rest of Zoo",
            "    plugin cache of Zoo",
            "      tool cached",
            "    tool zeta_tool",
            "    tool zoo_two",
            "    resource res",
            "  direct",
            "    tool free_tool",
            "    resource free_res",
        ]
    );
    assert_eq!(state.graph_tree_len(), 13);
    assert!(matches!(get_node_at_index(&state, 6), Some(GraphNode::Tool { .. })));
    assert!(get_node_at_index(&state, 13).is_none());
    state.toggle_graph_expand("Zoo");
    assert_eq!(state.graph_expanded, vec!["plugin:cache".to_string()]);
    assert_eq!(state.graph_tree_len(), 7);
}

#[test]
fn with_several_scopes_the_apps_stand_under_their_scopes() {
    let mut state = sample();
    state.scopes = vec![
        ScopeInfo { id: "Alpha".into(), name: "Alpha".into() },
        ScopeInfo { id: "Beta".into(), name: "Beta".into() },
    ];
    state.app_scope_map = vec![AppScope { app_id: "Zoo".into(), scope_id: "Beta".into() }];
    state.graph_expanded = vec!["scope:Beta".into(), "scope:Alpha".into(), "Alpha".into()];
    assert_eq!(
        labels(&state),
        vec![
            "server",
            "  scope Alpha",
            "    app Alpha in Alpha",
            "      tool alpha_tool",
            "  scope Beta",
            "    app Zoo in Beta",
            "  direct",
            "    app Mid",
        ]
    );
}

fn key(code: KeyCode) -> KeyEvent {
    KeyEvent { code, ctrl: false }
}

#[test]
fn the_left_key_collapses_the_owner_and_selects_it() {
    let mut state = sample();
    let mut input = InputHandler::new();
    state.active_tab = Tab::Graph;
    state.focus = FocusArea::List;
    state.graph_expanded = vec!["Zoo".into(), "plugin:cache".into()];
    // On the tool of the plugin: the plugin collapses and is selected.
    state.graph_selected = 6;
    input.handle_key(&mut state, key(KeyCode::Left));
    assert_eq!(state.graph_selected, 5);
    assert_eq!(state.graph_expanded, vec!["Zoo".to_string()]);
    // On the collapsed plugin: its app collapses and is selected.
    input.handle_key(&mut state, key(KeyCode::Left));
    assert_eq!(state.graph_selected, 3);
    assert!(state.graph_expanded.is_empty());
    // On the collapsed app of no scope nothing happens.
    input.handle_key(&mut state, key(KeyCode::Left));
    assert_eq!(state.graph_selected, 3);
    // Right expands, enter toggles, and a leaf opens the detail view.
    input.handle_key(&mut state, key(KeyCode::Right));
    input.handle_key(&mut state, key(KeyCode::Right));
    assert_eq!(state.graph_expanded, vec!["Zoo".to_string()]);
    input.handle_key(&mut state, key(KeyCode::Enter));
    assert!(state.graph_expanded.is_empty());
    input.handle_key(&mut state, key(KeyCode::End));
    assert_eq!(state.graph_selected, 6);
    input.handle_key(&mut state, key(KeyCode::Down));
    assert_eq!(state.graph_selected, 6);
    input.handle_key(&mut state, key(KeyCode::Char(' ')));
    assert_eq!(state.focus, FocusArea::Detail);
    // An expanded app collapses itself and stays selected.
    state.focus = FocusArea::List;
    state.graph_selected = 3;
    state.graph_expanded = vec!["Zoo".into()];
    input.handle_key(&mut state, key(KeyCode::Left));
    assert_eq!(state.graph_selected, 3);
    assert!(state.graph_expanded.is_empty());
}

#[test]
fn keys_move_between_tabs_and_lists() {
    let mut state = DashboardState::default();
    let mut input = InputHandler::default();
    input.handle_key(&mut state, key(KeyCode::Left));
    assert_eq!(state.active_tab, Tab::Graph);
    input.handle_key(&mut state, key(KeyCode::Right));
    assert_eq!(state.active_tab, Tab::Sessions);
    input.handle_key(&mut state, key(KeyCode::Char('2')));
    assert_eq!(state.active_tab, Tab::Capabilities);
    assert_eq!(state.focus, FocusArea::TabBar);
    input.handle_key(&mut state, key(KeyCode::Char('8')));
    assert_eq!(state.active_tab, Tab::Capabilities);
    input.handle_key(&mut state, key(KeyCode::Enter));
    assert_eq!(state.focus, FocusArea::SubTab);
    input.handle_key(&mut state, key(KeyCode::Left));
    assert_eq!(state.activity_sub_tab, ActivitySubTab::Plugins);
    input.handle_key(&mut state, key(KeyCode::Right));
    assert_eq!(state.activity_sub_tab, ActivitySubTab::Tools);
    state.tools = (0..25).map(|i| tool(&format!("t{}", i), None, None)).collect();
    input.handle_key(&mut state, key(KeyCode::Down));
    assert_eq!(state.focus, FocusArea::List);
    input.handle_key(&mut state, key(KeyCode::PageDown));
    input.handle_key(&mut state, key(KeyCode::Down));
    assert_eq!(state.list_selected, 11);
    input.handle_key(&mut state, key(KeyCode::PageDown));
    input.handle_key(&mut state, key(KeyCode::PageDown));
    assert_eq!(state.list_selected, 24);
    input.handle_key(&mut state, key(KeyCode::PageUp));
    assert_eq!(state.list_selected, 14);
    input.handle_key(&mut state, key(KeyCode::Home));
    input.handle_key(&mut state, key(KeyCode::Up));
    assert_eq!(state.list_selected, 0);
    input.handle_key(&mut state, key(KeyCode::End));
    assert_eq!(state.list_selected, 24);
    input.handle_key(&mut state, key(KeyCode::Enter));
    assert_eq!(state.focus, FocusArea::Detail);
    input.handle_key(&mut state, key(KeyCode::PageDown));
    input.handle_key(&mut state, key(KeyCode::Up));
    assert_eq!(state.detail_scroll, 9);
    input.handle_key(&mut state, key(KeyCode::Backspace));
    assert_eq!(state.focus, FocusArea::List);
    assert_eq!(state.detail_scroll, 0);
    // The help takes the next key, whatever it is.
    input.handle_key(&mut state, key(KeyCode::Char('?')));
    assert!(state.show_help);
    input.handle_key(&mut state, key(KeyCode::Char('3')));
    assert!(!state.show_help);
    assert_eq!(state.active_tab, Tab::Capabilities);
}

#[test]
fn a_session_is_opened_from_the_list() {
    let mut state = DashboardState::default();
    let mut input = InputHandler::new();
    for id in ["a", "b"] {
        state.open_session(SessionInfo {
            id: id.into(),
            transport_type: None,
            client_name: None,
            client_version: None,
            user_agent: None,
            connected_at: 0,
            is_active: true,
            auth_mode: None,
            auth_user_name: None,
            auth_user_email: None,
            is_anonymous: None,
        });
    }
    state.focus = FocusArea::List;
    input.handle_key(&mut state, key(KeyCode::Down));
    input.handle_key(&mut state, key(KeyCode::Enter));
    assert_eq!(state.selected_session.as_deref(), Some("b"));
    assert_eq!(state.focus, FocusArea::Detail);
    input.handle_key(&mut state, key(KeyCode::Esc));
    assert_eq!(state.selected_session, None);
    // Past the end of the list nothing is opened.
    state.list_selected = 2;
    input.handle_key(&mut state, key(KeyCode::Enter));
    assert_eq!(state.selected_session, None);
    assert_eq!(state.focus, FocusArea::List);
}

#[test]
fn the_quit_dialog_comes_before_everything_else() {
    let mut state = DashboardState::default();
    let mut input = InputHandler::new();
    assert!(!input.handle_app_key(&mut state, key(KeyCode::Char('q'))));
    assert_eq!(state.quit_mode, QuitMode::Confirming);
    assert_eq!(state.quit_dialog_selection, QuitDialogSelection::Cancel);
    // Other keys do nothing while the dialog shows.
    assert!(!input.handle_app_key(&mut state, key(KeyCode::Char('2'))));
    assert_eq!(state.active_tab, Tab::Sessions);
    assert!(!input.handle_app_key(&mut state, key(KeyCode::Enter)));
    assert_eq!(state.quit_mode, QuitMode::NotQuitting);
    assert!(!input.handle_app_key(&mut state, key(KeyCode::Char('q'))));
    assert!(!input.handle_app_key(&mut state, key(KeyCode::Right)));
    assert_eq!(state.quit_dialog_selection, QuitDialogSelection::Kill);
    assert!(input.handle_app_key(&mut state, key(KeyCode::Enter)));
    assert_eq!(state.quit_mode, QuitMode::KillAll);
    // The interrupt leaves at once; `q` asks only on the tab bar.
    let mut state = DashboardState::default();
    state.focus = FocusArea::List;
    assert!(!input.handle_app_key(&mut state, key(KeyCode::Char('q'))));
    assert_eq!(state.quit_mode, QuitMode::NotQuitting);
    assert!(!input.handle_app_key(&mut state, key(KeyCode::Char('c'))));
    assert!(input.handle_app_key(&mut state, KeyEvent { code: KeyCode::Char('c'), ctrl: true }));
    assert_eq!(state.quit_mode, QuitMode::KillAll);
}

#[test]
fn the_log_scrolls_between_its_newest_and_its_oldest_entry() {
    let mut state = DashboardState::default();
    let mut input = InputHandler::new();
    for i in 0..30u64 {
        state.add_log_at(i, frontmcp_tui::state::model::LogLevel::Info, format!("{}", i), "t");
    }
    state.active_tab = Tab::Logs;
    state.focus = FocusArea::List;
    input.handle_key(&mut state, key(KeyCode::PageUp));
    input.handle_key(&mut state, key(KeyCode::Up));
    assert_eq!(state.list_scroll, 11);
    input.handle_key(&mut state, key(KeyCode::PageUp));
    input.handle_key(&mut state, key(KeyCode::PageUp));
    assert_eq!(state.list_scroll, 29);
    input.handle_key(&mut state, key(KeyCode::Down));
    assert_eq!(state.list_scroll, 28);
    input.handle_key(&mut state, key(KeyCode::End));
    assert_eq!(state.list_scroll, 0);
    input.handle_key(&mut state, key(KeyCode::Home));
    assert_eq!(state.list_scroll, 29);
    input.handle_key(&mut state, key(KeyCode::Char(' ')));
    assert_eq!(state.focus, FocusArea::List);
}

#[test]
fn tabs_are_found_again_by_position_and_by_column() {
    assert_eq!(Tab::all().len(), 7);
    for (i, tab) in Tab::all().iter().enumerate() {
        assert_eq!(tab.index(), i);
        assert_eq!(Tab::from_index(i), *tab);
    }
    assert_eq!(Tab::from_index(7), Tab::Sessions);
    assert_eq!(Tab::AiInsight.name(), "AI Insight");
    assert_eq!(ActivitySubTab::all().len(), 4);
    for (i, tab) in ActivitySubTab::all().iter().enumerate() {
        assert_eq!(tab.index(), i);
        assert_eq!(ActivitySubTab::from_index(i), *tab);
    }
    assert_eq!(ActivitySubTab::from_index(4), ActivitySubTab::Tools);
    assert_eq!(ActivitySubTab::Resources.name(), "Resources");
    for tab in Tab::all() {
        assert_eq!(tab.label_width(), tab.name().len());
    }
    for tab in ActivitySubTab::all() {
        assert_eq!(tab.name_width(), tab.name().len());
    }
    assert_eq!(get_tab_at_position(0), Some(Tab::Sessions));
    assert_eq!(get_tab_at_position(7), Some(Tab::Sessions));
    assert_eq!(get_tab_at_position(8), None);
    assert_eq!(get_tab_at_position(13), Some(Tab::Capabilities));
    assert_eq!(get_tab_at_position(30), Some(Tab::Logs));
    assert_eq!(get_tab_at_position(85), Some(Tab::Graph));
    assert_eq!(get_tab_at_position(86), None);
    assert_eq!(decimal_width(0), 1);
    assert_eq!(decimal_width(9), 1);
    assert_eq!(decimal_width(10), 2);
    assert_eq!(decimal_width(12345), 5);
}

fn mouse(kind: MouseKind, column: u16, row: u16) -> MouseEvent {
    MouseEvent { kind, column, row }
}

#[test]
fn the_mouse_acts_by_the_part_of_the_screen() {
    // 100 columns: the overview takes 25, the list of a tab 30 of the other 75.
    let mut state = DashboardState::default();
    state.handle_mouse_event(mouse(MouseKind::LeftDown, 25 + 30, 2), 100, 40);
    assert_eq!(state.active_tab, Tab::Logs);
    assert_eq!(state.focus, FocusArea::TabBar);
    state.handle_mouse_event(mouse(MouseKind::LeftDown, 10, 20), 100, 40);
    assert_eq!(state.focus, FocusArea::Overview);
    state.handle_mouse_event(mouse(MouseKind::LeftDown, 60, 20), 100, 40);
    assert_eq!(state.focus, FocusArea::List);
    // A click on the key hints does nothing.
    state.focus = FocusArea::TabBar;
    state.handle_mouse_event(mouse(MouseKind::LeftDown, 60, 38), 100, 40);
    assert_eq!(state.focus, FocusArea::TabBar);
    state.active_tab = Tab::Sessions;
    state.handle_mouse_event(mouse(MouseKind::LeftDown, 54, 10), 100, 40);
    assert_eq!(state.focus, FocusArea::List);
    state.handle_mouse_event(mouse(MouseKind::LeftDown, 55, 10), 100, 40);
    assert_eq!(state.focus, FocusArea::Detail);
    // The titles of the sub-tabs carry their counts: "Tools (12)" is ten wide.
    state.active_tab = Tab::Capabilities;
    state.tools = (0..12).map(|i| tool(&format!("t{}", i), None, None)).collect();
    state.list_selected = 4;
    state.handle_mouse_event(mouse(MouseKind::LeftDown, 25 + 9, 5), 100, 40);
    assert_eq!(state.activity_sub_tab, ActivitySubTab::Tools);
    assert_eq!(state.focus, FocusArea::SubTab);
    assert_eq!(state.list_selected, 0);
    state.handle_mouse_event(mouse(MouseKind::LeftDown, 25 + 15, 5), 100, 40);
    assert_eq!(state.activity_sub_tab, ActivitySubTab::Resources);
    state.focus = FocusArea::TabBar;
    state.handle_mouse_event(mouse(MouseKind::LeftDown, 25 + 12, 5), 100, 40);
    assert_eq!(state.focus, FocusArea::TabBar);
}

#[test]
fn the_wheel_scrolls_what_lies_under_it() {
    let mut state = DashboardState::default();
    state.handle_mouse_event(mouse(MouseKind::ScrollDown, 3, 10), 100, 40);
    assert_eq!(state.overview_scroll, 3);
    state.overview_scroll = 499;
    state.handle_mouse_event(mouse(MouseKind::ScrollDown, 3, 10), 100, 40);
    assert_eq!(state.overview_scroll, 500);
    state.handle_mouse_event(mouse(MouseKind::ScrollUp, 3, 10), 100, 40);
    assert_eq!(state.overview_scroll, 497);
    state.active_tab = Tab::Capabilities;
    state.tools = (0..5).map(|i| tool(&format!("t{}", i), None, None)).collect();
    state.handle_mouse_event(mouse(MouseKind::ScrollDown, 30, 10), 100, 40);
    assert_eq!((state.list_scroll, state.list_selected), (3, 3));
    state.handle_mouse_event(mouse(MouseKind::ScrollDown, 30, 10), 100, 40);
    assert_eq!((state.list_scroll, state.list_selected), (4, 4));
    state.handle_mouse_event(mouse(MouseKind::ScrollUp, 30, 10), 100, 40);
    assert_eq!((state.list_scroll, state.list_selected), (1, 1));
    state.handle_mouse_event(mouse(MouseKind::ScrollDown, 80, 10), 100, 40);
    assert_eq!(state.detail_scroll, 3);
    state.active_tab = Tab::Playground;
    state.handle_mouse_event(mouse(MouseKind::ScrollDown, 80, 10), 100, 40);
    assert_eq!(state.detail_scroll, 3);
    state.handle_mouse_event(mouse(MouseKind::Other, 80, 10), 100, 40);
    assert_eq!(state.detail_scroll, 3);
}

#[test]
fn the_children_of_one_owner_come_in_the_order_of_their_names() {
    let mut state = DashboardState::default();
    state.tools = vec![
        tool("b", Some("app"), Some("A")),
        tool("a", Some("app"), Some("A")),
        tool("y", Some("plugin"), Some("p")),
        tool("x", Some("plugin"), Some("p")),
        tool("n", None, None),
        tool("m", None, None),
        tool("ab", Some("app"), Some("A")),
        tool("B", Some("app"), Some("A")),
    ];
    state.resources = vec![
        ResourceInfo { name: "r2".into(), uri: None, owner_kind: Some("app".into()), owner_id: Some("A".into()) },
        ResourceInfo { name: "r1".into(), uri: None, owner_kind: Some("app".into()), owner_id: Some("A".into()) },
    ];
    state.prompts = vec![
        PromptInfo { name: "q".into(), owner_kind: Some("app".into()), owner_id: Some("A".into()) },
        PromptInfo { name: "p".into(), owner_kind: Some("app".into()), owner_id: Some("A".into()) },
    ];
    state.plugins = vec![
        PluginInfo { name: "z".into(), version: None, owner_id: Some("A".into()) },
        PluginInfo { name: "p".into(), version: None, owner_id: Some("A".into()) },
    ];
    state.adapters = vec![
        AdapterInfo { name: "k".into(), description: None, owner_id: Some("A".into()) },
        AdapterInfo { name: "j".into(), description: None, owner_id: Some("A".into()) },
    ];
    state.graph_expanded = vec!["A".into(), "plugin:p".into()];
    let before = state.tools.iter().map(|t| t.name.clone()).collect::<Vec<_>>();
    assert_eq!(
        labels(&state),
        vec![
            "server",
            "  app A",
            "    adapter j of A",
            "    adapter k of A",
            "    plugin p of A",
            "      tool x",
            "      tool y",
            "    plugin z of A",
            "    tool B",
            "    tool a",
            "    tool ab",
            "    tool b",
            "    resource r1",
            "    resource r2",
            "    prompt p",
            "    prompt q",
            "  direct",
            "    tool m",
            "    tool n",
        ]
    );
    assert_eq!(state.graph_tree_len(), 19);
    // Building the rows leaves the collections in the order they have.
    assert_eq!(state.tools.iter().map(|t| t.name.clone()).collect::<Vec<_>>(), before);
    assert_eq!(labels(&state), labels(&state));
}
