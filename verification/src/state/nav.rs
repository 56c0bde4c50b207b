//! Moving about: tabs, lists, scrolling and the detail view.

use crate::state::model::{DashboardState, DashboardStateView};
use crate::state::tabs::{ActivitySubTab, FocusArea, Tab, SUB_TAB_COUNT, TAB_COUNT};
use vstd::prelude::*;

verus! {

/// How far a page key moves.
pub const PAGE_STEP: usize = 10;

/// `a + b`, stopping at the largest index.
pub open spec fn up_by(a: usize, b: usize) -> usize {
    if a + b > usize::MAX {
        usize::MAX
    } else {
        (a + b) as usize
    }
}

/// `a - b`, stopping at zero.
pub open spec fn down_by(a: usize, b: usize) -> usize {
    if a < b {
        0
    } else {
        (a - b) as usize
    }
}

/// The smaller of the two.
pub open spec fn at_most(a: usize, b: usize) -> usize {
    if a <= b {
        a
    } else {
        b
    }
}

/// The last index of a list of the length; zero for an empty list.
pub open spec fn last_index(len: nat) -> usize {
    if len == 0 {
        0
    } else if len - 1 > usize::MAX {
        usize::MAX
    } else {
        (len - 1) as usize
    }
}

impl DashboardStateView {
    /// How long the list of the active tab is.
    pub open spec fn current_list_len(self) -> nat {
        match self.active_tab {
            Tab::Sessions => self.sessions.len(),
            Tab::Capabilities => match self.activity_sub_tab {
                ActivitySubTab::Tools => self.tools.len(),
                ActivitySubTab::Resources => self.resources.len(),
                ActivitySubTab::Prompts => self.prompts.len(),
                ActivitySubTab::Plugins => self.plugins.len(),
            },
            Tab::Logs => self.log_filter.shown(self.logs).len(),
            Tab::Metrics => 0,
            Tab::Playground => 0,
            Tab::AiInsight => 0,
            Tab::Graph => self.graph_rows().len(),
        }
    }

    /// The state with the list at its top.
    pub open spec fn list_reset(self) -> DashboardStateView {
        DashboardStateView { list_selected: 0, list_scroll: 0, ..self }
    }

    /// The state on the tab, with the list at its top.
    pub open spec fn on_tab(self, tab: Tab) -> DashboardStateView {
        DashboardStateView { active_tab: tab, ..self }.list_reset()
    }

    /// The state on the tab after the active one; after the last tab comes the first.
    pub open spec fn next_tab(self) -> DashboardStateView {
        self.on_tab(Tab::spec_from_index((self.active_tab.spec_index() + 1) % (TAB_COUNT as nat)))
    }

    /// The state on the tab before the active one; before the first tab comes the last.
    pub open spec fn prev_tab(self) -> DashboardStateView {
        self.on_tab(
            Tab::spec_from_index(
                if self.active_tab.spec_index() == 0 {
                    (TAB_COUNT - 1) as nat
                } else {
                    (self.active_tab.spec_index() - 1) as nat
                },
            ),
        )
    }

    /// The state on the tab of the position; unchanged for a position past the last tab.
    pub open spec fn tab_switched(self, index: usize) -> DashboardStateView {
        if index < TAB_COUNT {
            self.on_tab(Tab::spec_from_index(index as nat))
        } else {
            self
        }
    }

    /// The state with the focus in the content of the active tab.
    pub open spec fn tab_entered(self) -> DashboardStateView {
        DashboardStateView {
            focus: match self.active_tab {
                Tab::Capabilities => FocusArea::SubTab,
                Tab::Logs => if self.log_filter.is_active() {
                    FocusArea::FilterInput
                } else {
                    FocusArea::List
                },
                _ => FocusArea::List,
            },
            ..self
        }
    }

    /// The state on the sub-tab, with the list at its top.
    pub open spec fn on_sub_tab(self, tab: ActivitySubTab) -> DashboardStateView {
        DashboardStateView { activity_sub_tab: tab, ..self }.list_reset()
    }

    pub open spec fn next_sub_tab(self) -> DashboardStateView {
        self.on_sub_tab(
            ActivitySubTab::spec_from_index(
                (self.activity_sub_tab.spec_index() + 1) % (SUB_TAB_COUNT as nat),
            ),
        )
    }

    pub open spec fn prev_sub_tab(self) -> DashboardStateView {
        self.on_sub_tab(
            ActivitySubTab::spec_from_index(
                if self.activity_sub_tab.spec_index() == 0 {
                    (SUB_TAB_COUNT - 1) as nat
                } else {
                    (self.activity_sub_tab.spec_index() - 1) as nat
                },
            ),
        )
    }

    /// The state with the selection moved down by `step`, not past the end of the list.
    pub open spec fn moved_down(self, step: usize) -> DashboardStateView {
        DashboardStateView {
            list_selected: at_most(
                up_by(self.list_selected, step),
                last_index(self.current_list_len()),
            ),
            ..self
        }
    }

    /// The state with the selection moved up by `step`, not past the top.
    pub open spec fn moved_up(self, step: usize) -> DashboardStateView {
        DashboardStateView { list_selected: down_by(self.list_selected, step), ..self }
    }

    /// The state with the selection at the end of the list.
    pub open spec fn at_bottom(self) -> DashboardStateView {
        DashboardStateView { list_selected: last_index(self.current_list_len()), ..self }
    }

    /// The state after the selected item was opened. On the sessions tab
    /// the selected session is opened, if there is one; elsewhere the
    /// detail view takes the focus.
    pub open spec fn item_selected(self) -> DashboardStateView {
        match self.active_tab {
            Tab::Sessions => if self.list_selected < self.sessions.len() {
                DashboardStateView {
                    selected_session: Some(self.sessions[self.list_selected as int].id),
                    detail_scroll: 0,
                    focus: FocusArea::Detail,
                    ..self
                }
            } else {
                self
            },
            _ => DashboardStateView { focus: FocusArea::Detail, ..self },
        }
    }

    /// The state back in the list, with no session selected.
    pub open spec fn detail_left(self) -> DashboardStateView {
        DashboardStateView {
            selected_session: None,
            focus: FocusArea::List,
            detail_scroll: 0,
            ..self
        }
    }

    /// The state with the log scrolled towards older entries, not past the oldest.
    pub open spec fn logs_scrolled_up(self, amount: usize) -> DashboardStateView {
        DashboardStateView {
            list_scroll: at_most(up_by(self.list_scroll, amount), last_index(self.logs.len())),
            ..self
        }
    }

    /// The state with the log scrolled towards the newest entry.
    pub open spec fn logs_scrolled_down(self, amount: usize) -> DashboardStateView {
        DashboardStateView { list_scroll: down_by(self.list_scroll, amount), ..self }
    }
}

fn last_index_exec(len: usize) -> (r: usize)
    ensures
        r == last_index(len as nat),
{
    len.saturating_sub(1)
}

fn at_most_exec(a: usize, b: usize) -> (r: usize)
    ensures
        r == at_most(a, b),
{
    if a <= b {
        a
    } else {
        b
    }
}

impl DashboardState {
    /// How long the list of the active tab is.
    pub fn current_list_len(&self) -> (r: usize)
        ensures
            r == self@.current_list_len(),
    {
        match self.active_tab {
            Tab::Sessions => self.sessions.len(),
            Tab::Capabilities => match self.activity_sub_tab {
                ActivitySubTab::Tools => self.tools.len(),
                ActivitySubTab::Resources => self.resources.len(),
                ActivitySubTab::Prompts => self.prompts.len(),
                ActivitySubTab::Plugins => self.plugins.len(),
            },
            Tab::Logs => self.filtered_logs().len(),
            Tab::Metrics => 0,
            Tab::Playground => 0,
            Tab::AiInsight => 0,
            Tab::Graph => self.graph_tree_len(),
        }
    }

    fn reset_list_selection(&mut self)
        ensures
            final(self)@ == old(self)@.list_reset(),
    {
        self.list_selected = 0;
        self.list_scroll = 0;
    }

    pub fn next_tab(&mut self)
        ensures
            final(self)@ == old(self)@.next_tab(),
    {
        let idx = self.active_tab.index();
        self.active_tab = Tab::from_index((idx + 1) % TAB_COUNT);
        self.reset_list_selection();
    }

    pub fn prev_tab(&mut self)
        ensures
            final(self)@ == old(self)@.prev_tab(),
    {
        let idx = self.active_tab.index();
        let prev: usize = if idx == 0 {
            TAB_COUNT - 1
        } else {
            idx - 1
        };
        self.active_tab = Tab::from_index(prev);
        self.reset_list_selection();
    }

    pub fn switch_tab_by_index(&mut self, index: usize)
        ensures
            final(self)@ == old(self)@.tab_switched(index),
    {
        if index < TAB_COUNT {
            self.active_tab = Tab::from_index(index);
            self.reset_list_selection();
        }
    }

    pub fn enter_tab_content(&mut self)
        ensures
            final(self)@ == old(self)@.tab_entered(),
    {
        match self.active_tab {
            Tab::Capabilities => {
                self.focus = FocusArea::SubTab;
            },
            Tab::Logs => {
                if self.log_filter.is_active() {
                    self.focus = FocusArea::FilterInput;
                } else {
                    self.focus = FocusArea::List;
                }
            },
            _ => {
                self.focus = FocusArea::List;
            },
        }
    }

    pub fn next_sub_tab(&mut self)
        ensures
            final(self)@ == old(self)@.next_sub_tab(),
    {
        let idx = self.activity_sub_tab.index();
        self.activity_sub_tab = ActivitySubTab::from_index((idx + 1) % SUB_TAB_COUNT);
        self.reset_list_selection();
    }

    pub fn prev_sub_tab(&mut self)
        ensures
            final(self)@ == old(self)@.prev_sub_tab(),
    {
        let idx = self.activity_sub_tab.index();
        let prev: usize = if idx == 0 {
            SUB_TAB_COUNT - 1
        } else {
            idx - 1
        };
        self.activity_sub_tab = ActivitySubTab::from_index(prev);
        self.reset_list_selection();
    }

    pub fn toggle_help(&mut self)
        ensures
            final(self)@ == (DashboardStateView { show_help: !old(self)@.show_help, ..old(self)@ }),
    {
        self.show_help = !self.show_help;
    }

    pub fn move_down(&mut self)
        ensures
            final(self)@ == old(self)@.moved_down(1),
    {
        let max = last_index_exec(self.current_list_len());
        self.list_selected = at_most_exec(self.list_selected.saturating_add(1), max);
    }

    pub fn move_up(&mut self)
        ensures
            final(self)@ == old(self)@.moved_up(1),
    {
        self.list_selected = self.list_selected.saturating_sub(1);
    }

    pub fn jump_top(&mut self)
        ensures
            final(self)@ == old(self)@.list_reset(),
    {
        self.list_selected = 0;
        self.list_scroll = 0;
    }

    pub fn jump_bottom(&mut self)
        ensures
            final(self)@ == old(self)@.at_bottom(),
    {
        self.list_selected = last_index_exec(self.current_list_len());
    }

    pub fn page_down(&mut self)
        ensures
            final(self)@ == old(self)@.moved_down(PAGE_STEP),
    {
        let max = last_index_exec(self.current_list_len());
        self.list_selected = at_most_exec(self.list_selected.saturating_add(PAGE_STEP), max);
    }

    pub fn page_up(&mut self)
        ensures
            final(self)@ == old(self)@.moved_up(PAGE_STEP),
    {
        self.list_selected = self.list_selected.saturating_sub(PAGE_STEP);
    }

    /// Opens the selected item.
    pub fn select_item(&mut self)
        ensures
            final(self)@ == old(self)@.item_selected(),
    {
        match self.active_tab {
            Tab::Sessions => {
                if self.list_selected < self.sessions.len() {
                    self.selected_session = Some(self.sessions[self.list_selected].id.clone());
                    self.detail_scroll = 0;
                    self.focus = FocusArea::Detail;
                }
            },
            _ => {
                self.focus = FocusArea::Detail;
            },
        }
    }

    pub fn back_from_detail(&mut self)
        ensures
            final(self)@ == old(self)@.detail_left(),
    {
        self.selected_session = None;
        self.focus = FocusArea::List;
        self.detail_scroll = 0;
    }

    pub fn scroll_detail_up(&mut self)
        ensures
            final(self)@ == (DashboardStateView {
                detail_scroll: down_by(old(self)@.detail_scroll, 1),
                ..old(self)@
            }),
    {
        self.detail_scroll = self.detail_scroll.saturating_sub(1);
    }

    pub fn scroll_detail_down(&mut self)
        ensures
            final(self)@ == (DashboardStateView {
                detail_scroll: up_by(old(self)@.detail_scroll, 1),
                ..old(self)@
            }),
    {
        self.detail_scroll = self.detail_scroll.saturating_add(1);
    }

    pub fn scroll_overview_up(&mut self)
        ensures
            final(self)@ == (DashboardStateView {
                overview_scroll: down_by(old(self)@.overview_scroll, 1),
                ..old(self)@
            }),
    {
        self.overview_scroll = self.overview_scroll.saturating_sub(1);
    }

    pub fn scroll_overview_down(&mut self)
        ensures
            final(self)@ == (DashboardStateView {
                overview_scroll: up_by(old(self)@.overview_scroll, 1),
                ..old(self)@
            }),
    {
        self.overview_scroll = self.overview_scroll.saturating_add(1);
    }

    /// Scrolls the log towards older entries.
    pub fn scroll_logs_up(&mut self, amount: usize)
        ensures
            final(self)@ == old(self)@.logs_scrolled_up(amount),
    {
        let max = last_index_exec(self.logs.len());
        self.list_scroll = at_most_exec(self.list_scroll.saturating_add(amount), max);
    }

    /// Scrolls the log towards the newest entry.
    pub fn scroll_logs_down(&mut self, amount: usize)
        ensures
            final(self)@ == old(self)@.logs_scrolled_down(amount),
    {
        self.list_scroll = self.list_scroll.saturating_sub(amount);
    }
}

} // verus!
