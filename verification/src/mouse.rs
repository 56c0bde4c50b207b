//! The mouse: what a click or a turn of the wheel does, by where on the
//! screen it happens.
//!
//! The screen has a status bar of one line on top and two lines of key hints
//! at the bottom. Between them the overview takes the left quarter and the
//! tabs the rest: a tab bar of three lines, and the content of the active
//! tab, whose left two fifths are its list.

use crate::state::model::{DashboardState, DashboardStateView};
use crate::state::nav::{at_most, down_by, last_index, up_by};
use crate::state::tabs::{ActivitySubTab, FocusArea, Tab, SUB_TAB_COUNT, TAB_COUNT};
use crate::text::decimal;
use vstd::prelude::*;

verus! {

/// What the mouse did.
#[derive(Debug, Clone, Copy, PartialEq, Eq, Structural)]
pub enum MouseKind {
    LeftDown,
    ScrollUp,
    ScrollDown,
    /// Anything that does nothing.
    Other,
}

/// What the mouse did, and in which cell of the screen.
#[derive(Debug, Clone, Copy)]
pub struct MouseEvent {
    pub kind: MouseKind,
    pub column: u16,
    pub row: u16,
}

/// The height of the status bar.
pub const STATUS_BAR_HEIGHT: u16 = 1;

/// The height of the key hints.
pub const KEY_HINTS_HEIGHT: u16 = 2;

/// The height of the tab bar, and of the bar of the sub-tabs.
pub const TAB_BAR_HEIGHT: u16 = 3;

/// The width of what stands between two titles of a bar.
pub const DIVIDER_WIDTH: usize = 5;

/// How far the wheel scrolls.
pub const WHEEL_STEP: usize = 3;

/// How far the overview and the detail view scroll down at most.
pub const SCROLL_LIMIT: usize = 500;

/// Where the parts of the screen lie.
pub struct ScreenLayout {
    /// The row under the last row of the content.
    pub content_end: u16,
    /// The width of the overview, and so the column where the tabs begin.
    pub overview_width: u16,
    /// The width of the list in the content of a tab.
    pub list_width: u16,
}

/// The layout of a screen of the size.
pub open spec fn layout_of(width: u16, height: u16) -> ScreenLayout {
    let overview_width = (width * 25 / 100) as u16;
    ScreenLayout {
        content_end: if height < 3 {
            1u16
        } else {
            (height - 2) as u16
        },
        overview_width,
        list_width: ((width - overview_width) * 40 / 100) as u16,
    }
}

impl ScreenLayout {
    pub open spec fn in_tab_bar(self, m: MouseEvent) -> bool {
        STATUS_BAR_HEIGHT <= m.row < STATUS_BAR_HEIGHT + TAB_BAR_HEIGHT && m.column
            >= self.overview_width
    }

    pub open spec fn in_overview(self, m: MouseEvent) -> bool {
        m.column < self.overview_width && STATUS_BAR_HEIGHT <= m.row < self.content_end
    }

    pub open spec fn in_tab_content(self, m: MouseEvent) -> bool {
        m.column >= self.overview_width && STATUS_BAR_HEIGHT + TAB_BAR_HEIGHT <= m.row
            < self.content_end
    }

    pub open spec fn in_sub_tab_bar(self, m: MouseEvent) -> bool {
        STATUS_BAR_HEIGHT + TAB_BAR_HEIGHT <= m.row < STATUS_BAR_HEIGHT + 2 * TAB_BAR_HEIGHT
    }

    /// Whether the event lies over the list of the content of a tab.
    pub open spec fn over_list(self, m: MouseEvent) -> bool {
        m.column - self.overview_width < self.list_width
    }
}

impl Tab {
    /// The width of the title in the tab bar.
    pub open spec fn spec_label_width(self) -> nat {
        match self {
            Tab::Sessions => 8,
            Tab::Capabilities => 12,
            Tab::Logs => 4,
            Tab::Metrics => 7,
            Tab::Playground => 10,
            Tab::AiInsight => 10,
            Tab::Graph => 5,
        }
    }

    pub fn label_width(&self) -> (r: usize)
        ensures
            r == self.spec_label_width(),
    {
        match self {
            Tab::Sessions => 8,
            Tab::Capabilities => 12,
            Tab::Logs => 4,
            Tab::Metrics => 7,
            Tab::Playground => 10,
            Tab::AiInsight => 10,
            Tab::Graph => 5,
        }
    }
}

impl ActivitySubTab {
    /// The width of the title of the sub-tab.
    pub open spec fn spec_name_width(self) -> nat {
        match self {
            ActivitySubTab::Tools => 5,
            ActivitySubTab::Resources => 9,
            ActivitySubTab::Prompts => 7,
            ActivitySubTab::Plugins => 7,
        }
    }

    pub fn name_width(&self) -> (r: usize)
        ensures
            r == self.spec_name_width(),
    {
        match self {
            ActivitySubTab::Tools => 5,
            ActivitySubTab::Resources => 9,
            ActivitySubTab::Prompts => 7,
            ActivitySubTab::Plugins => 7,
        }
    }
}

/// The tab whose title lies at the distance `x` from the start of the tab
/// bar, looking from the tab of the position `from` on, whose title starts
/// at `start`.
pub open spec fn tab_from(x: nat, from: nat, start: nat) -> Option<Tab>
    decreases TAB_COUNT - from,
{
    if from >= TAB_COUNT {
        None
    } else {
        let tab = Tab::spec_from_index(from);
        if start <= x < start + tab.spec_label_width() {
            Some(tab)
        } else {
            tab_from(x, from + 1, start + tab.spec_label_width() + (DIVIDER_WIDTH as nat))
        }
    }
}

/// The tab whose title lies at the distance `x` from the start of the tab bar.
pub open spec fn tab_at(x: nat) -> Option<Tab> {
    tab_from(x, 0, 0)
}

impl DashboardStateView {
    /// How many entries the sub-tab shows in its title.
    pub open spec fn sub_tab_count(self, tab: ActivitySubTab) -> nat {
        match tab {
            ActivitySubTab::Tools => self.tools.len(),
            ActivitySubTab::Resources => self.resources.len(),
            ActivitySubTab::Prompts => self.prompts.len(),
            ActivitySubTab::Plugins => self.plugins.len(),
        }
    }

    /// The width of the title of the sub-tab with its count in brackets.
    pub open spec fn sub_tab_width(self, tab: ActivitySubTab) -> nat {
        tab.spec_name_width() + 3 + decimal(self.sub_tab_count(tab)).len()
    }

    /// The sub-tab whose title lies at the distance `x` from the start of
    /// its bar, looking from the sub-tab of the position `from` on.
    pub open spec fn sub_tab_from(self, x: nat, from: nat, start: nat) -> Option<ActivitySubTab>
        decreases SUB_TAB_COUNT - from,
    {
        if from >= SUB_TAB_COUNT {
            None
        } else {
            let tab = ActivitySubTab::spec_from_index(from);
            if start <= x < start + self.sub_tab_width(tab) {
                Some(tab)
            } else {
                self.sub_tab_from(
                    x,
                    from + 1,
                    start + self.sub_tab_width(tab) + (DIVIDER_WIDTH as nat),
                )
            }
        }
    }

    /// The sub-tab whose title lies at the distance `x` from the start of its bar.
    pub open spec fn sub_tab_at(self, x: nat) -> Option<ActivitySubTab> {
        self.sub_tab_from(x, 0, 0)
    }

    /// The state with the tab bar on the tab, and everything at its top.
    pub open spec fn tab_clicked(self, tab: Tab) -> DashboardStateView {
        DashboardStateView {
            active_tab: tab,
            focus: FocusArea::TabBar,
            list_selected: 0,
            list_scroll: 0,
            detail_scroll: 0,
            ..self
        }
    }

    /// The state on the sub-tab, with everything at its top.
    pub open spec fn sub_tab_clicked(self, tab: ActivitySubTab) -> DashboardStateView {
        DashboardStateView {
            activity_sub_tab: tab,
            focus: FocusArea::SubTab,
            list_selected: 0,
            list_scroll: 0,
            detail_scroll: 0,
            ..self
        }
    }

    /// What a click does.
    pub open spec fn clicked(self, m: MouseEvent, at: ScreenLayout) -> DashboardStateView {
        let x = (m.column - at.overview_width) as nat;
        if at.in_tab_bar(m) {
            match tab_at(x) {
                Some(tab) => self.tab_clicked(tab),
                None => self,
            }
        } else if at.in_overview(m) {
            DashboardStateView { focus: FocusArea::Overview, ..self }
        } else if at.in_tab_content(m) {
            if self.active_tab is Capabilities && at.in_sub_tab_bar(m) {
                match self.sub_tab_at(x) {
                    Some(tab) => self.sub_tab_clicked(tab),
                    None => self,
                }
            } else {
                match self.active_tab {
                    Tab::Sessions => DashboardStateView {
                        focus: if at.over_list(m) {
                            FocusArea::List
                        } else {
                            FocusArea::Detail
                        },
                        ..self
                    },
                    Tab::Capabilities => DashboardStateView {
                        focus: if at.over_list(m) {
                            FocusArea::List
                        } else {
                            FocusArea::Detail
                        },
                        ..self
                    },
                    Tab::Logs => DashboardStateView { focus: FocusArea::List, ..self },
                    _ => self,
                }
            }
        } else {
            self
        }
    }

    /// The state with the detail view scrolled up by a turn of the wheel.
    pub open spec fn detail_wheel_up(self) -> DashboardStateView {
        DashboardStateView { detail_scroll: down_by(self.detail_scroll, WHEEL_STEP), ..self }
    }

    /// The state with the detail view scrolled down by a turn of the wheel.
    pub open spec fn detail_wheel_down(self) -> DashboardStateView {
        DashboardStateView {
            detail_scroll: at_most(up_by(self.detail_scroll, WHEEL_STEP), SCROLL_LIMIT),
            ..self
        }
    }

    /// The state with the list scrolled up by a turn of the wheel.
    pub open spec fn list_wheel_up(self) -> DashboardStateView {
        DashboardStateView {
            list_scroll: down_by(self.list_scroll, WHEEL_STEP),
            list_selected: down_by(self.list_selected, WHEEL_STEP),
            ..self
        }
    }

    /// The state with the list scrolled down by a turn of the wheel, not
    /// past the last of `len` items.
    pub open spec fn list_wheel_down(self, len: nat) -> DashboardStateView {
        DashboardStateView {
            list_scroll: at_most(up_by(self.list_scroll, WHEEL_STEP), last_index(len)),
            list_selected: at_most(up_by(self.list_selected, WHEEL_STEP), last_index(len)),
            ..self
        }
    }

    /// What the wheel does when it is turned up.
    pub open spec fn wheel_up(self, m: MouseEvent, at: ScreenLayout) -> DashboardStateView {
        if at.in_overview(m) {
            DashboardStateView {
                overview_scroll: down_by(self.overview_scroll, WHEEL_STEP),
                ..self
            }
        } else if at.in_tab_content(m) {
            match self.active_tab {
                Tab::Logs => self.logs_scrolled_up(WHEEL_STEP),
                Tab::Sessions => if at.over_list(m) {
                    self.list_wheel_up()
                } else {
                    self.detail_wheel_up()
                },
                Tab::Capabilities => if at.over_list(m) {
                    self.list_wheel_up()
                } else {
                    self.detail_wheel_up()
                },
                Tab::Metrics => self.detail_wheel_up(),
                Tab::Graph => self.detail_wheel_up(),
                _ => self,
            }
        } else {
            self
        }
    }

    /// How long the list is that the wheel scrolls on the capabilities tab.
    /// The list of the plugins counts as long as the list of the apps.
    pub open spec fn wheel_list_len(self) -> nat {
        match self.activity_sub_tab {
            ActivitySubTab::Tools => self.tools.len(),
            ActivitySubTab::Resources => self.resources.len(),
            ActivitySubTab::Prompts => self.prompts.len(),
            ActivitySubTab::Plugins => self.apps.len(),
        }
    }

    /// What the wheel does when it is turned down.
    pub open spec fn wheel_down(self, m: MouseEvent, at: ScreenLayout) -> DashboardStateView {
        if at.in_overview(m) {
            DashboardStateView {
                overview_scroll: at_most(up_by(self.overview_scroll, WHEEL_STEP), SCROLL_LIMIT),
                ..self
            }
        } else if at.in_tab_content(m) {
            match self.active_tab {
                Tab::Logs => self.logs_scrolled_down(WHEEL_STEP),
                Tab::Sessions => if at.over_list(m) {
                    self.list_wheel_down(self.sessions.len())
                } else {
                    self.detail_wheel_down()
                },
                Tab::Capabilities => if at.over_list(m) {
                    self.list_wheel_down(self.wheel_list_len())
                } else {
                    self.detail_wheel_down()
                },
                Tab::Metrics => self.detail_wheel_down(),
                Tab::Graph => self.detail_wheel_down(),
                _ => self,
            }
        } else {
            self
        }
    }

    /// What the mouse does on a screen of the size.
    pub open spec fn mouse_used(self, m: MouseEvent, width: u16, height: u16) -> DashboardStateView {
        match m.kind {
            MouseKind::LeftDown => self.clicked(m, layout_of(width, height)),
            MouseKind::ScrollUp => self.wheel_up(m, layout_of(width, height)),
            MouseKind::ScrollDown => self.wheel_down(m, layout_of(width, height)),
            MouseKind::Other => self,
        }
    }
}

/// The layout of a screen of the size.
pub fn layout(width: u16, height: u16) -> (r: ScreenLayout)
    ensures
        r == layout_of(width, height),
{
    let overview: u32 = width as u32 * 25 / 100;
    let rest: u32 = width as u32 - overview;
    let list: u32 = rest * 40 / 100;
    ScreenLayout {
        content_end: if height < 3 {
            1
        } else {
            height - 2
        },
        overview_width: overview as u16,
        list_width: list as u16,
    }
}

/// The tab whose title lies at the distance `x` from the start of the tab bar.
pub fn get_tab_at_position(x: u16) -> (r: Option<Tab>)
    ensures
        r == tab_at(x as nat),
{
    let mut i: usize = 0;
    let mut start: usize = 0;
    while i < TAB_COUNT
        invariant
            i <= TAB_COUNT,
            start <= 17 * i,
            tab_at(x as nat) == tab_from(x as nat, i as nat, start as nat),
        decreases TAB_COUNT - i,
    {
        let tab = Tab::from_index(i);
        let width = tab.label_width();
        if start <= x as usize && (x as usize) < start + width {
            return Some(tab);
        }
        start = start + width + DIVIDER_WIDTH;
        i += 1;
    }
    None
}

/// How many decimal digits the number has.
pub fn decimal_width(n: usize) -> (r: usize)
    ensures
        r == decimal(n as nat).len(),
        1 <= r <= 20,
    decreases n,
{
    if n < 10 {
        1
    } else {
        let rest = decimal_width(n / 10);
        proof {
            lemma_decimal_width_bound(n as nat);
        }
        rest + 1
    }
}

/// A number below ten to the power of twenty has at most twenty digits.
pub proof fn lemma_decimal_width_bound(n: nat)
    requires
        n <= usize::MAX,
    ensures
        1 <= decimal(n).len() <= 20,
{
    reveal_with_fuel(pow10, 21);
    assert(pow10(20) == 100_000_000_000_000_000_000);
    lemma_decimal_len(n, 20);
}

/// Ten to the power of `k`.
pub open spec fn pow10(k: nat) -> nat
    decreases k,
{
    if k == 0 {
        1
    } else {
        10 * pow10((k - 1) as nat)
    }
}

/// A number below ten to the power of `k` has at most `k` digits.
pub proof fn lemma_decimal_len(n: nat, k: nat)
    requires
        k >= 1,
        n < pow10(k),
    ensures
        1 <= decimal(n).len() <= k,
    decreases k,
{
    if n >= 10 {
        assert(k >= 2) by {
            assert(pow10(1) == 10) by {
                assert(pow10(0) == 1);
            }
        }
        lemma_decimal_len(n / 10, (k - 1) as nat);
    }
}

impl DashboardState {
    fn sub_tab_width(&self, tab: ActivitySubTab) -> (r: usize)
        ensures
            r == self@.sub_tab_width(tab),
            r <= 32,
    {
        let count = match tab {
            ActivitySubTab::Tools => self.tools.len(),
            ActivitySubTab::Resources => self.resources.len(),
            ActivitySubTab::Prompts => self.prompts.len(),
            ActivitySubTab::Plugins => self.plugins.len(),
        };
        tab.name_width() + 3 + decimal_width(count)
    }

    /// The sub-tab whose title lies at the distance `x` from the start of its bar.
    pub fn get_sub_tab_at_position(&self, x: u16) -> (r: Option<ActivitySubTab>)
        ensures
            r == self@.sub_tab_at(x as nat),
    {
        let mut i: usize = 0;
        let mut start: usize = 0;
        while i < SUB_TAB_COUNT
            invariant
                i <= SUB_TAB_COUNT,
                start <= 37 * i,
                self@.sub_tab_at(x as nat) == self@.sub_tab_from(x as nat, i as nat, start as nat),
            decreases SUB_TAB_COUNT - i,
        {
            let tab = ActivitySubTab::from_index(i);
            let width = self.sub_tab_width(tab);
            if start <= x as usize && (x as usize) < start + width {
                return Some(tab);
            }
            start = start + width + DIVIDER_WIDTH;
            i += 1;
        }
        None
    }

    fn click(&mut self, m: MouseEvent, at: &ScreenLayout)
        ensures
            final(self)@ == old(self)@.clicked(m, *at),
    {
        let in_content_rows = m.row >= 1 && m.row < at.content_end;
        if m.row >= 1 && m.row < 4 && m.column >= at.overview_width {
            match get_tab_at_position(m.column - at.overview_width) {
                Some(tab) => {
                    self.active_tab = tab;
                    self.focus = FocusArea::TabBar;
                    self.list_selected = 0;
                    self.list_scroll = 0;
                    self.detail_scroll = 0;
                },
                None => {},
            }
        } else if m.column < at.overview_width && in_content_rows {
            self.focus = FocusArea::Overview;
        } else if m.column >= at.overview_width && m.row >= 4 && m.row < at.content_end {
            let x = m.column - at.overview_width;
            let over_list = x < at.list_width;
            let on_capabilities = match self.active_tab {
                Tab::Capabilities => true,
                _ => false,
            };
            if on_capabilities && m.row < 7 {
                match self.get_sub_tab_at_position(x) {
                    Some(tab) => {
                        self.activity_sub_tab = tab;
                        self.focus = FocusArea::SubTab;
                        self.list_selected = 0;
                        self.list_scroll = 0;
                        self.detail_scroll = 0;
                    },
                    None => {},
                }
            } else {
                match self.active_tab {
                    Tab::Sessions => {
                        self.focus = if over_list {
                            FocusArea::List
                        } else {
                            FocusArea::Detail
                        };
                    },
                    Tab::Capabilities => {
                        self.focus = if over_list {
                            FocusArea::List
                        } else {
                            FocusArea::Detail
                        };
                    },
                    Tab::Logs => {
                        self.focus = FocusArea::List;
                    },
                    _ => {},
                }
            }
        }
    }

    fn turn_list_up(&mut self)
        ensures
            final(self)@ == old(self)@.list_wheel_up(),
    {
        self.list_scroll = self.list_scroll.saturating_sub(WHEEL_STEP);
        self.list_selected = self.list_selected.saturating_sub(WHEEL_STEP);
    }

    fn turn_list_down(&mut self, len: usize)
        ensures
            final(self)@ == old(self)@.list_wheel_down(len as nat),
    {
        let max = len.saturating_sub(1);
        let scroll = self.list_scroll.saturating_add(WHEEL_STEP);
        let selected = self.list_selected.saturating_add(WHEEL_STEP);
        self.list_scroll = if scroll <= max {
            scroll
        } else {
            max
        };
        self.list_selected = if selected <= max {
            selected
        } else {
            max
        };
    }

    fn turn_detail_up(&mut self)
        ensures
            final(self)@ == old(self)@.detail_wheel_up(),
    {
        self.detail_scroll = self.detail_scroll.saturating_sub(WHEEL_STEP);
    }

    fn turn_detail_down(&mut self)
        ensures
            final(self)@ == old(self)@.detail_wheel_down(),
    {
        let next = self.detail_scroll.saturating_add(WHEEL_STEP);
        self.detail_scroll = if next <= SCROLL_LIMIT {
            next
        } else {
            SCROLL_LIMIT
        };
    }

    fn turn_up(&mut self, m: MouseEvent, at: &ScreenLayout)
        ensures
            final(self)@ == old(self)@.wheel_up(m, *at),
    {
        if m.column < at.overview_width && m.row >= 1 && m.row < at.content_end {
            self.overview_scroll = self.overview_scroll.saturating_sub(WHEEL_STEP);
        } else if m.column >= at.overview_width && m.row >= 4 && m.row < at.content_end {
            let over_list = m.column - at.overview_width < at.list_width;
            match self.active_tab {
                Tab::Logs => self.scroll_logs_up(WHEEL_STEP),
                Tab::Sessions => {
                    if over_list {
                        self.turn_list_up();
                    } else {
                        self.turn_detail_up();
                    }
                },
                Tab::Capabilities => {
                    if over_list {
                        self.turn_list_up();
                    } else {
                        self.turn_detail_up();
                    }
                },
                Tab::Metrics => self.turn_detail_up(),
                Tab::Graph => self.turn_detail_up(),
                _ => {},
            }
        }
    }

    fn turn_down(&mut self, m: MouseEvent, at: &ScreenLayout)
        ensures
            final(self)@ == old(self)@.wheel_down(m, *at),
    {
        if m.column < at.overview_width && m.row >= 1 && m.row < at.content_end {
            let next = self.overview_scroll.saturating_add(WHEEL_STEP);
            self.overview_scroll = if next <= SCROLL_LIMIT {
                next
            } else {
                SCROLL_LIMIT
            };
        } else if m.column >= at.overview_width && m.row >= 4 && m.row < at.content_end {
            let over_list = m.column - at.overview_width < at.list_width;
            match self.active_tab {
                Tab::Logs => self.scroll_logs_down(WHEEL_STEP),
                Tab::Sessions => {
                    if over_list {
                        let len = self.sessions.len();
                        self.turn_list_down(len);
                    } else {
                        self.turn_detail_down();
                    }
                },
                Tab::Capabilities => {
                    if over_list {
                        let len = match self.activity_sub_tab {
                            ActivitySubTab::Tools => self.tools.len(),
                            ActivitySubTab::Resources => self.resources.len(),
                            ActivitySubTab::Prompts => self.prompts.len(),
                            ActivitySubTab::Plugins => self.apps.len(),
                        };
                        self.turn_list_down(len);
                    } else {
                        self.turn_detail_down();
                    }
                },
                Tab::Metrics => self.turn_detail_down(),
                Tab::Graph => self.turn_detail_down(),
                _ => {},
            }
        }
    }

    /// Takes in what the mouse did on a screen of the size.
    pub fn handle_mouse_event(&mut self, m: MouseEvent, width: u16, height: u16)
        ensures
            final(self)@ == old(self)@.mouse_used(m, width, height),
    {
        let at = layout(width, height);
        match m.kind {
            MouseKind::LeftDown => self.click(m, &at),
            MouseKind::ScrollUp => self.turn_up(m, &at),
            MouseKind::ScrollDown => self.turn_down(m, &at),
            MouseKind::Other => {},
        }
    }
}

} // verus!
