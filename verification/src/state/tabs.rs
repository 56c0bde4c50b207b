//! Tabs, focus and the quit dialog.

use vstd::prelude::*;

verus! {

/// A tab of the dashboard.
#[derive(Debug, Clone, Copy, PartialEq, Eq, Structural)]
pub enum Tab {
    Sessions,
    Capabilities,
    Logs,
    Metrics,
    Playground,
    AiInsight,
    Graph,
}

/// How many tabs there are.
pub const TAB_COUNT: usize = 7;

impl Default for Tab {
    fn default() -> (r: Tab)
        ensures
            r == Tab::Sessions,
    {
        Tab::Sessions
    }
}

impl Tab {
    /// The position of the tab in the tab bar.
    pub open spec fn spec_index(self) -> nat {
        match self {
            Tab::Sessions => 0,
            Tab::Capabilities => 1,
            Tab::Logs => 2,
            Tab::Metrics => 3,
            Tab::Playground => 4,
            Tab::AiInsight => 5,
            Tab::Graph => 6,
        }
    }

    /// The tab at a position; the first tab for a position past the last.
    pub open spec fn spec_from_index(index: nat) -> Tab {
        if index == 1 {
            Tab::Capabilities
        } else if index == 2 {
            Tab::Logs
        } else if index == 3 {
            Tab::Metrics
        } else if index == 4 {
            Tab::Playground
        } else if index == 5 {
            Tab::AiInsight
        } else if index == 6 {
            Tab::Graph
        } else {
            Tab::Sessions
        }
    }

    /// The title of the tab.
    pub open spec fn spec_name(self) -> Seq<char> {
        match self {
            Tab::Sessions => "Sessions"@,
            Tab::Capabilities => "Capabilities"@,
            Tab::Logs => "Logs"@,
            Tab::Metrics => "Metrics"@,
            Tab::Playground => "Playground"@,
            Tab::AiInsight => "AI Insight"@,
            Tab::Graph => "Graph"@,
        }
    }

    /// All tabs, in the order of the tab bar.
    pub fn all() -> (r: &'static [Tab])
        ensures
            r@.len() == TAB_COUNT,
            forall|i: int| 0 <= i < r@.len() ==> r@[i] == Tab::spec_from_index(i as nat),
    {
        &[
            Tab::Sessions,
            Tab::Capabilities,
            Tab::Logs,
            Tab::Metrics,
            Tab::Playground,
            Tab::AiInsight,
            Tab::Graph,
        ]
    }

    pub fn name(&self) -> (r: &'static str)
        ensures
            r@ == self.spec_name(),
    {
        match self {
            Tab::Sessions => "Sessions",
            Tab::Capabilities => "Capabilities",
            Tab::Logs => "Logs",
            Tab::Metrics => "Metrics",
            Tab::Playground => "Playground",
            Tab::AiInsight => "AI Insight",
            Tab::Graph => "Graph",
        }
    }

    pub fn index(&self) -> (r: usize)
        ensures
            r == self.spec_index(),
            r < TAB_COUNT,
    {
        match self {
            Tab::Sessions => 0,
            Tab::Capabilities => 1,
            Tab::Logs => 2,
            Tab::Metrics => 3,
            Tab::Playground => 4,
            Tab::AiInsight => 5,
            Tab::Graph => 6,
        }
    }

    pub fn from_index(index: usize) -> (r: Tab)
        ensures
            r == Tab::spec_from_index(index as nat),
    {
        if index == 1 {
            Tab::Capabilities
        } else if index == 2 {
            Tab::Logs
        } else if index == 3 {
            Tab::Metrics
        } else if index == 4 {
            Tab::Playground
        } else if index == 5 {
            Tab::AiInsight
        } else if index == 6 {
            Tab::Graph
        } else {
            Tab::Sessions
        }
    }
}

/// A tab is found again by its position.
pub proof fn lemma_tab_index_round_trip(tab: Tab)
    ensures
        Tab::spec_from_index(tab.spec_index()) == tab,
        tab.spec_index() < TAB_COUNT,
{
}

/// A sub-tab of the capabilities tab.
#[derive(Debug, Clone, Copy, PartialEq, Eq, Structural)]
pub enum ActivitySubTab {
    Tools,
    Resources,
    Prompts,
    Plugins,
}

/// How many sub-tabs the capabilities tab has.
pub const SUB_TAB_COUNT: usize = 4;

impl Default for ActivitySubTab {
    fn default() -> (r: ActivitySubTab)
        ensures
            r == ActivitySubTab::Tools,
    {
        ActivitySubTab::Tools
    }
}

impl ActivitySubTab {
    /// The position of the sub-tab in its bar.
    pub open spec fn spec_index(self) -> nat {
        match self {
            ActivitySubTab::Tools => 0,
            ActivitySubTab::Resources => 1,
            ActivitySubTab::Prompts => 2,
            ActivitySubTab::Plugins => 3,
        }
    }

    /// The sub-tab at a position; the first one for a position past the last.
    pub open spec fn spec_from_index(index: nat) -> ActivitySubTab {
        if index == 1 {
            ActivitySubTab::Resources
        } else if index == 2 {
            ActivitySubTab::Prompts
        } else if index == 3 {
            ActivitySubTab::Plugins
        } else {
            ActivitySubTab::Tools
        }
    }

    /// The title of the sub-tab.
    pub open spec fn spec_name(self) -> Seq<char> {
        match self {
            ActivitySubTab::Tools => "Tools"@,
            ActivitySubTab::Resources => "Resources"@,
            ActivitySubTab::Prompts => "Prompts"@,
            ActivitySubTab::Plugins => "Plugins"@,
        }
    }

    /// All sub-tabs, in the order of their bar.
    pub fn all() -> (r: &'static [ActivitySubTab])
        ensures
            r@.len() == SUB_TAB_COUNT,
            forall|i: int| 0 <= i < r@.len() ==> r@[i] == ActivitySubTab::spec_from_index(i as nat),
    {
        &[
            ActivitySubTab::Tools,
            ActivitySubTab::Resources,
            ActivitySubTab::Prompts,
            ActivitySubTab::Plugins,
        ]
    }

    pub fn name(&self) -> (r: &'static str)
        ensures
            r@ == self.spec_name(),
    {
        match self {
            ActivitySubTab::Tools => "Tools",
            ActivitySubTab::Resources => "Resources",
            ActivitySubTab::Prompts => "Prompts",
            ActivitySubTab::Plugins => "Plugins",
        }
    }

    pub fn index(&self) -> (r: usize)
        ensures
            r == self.spec_index(),
            r < SUB_TAB_COUNT,
    {
        match self {
            ActivitySubTab::Tools => 0,
            ActivitySubTab::Resources => 1,
            ActivitySubTab::Prompts => 2,
            ActivitySubTab::Plugins => 3,
        }
    }

    pub fn from_index(index: usize) -> (r: ActivitySubTab)
        ensures
            r == ActivitySubTab::spec_from_index(index as nat),
    {
        if index == 1 {
            ActivitySubTab::Resources
        } else if index == 2 {
            ActivitySubTab::Prompts
        } else if index == 3 {
            ActivitySubTab::Plugins
        } else {
            ActivitySubTab::Tools
        }
    }
}

/// A sub-tab is found again by its position.
pub proof fn lemma_sub_tab_index_round_trip(tab: ActivitySubTab)
    ensures
        ActivitySubTab::spec_from_index(tab.spec_index()) == tab,
        tab.spec_index() < SUB_TAB_COUNT,
{
}

/// The part of the screen that takes the keys.
#[derive(Debug, Clone, Copy, PartialEq, Eq, Structural)]
pub enum FocusArea {
    TabBar,
    Overview,
    List,
    Detail,
    SubTab,
    FilterInput,
}

impl Default for FocusArea {
    fn default() -> (r: FocusArea)
        ensures
            r == FocusArea::TabBar,
    {
        FocusArea::TabBar
    }
}

/// Where the dashboard stands on quitting.
#[derive(Debug, Clone, Copy, PartialEq, Eq, Structural)]
pub enum QuitMode {
    NotQuitting,
    /// The confirmation dialog shows.
    Confirming,
    /// Leave, and stop the server.
    KillAll,
}

impl Default for QuitMode {
    fn default() -> (r: QuitMode)
        ensures
            r == QuitMode::NotQuitting,
    {
        QuitMode::NotQuitting
    }
}

/// The button that the quit dialog has selected.
#[derive(Debug, Clone, Copy, PartialEq, Eq, Structural)]
pub enum QuitDialogSelection {
    Cancel,
    Kill,
}

impl Default for QuitDialogSelection {
    fn default() -> (r: QuitDialogSelection)
        ensures
            r == QuitDialogSelection::Cancel,
    {
        QuitDialogSelection::Cancel
    }
}

} // verus!
