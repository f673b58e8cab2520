//! The tabs of the front end: which there are, how they are labelled and
//! ordered in the tab strip, and which one is active after a message.

use vstd::prelude::*;

verus! {

/// The tabs of the front end.
#[derive(Debug, Clone, Copy, PartialEq, Eq, Structural)]
pub enum TabKind {
    Overview,
    Logs,
    Settings,
    Advanced,
}

/// What the front end tells the backend.
#[derive(Debug, Clone, Copy)]
pub enum Message {
    /// The user picked a tab.
    TabSelected(TabKind),
}

/// The label of a tab in the tab strip.
pub open spec fn tab_label(tab: TabKind) -> Seq<char> {
    match tab {
        TabKind::Overview => "Quote"@,
        TabKind::Logs => "Breakdown"@,
        TabKind::Advanced => "Planning"@,
        TabKind::Settings => "Settings"@,
    }
}

/// The tabs in the order of the tab strip.
pub open spec fn tab_order() -> Seq<TabKind> {
    seq![TabKind::Overview, TabKind::Logs, TabKind::Advanced, TabKind::Settings]
}

impl TabKind {
    /// The tab that is active when the front end starts.
    pub fn initial() -> (tab: TabKind)
        ensures
            tab == TabKind::Overview,
    {
        TabKind::Overview
    }

    /// The label of this tab in the tab strip.
    pub fn label(self) -> (label: &'static str)
        ensures
            label@ == tab_label(self),
    {
        match self {
            TabKind::Overview => "Quote",
            TabKind::Logs => "Breakdown",
            TabKind::Advanced => "Planning",
            TabKind::Settings => "Settings",
        }
    }

    /// The tab that is active after `message`, if this one was before: the
    /// tab that was picked, whichever was active.
    pub fn after(self, message: Message) -> (tab: TabKind)
        ensures
            message == Message::TabSelected(tab),
    {
        match message {
            Message::TabSelected(picked) => picked,
        }
    }
}

/// The tabs in the order of the tab strip.
pub fn tab_strip() -> (tabs: [TabKind; 4])
    ensures
        tabs@ == tab_order(),
{
    let tabs = [TabKind::Overview, TabKind::Logs, TabKind::Advanced, TabKind::Settings];
    assert(tabs@ =~= tab_order());
    tabs
}

/// Every tab stands in the tab strip exactly once.
pub proof fn lemma_tab_strip_holds_every_tab_once(tab: TabKind)
    ensures
        exists|i: int| 0 <= i < tab_order().len() && tab_order()[i] == tab,
        forall|i: int, j: int|
            0 <= i < tab_order().len() && 0 <= j < tab_order().len() && tab_order()[i]
                == tab_order()[j] ==> i == j,
{
    match tab {
        TabKind::Overview => assert(tab_order()[0] == tab),
        TabKind::Logs => assert(tab_order()[1] == tab),
        TabKind::Advanced => assert(tab_order()[2] == tab),
        TabKind::Settings => assert(tab_order()[3] == tab),
    }
}

} // verus!
