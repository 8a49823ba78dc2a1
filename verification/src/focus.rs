//! The focus state machine: one panel at a time receives scroll and sort
//! input; `Tab` walks the panels in a ring and the pointer picks one directly.

use vstd::prelude::*;

verus! {

/// The panel that has the keyboard focus, or `Unfocused` when no panel has it.
#[derive(Clone, Copy, Debug, PartialEq, Eq, Structural)]
pub enum SelectedTab {
    Cpu,
    Processes,
    Disks,
    Networks,
    Unfocused,
}

impl Default for SelectedTab {
    fn default() -> (tab: SelectedTab)
        ensures
            tab == SelectedTab::Unfocused,
    {
        SelectedTab::Unfocused
    }
}

impl SelectedTab {
    /// The successor in the ring `Cpu, Processes, Disks, Networks, Unfocused`.
    pub open spec fn successor(self) -> SelectedTab {
        match self {
            SelectedTab::Cpu => SelectedTab::Processes,
            SelectedTab::Processes => SelectedTab::Disks,
            SelectedTab::Disks => SelectedTab::Networks,
            SelectedTab::Networks => SelectedTab::Unfocused,
            SelectedTab::Unfocused => SelectedTab::Cpu,
        }
    }

    /// The predecessor in the same ring.
    pub open spec fn predecessor(self) -> SelectedTab {
        match self {
            SelectedTab::Unfocused => SelectedTab::Networks,
            SelectedTab::Cpu => SelectedTab::Unfocused,
            SelectedTab::Processes => SelectedTab::Cpu,
            SelectedTab::Disks => SelectedTab::Processes,
            SelectedTab::Networks => SelectedTab::Disks,
        }
    }

    /// The tab reached from `self` by `steps` forward moves.
    pub open spec fn advanced(self, steps: nat) -> SelectedTab
        decreases steps,
    {
        if steps == 0 {
            self
        } else {
            self.advanced((steps - 1) as nat).successor()
        }
    }

    /// Moves the focus one panel forward.
    pub fn next(&self) -> (tab: SelectedTab)
        ensures
            tab == self.successor(),
    {
        match self {
            SelectedTab::Cpu => SelectedTab::Processes,
            SelectedTab::Processes => SelectedTab::Disks,
            SelectedTab::Disks => SelectedTab::Networks,
            SelectedTab::Networks => SelectedTab::Unfocused,
            SelectedTab::Unfocused => SelectedTab::Cpu,
        }
    }

    /// Moves the focus one panel backward.
    pub fn prev(&self) -> (tab: SelectedTab)
        ensures
            tab == self.predecessor(),
    {
        match self {
            SelectedTab::Unfocused => SelectedTab::Networks,
            SelectedTab::Cpu => SelectedTab::Unfocused,
            SelectedTab::Processes => SelectedTab::Cpu,
            SelectedTab::Disks => SelectedTab::Processes,
            SelectedTab::Networks => SelectedTab::Disks,
        }
    }

    pub fn is_cpu(&self) -> (yes: bool)
        ensures
            yes == (*self == SelectedTab::Cpu),
    {
        matches!(self, SelectedTab::Cpu)
    }

    pub fn is_processes(&self) -> (yes: bool)
        ensures
            yes == (*self == SelectedTab::Processes),
    {
        matches!(self, SelectedTab::Processes)
    }

    pub fn is_network(&self) -> (yes: bool)
        ensures
            yes == (*self == SelectedTab::Networks),
    {
        matches!(self, SelectedTab::Networks)
    }

    pub fn is_disks(&self) -> (yes: bool)
        ensures
            yes == (*self == SelectedTab::Disks),
    {
        matches!(self, SelectedTab::Disks)
    }
}

/// Moving forward and then backward, or backward and then forward, returns
/// to the tab one started from.
pub proof fn lemma_next_and_prev_undo_each_other(tab: SelectedTab)
    ensures
        tab.successor().predecessor() == tab,
        tab.predecessor().successor() == tab,
{
}

/// The ring has five places: five forward moves return to the start, from
/// any tab, and no smaller positive number of moves does.
pub proof fn lemma_focus_ring_has_five_places(tab: SelectedTab)
    ensures
        tab.advanced(5) == tab,
        forall|steps: nat| 0 < steps < 5 ==> tab.advanced(steps) != tab,
{
    reveal_with_fuel(SelectedTab::advanced, 6);
    assert forall|steps: nat| 0 < steps < 5 implies tab.advanced(steps) != tab by {
        if steps == 1 {
        } else if steps == 2 {
        } else if steps == 3 {
        } else {
            assert(steps == 4);
        }
    }
}

} // verus!
