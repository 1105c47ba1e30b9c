//! The fixed participants of the workflow.
use vstd::prelude::*;

verus! {

/// A logical participant of the workflow, hosted in one pane.
#[derive(Debug, Clone, Copy, PartialEq, Eq, Hash, PartialOrd, Ord, Structural)]
pub enum PaneRole {
    Overseer,
    Commander,
    TaskList,
    Review,
    Editor,
}

/// Number of roles; each role has a distinct index below it.
pub const ROLE_COUNT: usize = 5;

impl PaneRole {
    /// Position of the role in the fixed order Overseer, Commander, TaskList,
    /// Review, Editor.
    pub open spec fn index(self) -> int {
        match self {
            PaneRole::Overseer => 0,
            PaneRole::Commander => 1,
            PaneRole::TaskList => 2,
            PaneRole::Review => 3,
            PaneRole::Editor => 4,
        }
    }

    pub open spec fn at_index(i: int) -> PaneRole {
        if i == 0 {
            PaneRole::Overseer
        } else if i == 1 {
            PaneRole::Commander
        } else if i == 2 {
            PaneRole::TaskList
        } else if i == 3 {
            PaneRole::Review
        } else {
            PaneRole::Editor
        }
    }

    pub fn slot(&self) -> (r: usize)
        ensures
            r as int == self.index(),
            r < ROLE_COUNT,
    {
        match self {
            PaneRole::Overseer => 0,
            PaneRole::Commander => 1,
            PaneRole::TaskList => 2,
            PaneRole::Review => 3,
            PaneRole::Editor => 4,
        }
    }

    pub fn from_slot(i: usize) -> (r: PaneRole)
        requires
            i < ROLE_COUNT,
        ensures
            r == PaneRole::at_index(i as int),
            r.index() == i,
    {
        if i == 0 {
            PaneRole::Overseer
        } else if i == 1 {
            PaneRole::Commander
        } else if i == 2 {
            PaneRole::TaskList
        } else if i == 3 {
            PaneRole::Review
        } else {
            PaneRole::Editor
        }
    }

    /// The variant's name, as `{:?}` prints it.
    pub open spec fn name(self) -> Seq<char> {
        match self {
            PaneRole::Overseer => "Overseer"@,
            PaneRole::Commander => "Commander"@,
            PaneRole::TaskList => "TaskList"@,
            PaneRole::Review => "Review"@,
            PaneRole::Editor => "Editor"@,
        }
    }

    pub fn name_str(&self) -> (r: &'static str)
        ensures
            r@ == self.name(),
    {
        match self {
            PaneRole::Overseer => "Overseer",
            PaneRole::Commander => "Commander",
            PaneRole::TaskList => "TaskList",
            PaneRole::Review => "Review",
            PaneRole::Editor => "Editor",
        }
    }
}

pub proof fn lemma_role_index(r: PaneRole)
    ensures
        0 <= r.index() < ROLE_COUNT,
        PaneRole::at_index(r.index()) == r,
{
}

} // verus!
