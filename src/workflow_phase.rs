//! Phases of the planning / implementation / review workflow.
use vstd::prelude::*;

verus! {

/// A phase of the workflow. No transition table is enforced: a phase
/// transition message only records a claimed pair.
#[derive(Debug, Clone, Copy, PartialEq, Eq, Hash, Structural)]
pub enum WorkflowPhase {
    Initializing,
    PlanningInProgress,
    PlanReady,
    ImplementationInProgress,
    ImplementationComplete,
    ReviewInProgress,
    ReviewComplete,
    Finished,
}

impl WorkflowPhase {
    /// The variant's name, which is also its wire form.
    pub open spec fn name(self) -> Seq<char> {
        match self {
            WorkflowPhase::Initializing => "Initializing"@,
            WorkflowPhase::PlanningInProgress => "PlanningInProgress"@,
            WorkflowPhase::PlanReady => "PlanReady"@,
            WorkflowPhase::ImplementationInProgress => "ImplementationInProgress"@,
            WorkflowPhase::ImplementationComplete => "ImplementationComplete"@,
            WorkflowPhase::ReviewInProgress => "ReviewInProgress"@,
            WorkflowPhase::ReviewComplete => "ReviewComplete"@,
            WorkflowPhase::Finished => "Finished"@,
        }
    }

    /// The phase whose name is `s`, if any.
    pub open spec fn named(s: Seq<char>) -> Option<WorkflowPhase> {
        if s == "Initializing"@ {
            Some(WorkflowPhase::Initializing)
        } else if s == "PlanningInProgress"@ {
            Some(WorkflowPhase::PlanningInProgress)
        } else if s == "PlanReady"@ {
            Some(WorkflowPhase::PlanReady)
        } else if s == "ImplementationInProgress"@ {
            Some(WorkflowPhase::ImplementationInProgress)
        } else if s == "ImplementationComplete"@ {
            Some(WorkflowPhase::ImplementationComplete)
        } else if s == "ReviewInProgress"@ {
            Some(WorkflowPhase::ReviewInProgress)
        } else if s == "ReviewComplete"@ {
            Some(WorkflowPhase::ReviewComplete)
        } else if s == "Finished"@ {
            Some(WorkflowPhase::Finished)
        } else {
            None
        }
    }

    pub fn name_str(&self) -> (r: &'static str)
        ensures
            r@ == self.name(),
    {
        match self {
            WorkflowPhase::Initializing => "Initializing",
            WorkflowPhase::PlanningInProgress => "PlanningInProgress",
            WorkflowPhase::PlanReady => "PlanReady",
            WorkflowPhase::ImplementationInProgress => "ImplementationInProgress",
            WorkflowPhase::ImplementationComplete => "ImplementationComplete",
            WorkflowPhase::ReviewInProgress => "ReviewInProgress",
            WorkflowPhase::ReviewComplete => "ReviewComplete",
            WorkflowPhase::Finished => "Finished",
        }
    }
}

/// Every phase is found again from its name.
pub proof fn lemma_phase_named(p: WorkflowPhase)
    ensures
        WorkflowPhase::named(p.name()) == Some(p),
{
    reveal_strlit("Initializing");
    assert("Initializing"@.len() == 12);
    reveal_strlit("PlanningInProgress");
    assert("PlanningInProgress"@.len() == 18);
    reveal_strlit("PlanReady");
    assert("PlanReady"@.len() == 9);
    reveal_strlit("ImplementationInProgress");
    assert("ImplementationInProgress"@.len() == 24);
    reveal_strlit("ImplementationComplete");
    assert("ImplementationComplete"@.len() == 22);
    reveal_strlit("ReviewInProgress");
    assert("ReviewInProgress"@.len() == 16);
    reveal_strlit("ReviewComplete");
    assert("ReviewComplete"@.len() == 14);
    reveal_strlit("Finished");
    assert("Finished"@.len() == 8);
}

} // verus!
