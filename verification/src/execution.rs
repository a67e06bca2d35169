//! The rules of executing an accepted proposal, over views.
//!
//! Steps run in order from the proposal's cursor. A step that calls the
//! governance component itself, or that is marked as needing a call stack of
//! its own, is not run in line: it is handed to the reentrancy proxy, and the
//! proposal waits until the proxy reports the step as done.

use crate::address::Address;
use crate::governance::Proposal;
use crate::governance::steps_view;
use crate::model::ProposalView;
use crate::model::StepView;
use crate::status::GovernanceError;
use crate::status::ProposalStatus;
use vstd::prelude::*;

verus! {

/// Whether a step is handed to the reentrancy proxy rather than run in line:
/// it targets the governance component `own`, or it says so itself.
pub open spec fn is_deferred(step: StepView, own: Address) -> bool {
    step.component == own || step.reentrancy
}

/// The number of steps that run in line, starting at `from`, when at most
/// `budget` steps are asked for: the run ends with the budget, with the last
/// step, or before the first step that is deferred.
pub open spec fn direct_run(steps: Seq<StepView>, own: Address, from: int, budget: int) -> int
    decreases steps.len() - from,
{
    if budget <= 0 || from < 0 || from >= steps.len() || is_deferred(steps[from], own) {
        0
    } else {
        1 + direct_run(steps, own, from + 1, budget - 1)
    }
}

/// What one call of the execution engine did, for whoever dispatches the calls.
#[derive(Clone, Copy, Debug, PartialEq, Eq, Structural)]
pub struct ExecutionReport {
    /// The index of the first step that was due.
    pub first: usize,
    /// How many steps, from `first` on, are to be run in line, in order.
    pub dispatched: usize,
    /// Whether the step after those is to be handed to the reentrancy proxy.
    pub deferred: bool,
    /// Whether the proposal has thereby been executed in full.
    pub executed: bool,
}

/// View of an execution report: the indices as unbounded integers.
pub struct ExecutionReportView {
    pub first: int,
    pub dispatched: int,
    pub deferred: bool,
    pub executed: bool,
}

impl View for ExecutionReport {
    type V = ExecutionReportView;

    open spec fn view(&self) -> ExecutionReportView {
        ExecutionReportView {
            first: self.first as int,
            dispatched: self.dispatched as int,
            deferred: self.deferred,
            executed: self.executed,
        }
    }
}

/// A proposal after the execution engine was asked for at most `budget`
/// steps, with the report of what is to be dispatched; or the reason for
/// which nothing is executed: the proposal must be accepted, and no deferred
/// step may be waiting.
pub open spec fn execute_spec(p: ProposalView, own: Address, budget: int) -> Result<
    (ProposalView, ExecutionReportView),
    GovernanceError,
> {
    if !(p.status is Accepted) {
        Err(GovernanceError::PhaseViolation)
    } else if p.reentrancy {
        Err(GovernanceError::PendingReentrancy)
    } else {
        let run = direct_run(p.steps, own, p.next_index, budget);
        let next = p.next_index + run;
        let deferred = run < budget && next < p.steps.len();
        let executed = !deferred && next == p.steps.len();
        Ok(
            (
                ProposalView {
                    next_index: next,
                    reentrancy: deferred,
                    status: if executed {
                        ProposalStatus::Executed
                    } else {
                        p.status
                    },
                    ..p
                },
                ExecutionReportView { first: p.next_index, dispatched: run, deferred, executed },
            ),
        )
    }
}

/// A proposal after its deferred step was reported as done: the step counts
/// as executed, and the proposal is executed in full if it was the last. An
/// error where no deferred step is waiting.
pub open spec fn complete_deferred_spec(p: ProposalView) -> Result<ProposalView, GovernanceError> {
    if !p.reentrancy {
        Err(GovernanceError::PhaseViolation)
    } else {
        let next = p.next_index + 1;
        Ok(
            ProposalView {
                reentrancy: false,
                next_index: next,
                status: if next == p.steps.len() {
                    ProposalStatus::Executed
                } else {
                    p.status
                },
                ..p
            },
        )
    }
}

/// A run never exceeds its budget nor the steps that are left, and no step in
/// it is deferred. If it stops short of both, the step it stops at is deferred.
pub proof fn lemma_direct_run(steps: Seq<StepView>, own: Address, from: int, budget: int)
    requires
        0 <= from <= steps.len(),
    ensures
        0 <= direct_run(steps, own, from, budget),
        direct_run(steps, own, from, budget) <= budget || budget < 0,
        from + direct_run(steps, own, from, budget) <= steps.len(),
        forall|j: int|
            from <= j < from + direct_run(steps, own, from, budget) ==> !is_deferred(
                #[trigger] steps[j],
                own,
            ),
        direct_run(steps, own, from, budget) < budget && from + direct_run(
            steps,
            own,
            from,
            budget,
        ) < steps.len() ==> is_deferred(
            steps[from + direct_run(steps, own, from, budget)],
            own,
        ),
    decreases steps.len() - from,
{
    if !(budget <= 0 || from >= steps.len() || is_deferred(steps[from], own)) {
        lemma_direct_run(steps, own, from + 1, budget - 1);
    }
}

/// A run of `a + b` steps is a run of `a` steps followed, if that one used up
/// its budget, by a run of `b` steps from where it ended.
pub proof fn lemma_direct_run_splits(
    steps: Seq<StepView>,
    own: Address,
    from: int,
    a: int,
    b: int,
)
    requires
        0 <= from <= steps.len(),
        0 <= a,
        0 <= b,
    ensures
        direct_run(steps, own, from, a + b) == if direct_run(steps, own, from, a) == a {
            a + direct_run(steps, own, from + a, b)
        } else {
            direct_run(steps, own, from, a)
        },
    decreases steps.len() - from,
{
    if a > 0 && from < steps.len() && !is_deferred(steps[from], own) {
        lemma_direct_run_splits(steps, own, from + 1, a - 1, b);
    }
}

impl Proposal {
    /// Advances the cursor over at most `steps_to_execute` steps and reports
    /// what is to be dispatched, or leaves the proposal as it is and returns
    /// the reason for which nothing is executed.
    pub(crate) fn execute_steps(&mut self, own: &Address, steps_to_execute: i64) -> (r: Result<
        ExecutionReport,
        GovernanceError,
    >)
        requires
            old(self).next_index <= old(self).steps.len(),
        ensures
            execute_spec(old(self)@, *own, steps_to_execute as int) == match r {
                Ok(report) => Ok((final(self)@, report@)),
                Err(e) => Err(e),
            },
            r is Err ==> *final(self) == *old(self),
    {
        if self.status != ProposalStatus::Accepted {
            return Err(GovernanceError::PhaseViolation);
        }
        if self.reentrancy {
            return Err(GovernanceError::PendingReentrancy);
        }
        let first = self.next_index;
        let count = self.steps.len();
        let ghost steps = steps_view(self.steps@);
        let mut index = first;
        let mut left = steps_to_execute;
        let mut deferred = false;
        while left > 0 && index < count && !deferred
            invariant
                count == self.steps.len(),
                steps == steps_view(self.steps@),
                first <= index <= count,
                left <= steps_to_execute,
                index - first == steps_to_execute - left,
                deferred ==> left > 0 && index < count && is_deferred(steps[index as int], *own),
                direct_run(steps, *own, first as int, steps_to_execute as int) == (index - first)
                    + direct_run(steps, *own, index as int, left as int),
            decreases count - index + if deferred { 0int } else { 1int },
        {
            let step = &self.steps[index];
            if step.component.same(own) || step.reentrancy {
                deferred = true;
            } else {
                index += 1;
                left -= 1;
            }
        }
        let executed = !deferred && index == count;
        self.next_index = index;
        self.reentrancy = deferred;
        if executed {
            self.status = ProposalStatus::Executed;
        }
        Ok(ExecutionReport { first, dispatched: index - first, deferred, executed })
    }

    /// Counts the deferred step as executed, or leaves the proposal as it is
    /// and returns an error where no deferred step is waiting.
    pub(crate) fn complete_deferred(&mut self) -> (r: Result<(), GovernanceError>)
        requires
            old(self)@.wf(),
        ensures
            complete_deferred_spec(old(self)@) == match r {
                Ok(()) => Ok(final(self)@),
                Err(e) => Err(e),
            },
            r is Err ==> *final(self) == *old(self),
    {
        if !self.reentrancy {
            return Err(GovernanceError::PhaseViolation);
        }
        let count = self.steps.len();
        assert(self@.status is Accepted && self@.next_index < self@.steps.len());
        self.reentrancy = false;
        self.next_index = self.next_index + 1;
        if self.next_index == count {
            self.status = ProposalStatus::Executed;
        }
        Ok(())
    }
}

} // verus!
