//! The stages in a proposal's life and the failures an operation can report.

use vstd::prelude::*;

verus! {

/// Where a proposal stands.
///
/// A proposal is built, put to the vote, decided and, if accepted, executed.
/// `Rejected` and `Finished` are final.
#[derive(Clone, Copy, Debug, PartialEq, Eq, Structural)]
pub enum ProposalStatus {
    /// Steps may still be added; not yet put to the vote.
    Building,
    /// Open for votes.
    Ongoing,
    /// Open for votes, after it was found failing in the closing minute.
    VetoMode,
    /// Turned down, or never submitted in time.
    Rejected,
    /// Approved; its steps are being executed.
    Accepted,
    /// All steps executed; the fee can be claimed.
    Executed,
    /// The fee was claimed.
    Finished,
}

/// Why an operation was refused. A refused operation changes nothing.
#[derive(Clone, Copy, Debug, PartialEq, Eq, Structural)]
pub enum GovernanceError {
    /// No proposal has the given identifier.
    UnknownProposal,
    /// The proposal is not in a stage that allows the operation.
    PhaseViolation,
    /// The receipt or voting credential presented is not one this component accepts.
    AuthorizationFailure,
    /// The voter has already voted on the proposal.
    DoubleVote,
    /// The deadline has passed, or has not been reached yet, as the operation requires.
    WindowClosed,
    /// The payment is in the wrong token or below the fee.
    InsufficientPayment,
    /// A deferred step of the proposal is still waiting to be completed.
    PendingReentrancy,
    /// A duration, fee, quorum or threshold is outside its allowed range.
    ParameterInvalid,
    /// A decimal or a timestamp left its representable range.
    Overflow,
}

impl ProposalStatus {
    /// Whether votes can be cast in this stage.
    pub open spec fn is_votable(self) -> bool {
        self is Ongoing || self is VetoMode
    }

    /// Whether the fee bonded for a proposal in this stage is still in escrow.
    pub open spec fn holds_fee(self) -> bool {
        !(self is Rejected) && !(self is Finished)
    }

    /// The stage shown on the receipt of a proposal in this stage: the same,
    /// except that a receipt does not tell veto mode from ordinary voting.
    pub open spec fn on_receipt(self) -> ProposalStatus {
        if self is VetoMode {
            ProposalStatus::Ongoing
        } else {
            self
        }
    }

    /// Whether a proposal can go from this stage to `next` in one operation,
    /// staying where it is included.
    pub open spec fn may_become(self, next: ProposalStatus) -> bool {
        self == next || match self {
            ProposalStatus::Building => next is Ongoing || next is Rejected,
            ProposalStatus::Ongoing => next is VetoMode || next is Accepted || next is Rejected,
            ProposalStatus::VetoMode => next is Accepted || next is Rejected,
            ProposalStatus::Accepted => next is Executed,
            ProposalStatus::Executed => next is Finished,
            ProposalStatus::Rejected => false,
            ProposalStatus::Finished => false,
        }
    }

    /// The stage shown on the receipt of a proposal in this stage.
    pub fn shown_on_receipt(self) -> (r: ProposalStatus)
        ensures
            r == self.on_receipt(),
    {
        match self {
            ProposalStatus::VetoMode => ProposalStatus::Ongoing,
            other => other,
        }
    }

    /// Whether the fee bonded for a proposal in this stage is still in escrow.
    pub fn keeps_fee_in_escrow(self) -> (r: bool)
        ensures
            r == self.holds_fee(),
    {
        match self {
            ProposalStatus::Rejected => false,
            ProposalStatus::Finished => false,
            _ => true,
        }
    }

    /// How far along its life a proposal in this stage is, rejection aside.
    pub open spec fn rank(self) -> int {
        match self {
            ProposalStatus::Building => 0,
            ProposalStatus::Ongoing => 1,
            ProposalStatus::VetoMode => 2,
            ProposalStatus::Rejected => 3,
            ProposalStatus::Accepted => 3,
            ProposalStatus::Executed => 4,
            ProposalStatus::Finished => 5,
        }
    }

    /// Whether a proposal in this stage can be in stage `later` after any
    /// number of operations: stages are passed in order, and a proposal can be
    /// rejected only before it is accepted.
    pub open spec fn can_reach(self, later: ProposalStatus) -> bool {
        self == later || (self.rank() < later.rank() && !(self is Rejected) && (later is Rejected
            ==> self.rank() <= 2))
    }
}

} // verus!
