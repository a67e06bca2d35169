//! The mathematical picture of the governance state.
//!
//! Every executable type of the `governance` module has a view in this module: decimals
//! become their subunit counts, instants their seconds, vectors sequences and
//! the vote table a map. The rules of the other modules are stated over these
//! views, and so is what it means for a state to be well formed.

use crate::address::Address;
use crate::decimal::ATTOS_PER_UNIT;
use crate::decimal::representable;
use crate::status::ProposalStatus;
use crate::time::fits_seconds;
use vstd::prelude::*;

verus! {

/// View of a file reference attached to a proposal.
pub struct FileView {
    pub kvs_address: Seq<char>,
    pub component_address: Address,
    pub file_hash: Seq<char>,
}

/// View of one step of a proposal: a call to make with a badge's authority.
pub struct StepView {
    pub component: Address,
    pub badge: Address,
    pub method: Seq<char>,
    pub args: Seq<u8>,
    pub return_bucket: bool,
    pub reentrancy: bool,
}

/// View of the governance parameters. Decimals are in subunits, durations in minutes.
pub struct ParametersView {
    pub fee: int,
    pub proposal_duration: int,
    pub quorum: int,
    pub approval_threshold: int,
    pub maximum_proposal_submit_delay: int,
}

/// View of a proposal receipt.
pub struct ReceiptView {
    pub fee_paid: int,
    pub proposal_id: int,
    pub status: ProposalStatus,
}

/// View of a proposal.
pub struct ProposalView {
    pub title: Seq<char>,
    pub description: Seq<char>,
    pub files: Option<Seq<FileView>>,
    pub steps: Seq<StepView>,
    pub votes_for: int,
    pub votes_against: int,
    /// The signed power each voter committed: positive in favour, negative against.
    pub votes: Map<u64, int>,
    /// Seconds since the epoch: the latest time to submit while building, the
    /// end of the vote afterwards.
    pub deadline: int,
    pub has_failed_in_last_day: Option<bool>,
    pub next_index: int,
    pub status: ProposalStatus,
    pub reentrancy: bool,
}

/// View of the whole governance component.
pub struct GovernanceView {
    pub staking: Address,
    pub reentrancy: Address,
    pub mother_token_address: Address,
    pub mother_pool_token_address: Address,
    /// Subunits of the governance token held in escrow for open proposals.
    pub proposal_fee_vault: int,
    pub proposal_receipt_address: Address,
    /// The receipt of each proposal, at the proposal's identifier.
    pub receipts: Seq<ReceiptView>,
    /// Every proposal ever created, at its identifier.
    pub proposals: Seq<ProposalView>,
    pub parameters: ParametersView,
    pub voting_id_address: Address,
    pub controller_badge_address: Address,
    pub component_address: Address,
}

impl ParametersView {
    /// All parameters are positive, and the approval threshold is at most one.
    pub open spec fn valid(self) -> bool {
        &&& self.fee > 0
        &&& self.proposal_duration > 0
        &&& self.quorum > 0
        &&& 0 < self.approval_threshold <= ATTOS_PER_UNIT
        &&& self.maximum_proposal_submit_delay > 0
    }

    /// Every parameter fits the executable type that carries it.
    pub open spec fn in_range(self) -> bool {
        &&& representable(self.fee)
        &&& representable(self.quorum)
        &&& representable(self.approval_threshold)
        &&& i64::MIN <= self.proposal_duration <= i64::MAX
        &&& i64::MIN <= self.maximum_proposal_submit_delay <= i64::MAX
    }
}

impl ProposalView {
    /// What always holds of a proposal: it has at least one step, its cursor
    /// lies within its steps, and its flags agree with its stage.
    pub open spec fn wf(self) -> bool {
        &&& self.steps.len() >= 1
        &&& 0 <= self.next_index <= self.steps.len()
        &&& fits_seconds(self.deadline)
        &&& representable(self.votes_for)
        &&& representable(self.votes_against)
        &&& (self.status is Building ==> {
            &&& self.votes_for == 0
            &&& self.votes_against == 0
            &&& self.votes == Map::<u64, int>::empty()
            &&& self.has_failed_in_last_day is None
        })
        &&& (self.status is Ongoing ==> self.has_failed_in_last_day != Some(true))
        &&& (self.status is VetoMode ==> self.has_failed_in_last_day == Some(true))
        &&& (self.status is Accepted ==> self.next_index < self.steps.len())
        &&& (self.status is Executed || self.status is Finished ==> self.next_index
            == self.steps.len())
        &&& (!(self.status is Accepted) && !(self.status is Executed) && !(self.status is Finished)
            ==> self.next_index == 0)
        &&& (self.reentrancy ==> self.status is Accepted)
    }
}

/// The escrowed fees of the first `n` receipts: the sum of what was paid for
/// each proposal whose fee has neither been refunded nor claimed.
pub open spec fn bonded_total(receipts: Seq<ReceiptView>, n: int) -> int
    decreases n,
{
    if n <= 0 {
        0
    } else {
        bonded_total(receipts, n - 1) + receipts[n - 1].bonded()
    }
}

impl GovernanceView {
    /// What always holds of the component: valid parameters, one receipt per
    /// proposal that mirrors its stage, well-formed proposals, and an escrow
    /// that holds exactly the fees of the proposals that are still open.
    pub open spec fn wf(self) -> bool {
        &&& self.parameters.valid()
        &&& self.parameters.in_range()
        &&& self.receipts.len() == self.proposals.len()
        &&& forall|i: int|
            0 <= i < self.proposals.len() ==> (#[trigger] self.proposals[i]).wf()
        &&& forall|i: int|
            0 <= i < self.receipts.len() ==> {
                &&& (#[trigger] self.receipts[i]).proposal_id == i
                &&& self.receipts[i].fee_paid > 0
                &&& representable(self.receipts[i].fee_paid)
                &&& self.receipts[i].status == self.proposals[i].status.on_receipt()
            }
        &&& self.proposal_fee_vault == bonded_total(self.receipts, self.receipts.len() as int)
        &&& representable(self.proposal_fee_vault)
    }

    /// Whether `id` names a proposal.
    pub open spec fn has_proposal(self, id: int) -> bool {
        0 <= id < self.proposals.len()
    }

    /// This state with proposal `id` and its receipt replaced.
    pub open spec fn with_proposal(
        self,
        id: int,
        proposal: ProposalView,
        receipt: ReceiptView,
    ) -> GovernanceView {
        GovernanceView {
            proposals: self.proposals.update(id, proposal),
            receipts: self.receipts.update(id, receipt),
            ..self
        }
    }
}

impl ReceiptView {
    /// What the escrow holds on account of this receipt: the fee paid, until
    /// it is refunded or claimed.
    pub open spec fn bonded(self) -> int {
        if self.status.holds_fee() {
            self.fee_paid
        } else {
            0
        }
    }

    /// This receipt showing another stage.
    pub open spec fn with_status(self, status: ProposalStatus) -> ReceiptView {
        ReceiptView { status, ..self }
    }
}

} // verus!
