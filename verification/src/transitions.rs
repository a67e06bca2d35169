//! What each operation of the governance component does, over views.
//!
//! Each function takes the state before an operation and the operation's
//! arguments, and gives the state after it together with what the operation
//! hands back, or the reason for which it is refused. The executable
//! operations are verified against these functions.

use crate::address::Address;
use crate::decimal::sum_of;
use crate::execution::ExecutionReportView;
use crate::execution::complete_deferred_spec;
use crate::execution::execute_spec;
use crate::governance::Credential;
use crate::governance::Payment;
use crate::model::FileView;
use crate::model::GovernanceView;
use crate::model::ParametersView;
use crate::model::ProposalView;
use crate::model::ReceiptView;
use crate::model::StepView;
use crate::status::GovernanceError;
use crate::status::ProposalStatus;
use crate::time::shift_defined;
use crate::time::shifted;
use crate::voting::decide_spec;
use crate::voting::vote_lock_time_spec;
use crate::voting::vote_spec;
use vstd::prelude::*;

verus! {

/// The parameters a new component starts with: a fee and a quorum of ten
/// thousand units, votes of three minutes, a threshold of one half, and seven
/// minutes to submit.
pub open spec fn initial_parameters() -> ParametersView {
    ParametersView {
        fee: 10_000_000_000_000_000_000_000,
        proposal_duration: 3,
        quorum: 10_000_000_000_000_000_000_000,
        approval_threshold: 500_000_000_000_000_000,
        maximum_proposal_submit_delay: 7,
    }
}

/// Whether a credential is a receipt of this component for an existing proposal.
pub open spec fn receipt_accepted(g: GovernanceView, receipt: Credential) -> bool {
    receipt.resource_address == g.proposal_receipt_address && g.has_proposal(
        receipt.local_id as int,
    )
}

/// Whether a credential is a voting identity that this component accepts.
pub open spec fn voting_id_accepted(g: GovernanceView, voting_id: Credential) -> bool {
    voting_id.resource_address == g.voting_id_address
}

/// A proposal as it is created: building, with its first step, no votes, and
/// the given time limit for its submission.
pub open spec fn new_proposal(
    title: Seq<char>,
    description: Seq<char>,
    files: Option<Seq<FileView>>,
    first_step: StepView,
    submit_by: int,
) -> ProposalView {
    ProposalView {
        title,
        description,
        files,
        steps: seq![first_step],
        votes_for: 0,
        votes_against: 0,
        votes: Map::empty(),
        deadline: submit_by,
        has_failed_in_last_day: None,
        next_index: 0,
        status: ProposalStatus::Building,
        reentrancy: false,
    }
}

/// Creating a proposal takes exactly the fee from a payment in the governance
/// token into escrow, appends the proposal and its receipt, and gives back the
/// rest of the payment. The payment must be in the governance token and cover
/// the fee.
pub open spec fn create_proposal_spec(
    g: GovernanceView,
    title: Seq<char>,
    description: Seq<char>,
    files: Option<Seq<FileView>>,
    first_step: StepView,
    payment: Payment,
    now: int,
) -> Result<(GovernanceView, int, ReceiptView), GovernanceError> {
    if payment.resource_address != g.mother_token_address || payment.amount@ < g.parameters.fee {
        Err(GovernanceError::InsufficientPayment)
    } else if sum_of(g.proposal_fee_vault, g.parameters.fee) is None || !shift_defined(
        now,
        g.parameters.maximum_proposal_submit_delay,
    ) {
        Err(GovernanceError::Overflow)
    } else {
        let receipt = ReceiptView {
            fee_paid: g.parameters.fee,
            proposal_id: g.proposals.len() as int,
            status: ProposalStatus::Building,
        };
        let proposal = new_proposal(
            title,
            description,
            files,
            first_step,
            shifted(now, g.parameters.maximum_proposal_submit_delay),
        );
        Ok(
            (
                GovernanceView {
                    proposal_fee_vault: g.proposal_fee_vault + g.parameters.fee,
                    proposals: g.proposals.push(proposal),
                    receipts: g.receipts.push(receipt),
                    ..g
                },
                payment.amount@ - g.parameters.fee,
                receipt,
            ),
        )
    }
}

/// Adding a step appends it to the steps of the receipt's proposal, which
/// must still be building.
pub open spec fn add_proposal_step_spec(
    g: GovernanceView,
    receipt: Credential,
    step: StepView,
) -> Result<GovernanceView, GovernanceError> {
    if !receipt_accepted(g, receipt) {
        Err(GovernanceError::AuthorizationFailure)
    } else {
        let id = receipt.local_id as int;
        if !(g.receipts[id].status is Building) {
            Err(GovernanceError::PhaseViolation)
        } else {
            Ok(
                g.with_proposal(
                    id,
                    ProposalView { steps: g.proposals[id].steps.push(step), ..g.proposals[id] },
                    g.receipts[id],
                ),
            )
        }
    }
}

/// This state with the fee of proposal `id` released from escrow.
pub open spec fn fee_released(g: GovernanceView, id: int) -> GovernanceView {
    GovernanceView { proposal_fee_vault: g.proposal_fee_vault - g.receipts[id].fee_paid, ..g }
}

/// This state with proposal `id` and its receipt moved to another stage.
pub open spec fn staged(g: GovernanceView, id: int, status: ProposalStatus) -> GovernanceView {
    g.with_proposal(
        id,
        ProposalView { status, ..g.proposals[id] },
        g.receipts[id].with_status(status.on_receipt()),
    )
}

/// Submitting puts the receipt's proposal, which must be building, to the
/// vote: the vote ends one proposal duration after `now`. But a proposal whose
/// time limit for submission has passed is rejected instead, and its fee
/// leaves the escrow for the treasury: the second component of the result is
/// then the amount released.
pub open spec fn submit_proposal_spec(g: GovernanceView, receipt: Credential, now: int) -> Result<
    (GovernanceView, Option<int>),
    GovernanceError,
> {
    if !receipt_accepted(g, receipt) {
        Err(GovernanceError::AuthorizationFailure)
    } else {
        let id = receipt.local_id as int;
        if !(g.receipts[id].status is Building) {
            Err(GovernanceError::PhaseViolation)
        } else if now > g.proposals[id].deadline {
            Ok(
                (
                    fee_released(staged(g, id, ProposalStatus::Rejected), id),
                    Some(g.receipts[id].fee_paid),
                ),
            )
        } else if !shift_defined(now, g.parameters.proposal_duration) {
            Err(GovernanceError::Overflow)
        } else {
            Ok(
                (
                    g.with_proposal(
                        id,
                        ProposalView {
                            status: ProposalStatus::Ongoing,
                            deadline: shifted(now, g.parameters.proposal_duration),
                            ..g.proposals[id]
                        },
                        g.receipts[id].with_status(ProposalStatus::Ongoing),
                    ),
                    None,
                ),
            )
        }
    }
}

/// The time until which the voter's stake is to be locked for a vote cast at
/// `now`, which is what the voting-power oracle is asked with; or the reason
/// for which the vote is refused before the oracle is asked.
pub open spec fn vote_lock_time_of(
    g: GovernanceView,
    proposal_id: u64,
    support: bool,
    voting_id: Credential,
    now: int,
) -> Result<int, GovernanceError> {
    if !g.has_proposal(proposal_id as int) {
        Err(GovernanceError::UnknownProposal)
    } else {
        vote_lock_time_spec(
            g.proposals[proposal_id as int],
            g.parameters.approval_threshold,
            voting_id_accepted(g, voting_id),
            support,
            voting_id.local_id,
            now,
        )
    }
}

/// Voting changes the proposal voted on as the voting rules say, and nothing
/// else.
pub open spec fn vote_on_proposal_spec(
    g: GovernanceView,
    proposal_id: u64,
    support: bool,
    voting_id: Credential,
    power: int,
    now: int,
) -> Result<GovernanceView, GovernanceError> {
    if !g.has_proposal(proposal_id as int) {
        Err(GovernanceError::UnknownProposal)
    } else {
        match vote_spec(
            g.proposals[proposal_id as int],
            g.parameters.approval_threshold,
            voting_id_accepted(g, voting_id),
            support,
            voting_id.local_id,
            power,
            now,
        ) {
            Ok(p) => Ok(
                GovernanceView { proposals: g.proposals.update(proposal_id as int, p), ..g },
            ),
            Err(e) => Err(e),
        }
    }
}

/// Finishing a vote decides it. An accepted proposal keeps its fee in escrow;
/// the fee of a rejected one leaves the escrow for the treasury, and the
/// second component of the result is then the amount released.
pub open spec fn finish_voting_spec(
    g: GovernanceView,
    proposal_id: u64,
    multiplier: int,
    now: int,
) -> Result<(GovernanceView, Option<int>), GovernanceError> {
    if !g.has_proposal(proposal_id as int) {
        Err(GovernanceError::UnknownProposal)
    } else {
        let id = proposal_id as int;
        match decide_spec(
            g.proposals[id],
            g.parameters.approval_threshold,
            g.parameters.quorum,
            multiplier,
            now,
        ) {
            Err(e) => Err(e),
            Ok(status) => if status is Rejected {
                Ok((fee_released(staged(g, id, status), id), Some(g.receipts[id].fee_paid)))
            } else {
                Ok((staged(g, id, status), None))
            },
        }
    }
}

/// Executing steps advances the proposal as the execution rules say, and
/// shows on the receipt when the proposal has been executed in full.
pub open spec fn execute_proposal_step_spec(
    g: GovernanceView,
    proposal_id: u64,
    steps_to_execute: int,
) -> Result<(GovernanceView, ExecutionReportView), GovernanceError> {
    if !g.has_proposal(proposal_id as int) {
        Err(GovernanceError::UnknownProposal)
    } else {
        let id = proposal_id as int;
        match execute_spec(g.proposals[id], g.component_address, steps_to_execute) {
            Err(e) => Err(e),
            Ok((p, report)) => Ok(
                (g.with_proposal(id, p, g.receipts[id].with_status(p.status.on_receipt())), report),
            ),
        }
    }
}

/// Completing a deferred step advances the proposal past it, and shows on the
/// receipt when the proposal has thereby been executed in full.
pub open spec fn finish_reentrancy_step_spec(g: GovernanceView, proposal_id: u64) -> Result<
    GovernanceView,
    GovernanceError,
> {
    if !g.has_proposal(proposal_id as int) {
        Err(GovernanceError::UnknownProposal)
    } else {
        let id = proposal_id as int;
        match complete_deferred_spec(g.proposals[id]) {
            Err(e) => Err(e),
            Ok(p) => Ok(g.with_proposal(id, p, g.receipts[id].with_status(p.status.on_receipt()))),
        }
    }
}

/// Retrieving the fee of an executed proposal finishes it and releases what
/// was paid for it from escrow to the holder of the receipt.
pub open spec fn retrieve_fee_spec(g: GovernanceView, receipt: Credential) -> Result<
    (GovernanceView, int),
    GovernanceError,
> {
    if !receipt_accepted(g, receipt) {
        Err(GovernanceError::AuthorizationFailure)
    } else {
        let id = receipt.local_id as int;
        if !(g.receipts[id].status is Executed) {
            Err(GovernanceError::PhaseViolation)
        } else {
            Ok(
                (
                    fee_released(staged(g, id, ProposalStatus::Finished), id),
                    g.receipts[id].fee_paid,
                ),
            )
        }
    }
}

/// Hurrying a proposal in ordinary voting moves its deadline to `new_duration`
/// minutes after `now`, which must be positive and must not lie after the
/// deadline it replaces.
pub open spec fn hurry_proposal_spec(
    g: GovernanceView,
    proposal_id: u64,
    new_duration: int,
    now: int,
) -> Result<GovernanceView, GovernanceError> {
    if !shift_defined(now, new_duration) {
        Err(GovernanceError::Overflow)
    } else if !g.has_proposal(proposal_id as int) {
        Err(GovernanceError::UnknownProposal)
    } else {
        let id = proposal_id as int;
        if !(g.proposals[id].status is Ongoing) {
            Err(GovernanceError::PhaseViolation)
        } else if shifted(now, new_duration) > g.proposals[id].deadline || new_duration <= 0 {
            Err(GovernanceError::ParameterInvalid)
        } else {
            Ok(
                GovernanceView {
                    proposals: g.proposals.update(
                        id,
                        ProposalView { deadline: shifted(now, new_duration), ..g.proposals[id] },
                    ),
                    ..g
                },
            )
        }
    }
}

/// Setting the parameters replaces all five, provided that each is positive
/// and the threshold is at most one.
pub open spec fn set_parameters_spec(g: GovernanceView, parameters: ParametersView) -> Result<
    GovernanceView,
    GovernanceError,
> {
    if parameters.valid() {
        Ok(GovernanceView { parameters, ..g })
    } else {
        Err(GovernanceError::ParameterInvalid)
    }
}

/// Setting the staking component replaces its address and that of the voting
/// identities it issues.
pub open spec fn set_staking_component_spec(
    g: GovernanceView,
    staking: Address,
    voting_id_address: Address,
) -> GovernanceView {
    GovernanceView { staking, voting_id_address, ..g }
}

} // verus!
