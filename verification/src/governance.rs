//! The governance component: its data and its operations.
//!
//! Proposals are kept in an arena indexed by their identifier. Each has a
//! receipt that records the fee bonded for it and mirrors its stage; whoever
//! presents the receipt may add steps, submit, and claim the fee back once the
//! proposal is executed. Tokens never pass through this module: an operation
//! that takes or releases tokens says how many, and keeps account of what the
//! fee escrow holds.
//!
//! The current time, the voting power of a voter and the value of a pool unit
//! come from outside and are arguments. An operation that is refused returns
//! the reason and leaves the state as it was.

use crate::address::Address;
use crate::decimal::Decimal;
use crate::decimal::attos_of;
use crate::escrow::lemma_bonded_total_monotone;
use crate::model::bonded_total;
use crate::execution::ExecutionReport;
use crate::invariants::lemma_add_proposal_step_keeps_wf;
use crate::invariants::lemma_create_proposal_keeps_wf;
use crate::invariants::lemma_execute_proposal_step_keeps_wf;
use crate::invariants::lemma_hurry_proposal_keeps_wf;
use crate::invariants::lemma_finish_reentrancy_step_keeps_wf;
use crate::invariants::lemma_finish_voting_keeps_wf;
use crate::invariants::lemma_retrieve_fee_keeps_wf;
use crate::invariants::lemma_submit_proposal_keeps_wf;
use crate::invariants::lemma_vote_on_proposal_keeps_wf;
use crate::model::FileView;
use crate::model::GovernanceView;
use crate::model::ParametersView;
use crate::model::ProposalView;
use crate::model::ReceiptView;
use crate::model::StepView;
pub use crate::status::GovernanceError;
pub use crate::status::ProposalStatus;
use crate::time::Instant;
use crate::transitions::add_proposal_step_spec;
use crate::transitions::create_proposal_spec;
use crate::transitions::execute_proposal_step_spec;
use crate::transitions::hurry_proposal_spec;
use crate::transitions::set_parameters_spec;
use crate::transitions::set_staking_component_spec;
use crate::transitions::finish_reentrancy_step_spec;
use crate::transitions::finish_voting_spec;
use crate::transitions::retrieve_fee_spec;
use crate::transitions::submit_proposal_spec;
use crate::transitions::initial_parameters;
use crate::transitions::vote_lock_time_of;
use crate::transitions::vote_on_proposal_spec;
use std::collections::HashMap;
use vstd::prelude::*;

verus! {

/// What is needed to look up a file stored on the ledger.
#[derive(Debug)]
pub struct File {
    pub kvs_address: String,
    pub component_address: Address,
    pub file_hash: String,
}

/// One step of a proposal: a method to call on a component, with encoded
/// arguments, under the authority of a badge.
#[derive(Debug)]
pub struct ProposalStep {
    pub component: Address,
    pub badge: Address,
    pub method: String,
    pub args: Vec<u8>,
    /// Whether the call hands back tokens, which then go to the treasury.
    pub return_bucket: bool,
    /// Whether the call must be made from a call stack of its own.
    pub reentrancy: bool,
}

/// The parameters of governance.
#[derive(Clone, Copy, Debug, PartialEq, Eq, Structural)]
pub struct GovernanceParameters {
    /// What creating a proposal costs.
    pub fee: Decimal,
    /// How long a vote lasts, in minutes.
    pub proposal_duration: i64,
    /// The least total of votes, in real terms, for a proposal to pass.
    pub quorum: Decimal,
    /// The share of all votes that the votes in favour must exceed.
    pub approval_threshold: Decimal,
    /// How long a proposal may stay unsubmitted, in minutes.
    pub maximum_proposal_submit_delay: i64,
}

/// The record kept for a proposal's creator: a claim on the fee.
#[derive(Clone, Copy, Debug, PartialEq, Eq, Structural)]
pub struct ProposalReceipt {
    pub fee_paid: Decimal,
    pub proposal_id: u64,
    pub status: ProposalStatus,
}

/// A proposal.
#[derive(Debug)]
pub struct Proposal {
    pub title: String,
    pub description: String,
    pub files: Option<Vec<File>>,
    pub steps: Vec<ProposalStep>,
    pub votes_for: Decimal,
    pub votes_against: Decimal,
    /// The signed power each voter committed: positive in favour, negative against.
    pub votes: HashMap<u64, Decimal>,
    /// The latest time to submit while building, the end of the vote afterwards.
    pub deadline: Instant,
    /// Unset until the closing minute's stock-taking; then whether the
    /// proposal was, or has since become, failing.
    pub has_failed_in_last_day: Option<bool>,
    /// The index of the next step to execute.
    pub next_index: usize,
    pub status: ProposalStatus,
    /// Whether a deferred step is waiting to be completed.
    pub reentrancy: bool,
}

/// Evidence of holding a non-fungible token: the token's resource and its identifier.
#[derive(Clone, Copy, Debug, PartialEq, Eq)]
pub struct Credential {
    pub resource_address: Address,
    pub local_id: u64,
}

/// An amount of some token offered in payment.
#[derive(Clone, Copy, Debug, PartialEq, Eq)]
pub struct Payment {
    pub resource_address: Address,
    pub amount: Decimal,
}

impl View for File {
    type V = FileView;

    open spec fn view(&self) -> FileView {
        FileView {
            kvs_address: self.kvs_address@,
            component_address: self.component_address,
            file_hash: self.file_hash@,
        }
    }
}

impl View for ProposalStep {
    type V = StepView;

    open spec fn view(&self) -> StepView {
        StepView {
            component: self.component,
            badge: self.badge,
            method: self.method@,
            args: self.args@,
            return_bucket: self.return_bucket,
            reentrancy: self.reentrancy,
        }
    }
}

impl View for GovernanceParameters {
    type V = ParametersView;

    open spec fn view(&self) -> ParametersView {
        ParametersView {
            fee: self.fee@,
            proposal_duration: self.proposal_duration as int,
            quorum: self.quorum@,
            approval_threshold: self.approval_threshold@,
            maximum_proposal_submit_delay: self.maximum_proposal_submit_delay as int,
        }
    }
}

impl View for ProposalReceipt {
    type V = ReceiptView;

    open spec fn view(&self) -> ReceiptView {
        ReceiptView {
            fee_paid: self.fee_paid@,
            proposal_id: self.proposal_id as int,
            status: self.status,
        }
    }
}

/// The views of a sequence of steps.
pub open spec fn steps_view(steps: Seq<ProposalStep>) -> Seq<StepView> {
    steps.map_values(|s: ProposalStep| s@)
}

/// The views of the files of a proposal.
pub open spec fn files_view(files: Option<Vec<File>>) -> Option<Seq<FileView>> {
    match files {
        Some(v) => Some(v@.map_values(|f: File| f@)),
        None => None,
    }
}

/// The subunit counts in a vote table.
pub open spec fn votes_view(votes: Map<u64, Decimal>) -> Map<u64, int> {
    votes.map_values(|d: Decimal| d@)
}

impl View for Proposal {
    type V = ProposalView;

    open spec fn view(&self) -> ProposalView {
        ProposalView {
            title: self.title@,
            description: self.description@,
            files: files_view(self.files),
            steps: steps_view(self.steps@),
            votes_for: self.votes_for@,
            votes_against: self.votes_against@,
            votes: votes_view(self.votes@),
            deadline: self.deadline@,
            has_failed_in_last_day: self.has_failed_in_last_day,
            next_index: self.next_index as int,
            status: self.status,
            reentrancy: self.reentrancy,
        }
    }
}

/// The governance component.
pub struct Governance {
    staking: Address,
    reentrancy: Address,
    mother_token_address: Address,
    mother_pool_token_address: Address,
    proposal_fee_vault: Decimal,
    proposal_receipt_address: Address,
    receipts: Vec<ProposalReceipt>,
    proposals: Vec<Proposal>,
    parameters: GovernanceParameters,
    voting_id_address: Address,
    controller_badge_address: Address,
    component_address: Address,
}

impl View for Governance {
    type V = GovernanceView;

    closed spec fn view(&self) -> GovernanceView {
        GovernanceView {
            staking: self.staking,
            reentrancy: self.reentrancy,
            mother_token_address: self.mother_token_address,
            mother_pool_token_address: self.mother_pool_token_address,
            proposal_fee_vault: self.proposal_fee_vault@,
            proposal_receipt_address: self.proposal_receipt_address,
            receipts: self.receipts@.map_values(|r: ProposalReceipt| r@),
            proposals: self.proposals@.map_values(|p: Proposal| p@),
            parameters: self.parameters@,
            voting_id_address: self.voting_id_address,
            controller_badge_address: self.controller_badge_address,
            component_address: self.component_address,
        }
    }
}

impl Governance {
    /// A new component with the given addresses, the initial parameters, no
    /// proposals and an empty escrow.
    pub fn instantiate_governance(
        component_address: Address,
        reentrancy: Address,
        controller_badge_address: Address,
        proposal_receipt_address: Address,
        staking: Address,
        mother_token_address: Address,
        mother_pool_token_address: Address,
        voting_id_address: Address,
    ) -> (r: Governance)
        ensures
            r@.wf(),
            r@ == (GovernanceView {
                staking,
                reentrancy,
                mother_token_address,
                mother_pool_token_address,
                proposal_fee_vault: 0,
                proposal_receipt_address,
                receipts: Seq::empty(),
                proposals: Seq::empty(),
                parameters: initial_parameters(),
                voting_id_address,
                controller_badge_address,
                component_address,
            }),
    {
        let parameters = GovernanceParameters {
            fee: Decimal::from_units(10000),
            proposal_duration: 3,
            quorum: Decimal::from_units(10000),
            approval_threshold: Decimal::from_attos(500_000_000_000_000_000),
            maximum_proposal_submit_delay: 7,
        };
        let r = Governance {
            staking,
            reentrancy,
            mother_token_address,
            mother_pool_token_address,
            proposal_fee_vault: Decimal::zero(),
            proposal_receipt_address,
            receipts: Vec::new(),
            proposals: Vec::new(),
            parameters,
            voting_id_address,
            controller_badge_address,
            component_address,
        };
        proof {
            assert(r@.receipts =~= Seq::empty());
            assert(r@.proposals =~= Seq::empty());
        }
        r
    }

    /// The time until which the voter's stake is to be locked for a vote cast
    /// at `now`. This is what the voting-power oracle is to be asked with
    /// before the vote is cast; nothing is changed. An error where the vote
    /// would be refused whatever the voter's power.
    pub fn vote_lock_time(
        &self,
        proposal_id: u64,
        for_against: bool,
        voting_id: Credential,
        now: Instant,
    ) -> (r: Result<Instant, GovernanceError>)
        ensures
            vote_lock_time_of(self@, proposal_id, for_against, voting_id, now@) == match r {
                Ok(t) => Ok(t@),
                Err(e) => Err(e),
            },
    {
        if proposal_id >= self.proposals.len() as u64 {
            return Err(GovernanceError::UnknownProposal);
        }
        let accepted = voting_id.resource_address.same(&self.voting_id_address);
        self.proposals[proposal_id as usize].vote_lock_time(
            self.parameters.approval_threshold,
            accepted,
            for_against,
            voting_id.local_id,
            now,
        )
    }

    /// Casts a vote on a proposal with the power that the voting-power oracle
    /// gave for the voter.
    pub fn vote_on_proposal(
        &mut self,
        proposal_id: u64,
        for_against: bool,
        voting_id: Credential,
        vote_power: Decimal,
        now: Instant,
    ) -> (r: Result<(), GovernanceError>)
        requires
            old(self)@.wf(),
        ensures
            final(self)@.wf(),
            vote_on_proposal_spec(
                old(self)@,
                proposal_id,
                for_against,
                voting_id,
                vote_power@,
                now@,
            ) == match r {
                Ok(()) => Ok(final(self)@),
                Err(e) => Err(e),
            },
            r is Err ==> final(self)@ == old(self)@,
    {
        if proposal_id >= self.proposals.len() as u64 {
            return Err(GovernanceError::UnknownProposal);
        }
        let i = proposal_id as usize;
        let accepted = voting_id.resource_address.same(&self.voting_id_address);
        let threshold = self.parameters.approval_threshold;
        let proposal = &mut self.proposals[i];
        let r = proposal.cast_vote(
            threshold,
            accepted,
            for_against,
            voting_id.local_id,
            vote_power,
            now,
        );
        proof {
            if r is Ok {
                assert(self@.proposals =~= old(self)@.proposals.update(
                    i as int,
                    self.proposals@[i as int]@,
                ));
                assert(self@.receipts =~= old(self)@.receipts);
                lemma_vote_on_proposal_keeps_wf(
                    old(self)@,
                    proposal_id,
                    for_against,
                    voting_id,
                    vote_power@,
                    now@,
                );
            } else {
                assert(self@.proposals =~= old(self)@.proposals);
                assert(self@.receipts =~= old(self)@.receipts);
            }
        }
        r
    }

    /// Executes up to `steps_to_execute` steps of an accepted proposal and
    /// reports which calls are to be dispatched. Asking for more steps than
    /// are left is no error; asking for none changes nothing.
    pub fn execute_proposal_step(&mut self, proposal_id: u64, steps_to_execute: i64) -> (r: Result<
        ExecutionReport,
        GovernanceError,
    >)
        requires
            old(self)@.wf(),
        ensures
            final(self)@.wf(),
            execute_proposal_step_spec(old(self)@, proposal_id, steps_to_execute as int)
                == match r {
                Ok(report) => Ok((final(self)@, report@)),
                Err(e) => Err(e),
            },
            r matches Ok(report) ==> {
                &&& old(self)@.has_proposal(proposal_id as int)
                &&& report.first == old(self)@.proposals[proposal_id as int].next_index
                &&& report.first + report.dispatched == final(self)@.proposals[proposal_id as int].next_index
                &&& report.deferred == final(self)@.proposals[proposal_id as int].reentrancy
                &&& report.executed == (final(self)@.proposals[proposal_id as int].status
                    is Executed)
            },
            r is Err ==> final(self)@ == old(self)@,
    {
        if proposal_id >= self.proposals.len() as u64 {
            return Err(GovernanceError::UnknownProposal);
        }
        let i = proposal_id as usize;
        let own = self.component_address;
        proof {
            assert(old(self)@.proposals[i as int].wf());
            assert(old(self)@.receipts.len() == old(self)@.proposals.len());
        }
        let proposal = &mut self.proposals[i];
        let r = proposal.execute_steps(&own, steps_to_execute);
        let executed = self.proposals[i].status == ProposalStatus::Executed;
        if r.is_ok() && executed {
            self.receipts[i].status = ProposalStatus::Executed;
        }
        proof {
            assert(self@.proposals =~= old(self)@.proposals.update(
                i as int,
                self.proposals@[i as int]@,
            ));
            if r is Ok {
                assert(old(self)@.receipts[i as int].status == ProposalStatus::Accepted);
                assert(self@.receipts =~= old(self)@.receipts.update(
                    i as int,
                    old(self)@.receipts[i as int].with_status(
                        self.proposals@[i as int]@.status.on_receipt(),
                    ),
                ));
                lemma_execute_proposal_step_keeps_wf(
                    old(self)@,
                    proposal_id,
                    steps_to_execute as int,
                );
            } else {
                assert(self@.proposals =~= old(self)@.proposals);
                assert(self@.receipts =~= old(self)@.receipts);
            }
        }
        r
    }

    /// Records that the deferred step of a proposal has been carried out. An
    /// error where the proposal has no deferred step waiting.
    pub fn finish_reentrancy_step(&mut self, proposal_id: u64) -> (r: Result<(), GovernanceError>)
        requires
            old(self)@.wf(),
        ensures
            final(self)@.wf(),
            finish_reentrancy_step_spec(old(self)@, proposal_id) == match r {
                Ok(()) => Ok(final(self)@),
                Err(e) => Err(e),
            },
            r is Err ==> final(self)@ == old(self)@,
    {
        if proposal_id >= self.proposals.len() as u64 {
            return Err(GovernanceError::UnknownProposal);
        }
        let i = proposal_id as usize;
        proof {
            assert(old(self)@.proposals[i as int].wf());
            assert(old(self)@.receipts.len() == old(self)@.proposals.len());
        }
        let proposal = &mut self.proposals[i];
        let r = proposal.complete_deferred();
        let executed = self.proposals[i].status == ProposalStatus::Executed;
        if r.is_ok() && executed {
            self.receipts[i].status = ProposalStatus::Executed;
        }
        proof {
            assert(self@.proposals =~= old(self)@.proposals.update(
                i as int,
                self.proposals@[i as int]@,
            ));
            if r is Ok {
                assert(old(self)@.receipts[i as int].status == ProposalStatus::Accepted);
                assert(self@.receipts =~= old(self)@.receipts.update(
                    i as int,
                    old(self)@.receipts[i as int].with_status(
                        self.proposals@[i as int]@.status.on_receipt(),
                    ),
                ));
                lemma_finish_reentrancy_step_keeps_wf(old(self)@, proposal_id);
            } else {
                assert(self@.proposals =~= old(self)@.proposals);
                assert(self@.receipts =~= old(self)@.receipts);
            }
        }
        r
    }

    /// Moves proposal `i` and its receipt to a stage in which the fee is no
    /// longer in escrow, and takes the fee out of the escrow. Returns the fee.
    fn release_fee(&mut self, i: usize, status: ProposalStatus) -> (fee: Decimal)
        requires
            i < old(self)@.proposals.len(),
            old(self)@.receipts.len() == old(self)@.proposals.len(),
            0 <= old(self)@.proposal_fee_vault - old(self)@.receipts[i as int].fee_paid,
            old(self)@.receipts[i as int].fee_paid >= 0,
        ensures
            fee@ == old(self)@.receipts[i as int].fee_paid,
            final(self)@ == crate::transitions::fee_released(
                crate::transitions::staged(old(self)@, i as int, status),
                i as int,
            ),
    {
        let fee = self.receipts[i].fee_paid;
        proof {
            self.proposal_fee_vault.lemma_view_in_range();
        }
        let rest = match self.proposal_fee_vault.checked_sub(fee) {
            Some(rest) => rest,
            None => {
                proof {
                    assert(false);
                }
                self.proposal_fee_vault
            },
        };
        self.proposal_fee_vault = rest;
        self.proposals[i].status = status;
        self.receipts[i].status = status.shown_on_receipt();
        proof {
            let after = crate::transitions::fee_released(
                crate::transitions::staged(old(self)@, i as int, status),
                i as int,
            );
            assert(self@.proposals =~= after.proposals);
            assert(self@.receipts =~= after.receipts);
        }
        fee
    }

    /// Moves proposal `i` and its receipt to another stage.
    fn set_stage(&mut self, i: usize, status: ProposalStatus)
        requires
            i < old(self)@.proposals.len(),
            old(self)@.receipts.len() == old(self)@.proposals.len(),
        ensures
            final(self)@ == crate::transitions::staged(old(self)@, i as int, status),
    {
        self.proposals[i].status = status;
        self.receipts[i].status = status.shown_on_receipt();
        proof {
            let after = crate::transitions::staged(old(self)@, i as int, status);
            assert(self@.proposals =~= after.proposals);
            assert(self@.receipts =~= after.receipts);
        }
    }

    /// Decides the vote on a proposal once its deadline has been reached,
    /// given the value of one pool unit. Returns the fee released from escrow
    /// to the treasury where the proposal is rejected, and `None` where it is
    /// accepted.
    pub fn finish_voting(
        &mut self,
        proposal_id: u64,
        real_value_multiplier: Decimal,
        now: Instant,
    ) -> (r: Result<Option<Decimal>, GovernanceError>)
        requires
            old(self)@.wf(),
        ensures
            final(self)@.wf(),
            finish_voting_spec(old(self)@, proposal_id, real_value_multiplier@, now@) == match r {
                Ok(released) => Ok((final(self)@, attos_of(released))),
                Err(e) => Err(e),
            },
            r is Err ==> final(self)@ == old(self)@,
    {
        if proposal_id >= self.proposals.len() as u64 {
            return Err(GovernanceError::UnknownProposal);
        }
        let i = proposal_id as usize;
        let status = match self.proposals[i].decide(
            self.parameters.approval_threshold,
            self.parameters.quorum,
            real_value_multiplier,
            now,
        ) {
            Ok(status) => status,
            Err(e) => {
                return Err(e);
            },
        };
        proof {
            lemma_finish_voting_keeps_wf(old(self)@, proposal_id, real_value_multiplier@, now@);
        }
        if status == ProposalStatus::Rejected {
            let fee = self.release_fee(i, status);
            Ok(Some(fee))
        } else {
            self.set_stage(i, status);
            Ok(None)
        }
    }

    /// Claims the fee of an executed proposal for the holder of its receipt,
    /// and finishes the proposal. Returns the fee released from escrow.
    pub fn retrieve_fee(&mut self, proposal_receipt: Credential) -> (r: Result<
        Decimal,
        GovernanceError,
    >)
        requires
            old(self)@.wf(),
        ensures
            final(self)@.wf(),
            retrieve_fee_spec(old(self)@, proposal_receipt) == match r {
                Ok(fee) => Ok((final(self)@, fee@)),
                Err(e) => Err(e),
            },
            r is Err ==> final(self)@ == old(self)@,
    {
        if !proposal_receipt.resource_address.same(&self.proposal_receipt_address)
            || proposal_receipt.local_id >= self.proposals.len() as u64 {
            return Err(GovernanceError::AuthorizationFailure);
        }
        let i = proposal_receipt.local_id as usize;
        if self.receipts[i].status != ProposalStatus::Executed {
            return Err(GovernanceError::PhaseViolation);
        }
        proof {
            lemma_retrieve_fee_keeps_wf(old(self)@, proposal_receipt);
        }
        let fee = self.release_fee(i, ProposalStatus::Finished);
        Ok(fee)
    }

    /// Puts a proposal to the vote, which then ends one proposal duration
    /// after `now`. A proposal whose time limit for submission has passed is
    /// rejected instead: the result is then the fee released from escrow to
    /// the treasury, and `None` otherwise.
    pub fn submit_proposal(&mut self, proposal_receipt: Credential, now: Instant) -> (r: Result<
        Option<Decimal>,
        GovernanceError,
    >)
        requires
            old(self)@.wf(),
        ensures
            final(self)@.wf(),
            submit_proposal_spec(old(self)@, proposal_receipt, now@) == match r {
                Ok(released) => Ok((final(self)@, attos_of(released))),
                Err(e) => Err(e),
            },
            r is Err ==> final(self)@ == old(self)@,
    {
        if !proposal_receipt.resource_address.same(&self.proposal_receipt_address)
            || proposal_receipt.local_id >= self.proposals.len() as u64 {
            return Err(GovernanceError::AuthorizationFailure);
        }
        let i = proposal_receipt.local_id as usize;
        if self.receipts[i].status != ProposalStatus::Building {
            return Err(GovernanceError::PhaseViolation);
        }
        proof {
            lemma_submit_proposal_keeps_wf(old(self)@, proposal_receipt, now@);
        }
        if now.is_after(self.proposals[i].deadline) {
            let fee = self.release_fee(i, ProposalStatus::Rejected);
            return Ok(Some(fee));
        }
        let deadline = match now.add_minutes(self.parameters.proposal_duration) {
            Some(deadline) => deadline,
            None => {
                return Err(GovernanceError::Overflow);
            },
        };
        self.proposals[i].status = ProposalStatus::Ongoing;
        self.proposals[i].deadline = deadline;
        self.receipts[i].status = ProposalStatus::Ongoing;
        proof {
            let after = submit_proposal_spec(old(self)@, proposal_receipt, now@)->Ok_0.0;
            assert(self@.proposals =~= after.proposals);
            assert(self@.receipts =~= after.receipts);
        }
        Ok(None)
    }

    /// Creates a proposal with a first step, against a payment in the
    /// governance token that covers the fee. Exactly the fee goes into escrow.
    /// Returns the rest of the payment and the receipt of the new proposal.
    pub fn create_proposal(
        &mut self,
        title: String,
        description: String,
        files: Option<Vec<File>>,
        component: Address,
        badge: Address,
        method: String,
        args: Vec<u8>,
        return_bucket: bool,
        reentrancy: bool,
        payment: Payment,
        now: Instant,
    ) -> (r: Result<(Decimal, ProposalReceipt), GovernanceError>)
        requires
            old(self)@.wf(),
        ensures
            final(self)@.wf(),
            create_proposal_spec(
                old(self)@,
                title@,
                description@,
                files_view(files),
                StepView { component, badge, method: method@, args: args@, return_bucket, reentrancy },
                payment,
                now@,
            ) == match r {
                Ok((change, receipt)) => Ok((final(self)@, change@, receipt@)),
                Err(e) => Err(e),
            },
            r is Err ==> final(self)@ == old(self)@,
    {
        let fee = self.parameters.fee;
        if !payment.resource_address.same(&self.mother_token_address) || payment.amount.lt(fee) {
            return Err(GovernanceError::InsufficientPayment);
        }
        let escrow = match self.proposal_fee_vault.checked_add(fee) {
            Some(escrow) => escrow,
            None => {
                return Err(GovernanceError::Overflow);
            },
        };
        let submit_by = match now.add_minutes(self.parameters.maximum_proposal_submit_delay) {
            Some(t) => t,
            None => {
                return Err(GovernanceError::Overflow);
            },
        };
        proof {
            payment.amount.lemma_view_in_range();
            lemma_create_proposal_keeps_wf(
                old(self)@,
                title@,
                description@,
                files_view(files),
                StepView { component, badge, method: method@, args: args@, return_bucket, reentrancy },
                payment,
                now@,
            );
        }
        let change = match payment.amount.checked_sub(fee) {
            Some(change) => change,
            None => {
                proof {
                    assert(false);
                }
                payment.amount
            },
        };
        let first_step = ProposalStep { component, badge, method, args, return_bucket, reentrancy };
        let mut steps: Vec<ProposalStep> = Vec::new();
        steps.push(first_step);
        let proposal = Proposal {
            title,
            description,
            files,
            steps,
            votes_for: Decimal::zero(),
            votes_against: Decimal::zero(),
            votes: HashMap::new(),
            deadline: submit_by,
            has_failed_in_last_day: None,
            next_index: 0,
            status: ProposalStatus::Building,
            reentrancy: false,
        };
        let receipt = ProposalReceipt {
            fee_paid: fee,
            proposal_id: self.proposals.len() as u64,
            status: ProposalStatus::Building,
        };
        proof {
            assert(proposal@.steps =~= seq![first_step@]);
            assert(proposal@.votes =~= Map::<u64, int>::empty());
        }
        self.proposal_fee_vault = escrow;
        self.proposals.push(proposal);
        self.receipts.push(receipt);
        proof {
            assert(self@.proposals =~= old(self)@.proposals.push(proposal@));
            assert(self@.receipts =~= old(self)@.receipts.push(receipt@));
        }
        Ok((change, receipt))
    }

    /// Adds a step to a proposal that is still being built.
    pub fn add_proposal_step(
        &mut self,
        proposal_receipt: Credential,
        component: Address,
        badge: Address,
        method: String,
        args: Vec<u8>,
        return_bucket: bool,
        reentrancy: bool,
    ) -> (r: Result<(), GovernanceError>)
        requires
            old(self)@.wf(),
        ensures
            final(self)@.wf(),
            add_proposal_step_spec(
                old(self)@,
                proposal_receipt,
                StepView { component, badge, method: method@, args: args@, return_bucket, reentrancy },
            ) == match r {
                Ok(()) => Ok(final(self)@),
                Err(e) => Err(e),
            },
            r is Err ==> final(self)@ == old(self)@,
    {
        if !proposal_receipt.resource_address.same(&self.proposal_receipt_address)
            || proposal_receipt.local_id >= self.proposals.len() as u64 {
            return Err(GovernanceError::AuthorizationFailure);
        }
        let i = proposal_receipt.local_id as usize;
        if self.receipts[i].status != ProposalStatus::Building {
            return Err(GovernanceError::PhaseViolation);
        }
        let step = ProposalStep { component, badge, method, args, return_bucket, reentrancy };
        proof {
            lemma_add_proposal_step_keeps_wf(old(self)@, proposal_receipt, step@);
        }
        let proposal = &mut self.proposals[i];
        proposal.steps.push(step);
        proof {
            let after = add_proposal_step_spec(old(self)@, proposal_receipt, step@)->Ok_0;
            assert(self.proposals@[i as int]@.steps =~= old(self)@.proposals[i as int].steps.push(
                step@,
            ));
            assert(self@.proposals =~= after.proposals);
            assert(self@.receipts =~= after.receipts);
        }
        Ok(())
    }

    /// Brings the deadline of a proposal in ordinary voting forward to
    /// `new_duration` minutes after `now`.
    pub fn hurry_proposal(&mut self, proposal_id: u64, new_duration: i64, now: Instant) -> (r:
        Result<(), GovernanceError>)
        requires
            old(self)@.wf(),
        ensures
            final(self)@.wf(),
            hurry_proposal_spec(old(self)@, proposal_id, new_duration as int, now@) == match r {
                Ok(()) => Ok(final(self)@),
                Err(e) => Err(e),
            },
            r is Err ==> final(self)@ == old(self)@,
    {
        let new_deadline = match now.add_minutes(new_duration) {
            Some(t) => t,
            None => {
                return Err(GovernanceError::Overflow);
            },
        };
        if proposal_id >= self.proposals.len() as u64 {
            return Err(GovernanceError::UnknownProposal);
        }
        let i = proposal_id as usize;
        if self.proposals[i].status != ProposalStatus::Ongoing {
            return Err(GovernanceError::PhaseViolation);
        }
        if new_deadline.is_after(self.proposals[i].deadline) || new_duration <= 0 {
            return Err(GovernanceError::ParameterInvalid);
        }
        proof {
            lemma_hurry_proposal_keeps_wf(old(self)@, proposal_id, new_duration as int, now@);
        }
        self.proposals[i].deadline = new_deadline;
        proof {
            let after = hurry_proposal_spec(old(self)@, proposal_id, new_duration as int, now@)->Ok_0;
            assert(self@.proposals =~= after.proposals);
            assert(self@.receipts =~= after.receipts);
        }
        Ok(())
    }

    /// Replaces the address of the staking component and of the voting
    /// identities it issues.
    pub fn set_staking_component(&mut self, staking: Address, new_voting_id_address: Address)
        requires
            old(self)@.wf(),
        ensures
            final(self)@.wf(),
            final(self)@ == set_staking_component_spec(old(self)@, staking, new_voting_id_address),
    {
        self.staking = staking;
        self.voting_id_address = new_voting_id_address;
    }

    /// Replaces the parameters, each of which must be positive, the
    /// threshold at most one.
    pub fn set_parameters(
        &mut self,
        fee: Decimal,
        proposal_duration: i64,
        quorum: Decimal,
        approval_threshold: Decimal,
        maximum_proposal_submit_delay: i64,
    ) -> (r: Result<(), GovernanceError>)
        requires
            old(self)@.wf(),
        ensures
            final(self)@.wf(),
            set_parameters_spec(
                old(self)@,
                ParametersView {
                    fee: fee@,
                    proposal_duration: proposal_duration as int,
                    quorum: quorum@,
                    approval_threshold: approval_threshold@,
                    maximum_proposal_submit_delay: maximum_proposal_submit_delay as int,
                },
            ) == match r {
                Ok(()) => Ok(final(self)@),
                Err(e) => Err(e),
            },
            r is Err ==> final(self)@ == old(self)@,
    {
        let zero = Decimal::zero();
        if maximum_proposal_submit_delay <= 0 || proposal_duration <= 0 || !quorum.gt(zero)
            || !approval_threshold.gt(zero) || approval_threshold.gt(Decimal::one()) || !fee.gt(
            zero,
        ) {
            return Err(GovernanceError::ParameterInvalid);
        }
        proof {
            fee.lemma_view_in_range();
            quorum.lemma_view_in_range();
            approval_threshold.lemma_view_in_range();
        }
        self.parameters =
        GovernanceParameters {
            fee,
            proposal_duration,
            quorum,
            approval_threshold,
            maximum_proposal_submit_delay,
        };
        Ok(())
    }

    /// The parameters in force.
    pub fn parameters(&self) -> (r: GovernanceParameters)
        ensures
            r@ == self@.parameters,
    {
        self.parameters
    }

    /// The number of proposals created so far, which is the identifier of the
    /// next one.
    pub fn proposal_counter(&self) -> (r: u64)
        ensures
            r == self@.proposals.len(),
    {
        self.proposals.len() as u64
    }

    /// The proposal with the given identifier, if there is one.
    pub fn proposal(&self, proposal_id: u64) -> (r: Option<&Proposal>)
        ensures
            r is Some <==> self@.has_proposal(proposal_id as int),
            r matches Some(p) ==> p@ == self@.proposals[proposal_id as int],
    {
        if proposal_id >= self.proposals.len() as u64 {
            None
        } else {
            Some(&self.proposals[proposal_id as usize])
        }
    }

    /// The receipt of the proposal with the given identifier, if there is one.
    pub fn receipt(&self, proposal_id: u64) -> (r: Option<ProposalReceipt>)
        requires
            self@.wf(),
        ensures
            r is Some <==> self@.has_proposal(proposal_id as int),
            r matches Some(receipt) ==> receipt@ == self@.receipts[proposal_id as int],
    {
        if proposal_id >= self.receipts.len() as u64 {
            None
        } else {
            Some(self.receipts[proposal_id as usize])
        }
    }

    /// What the fee escrow holds.
    pub fn escrowed_fees(&self) -> (r: Decimal)
        ensures
            r@ == self@.proposal_fee_vault,
    {
        self.proposal_fee_vault
    }

    /// The address of this component.
    pub fn component_address(&self) -> (r: Address)
        ensures
            r == self@.component_address,
    {
        self.component_address
    }

    /// The address of the staking component, which is asked for voting power.
    pub fn staking(&self) -> (r: Address)
        ensures
            r == self@.staking,
    {
        self.staking
    }

    /// The address of the reentrancy proxy, to which deferred steps are handed.
    pub fn reentrancy(&self) -> (r: Address)
        ensures
            r == self@.reentrancy,
    {
        self.reentrancy
    }

    /// The address of the voting identities this component accepts.
    pub fn voting_id_address(&self) -> (r: Address)
        ensures
            r == self@.voting_id_address,
    {
        self.voting_id_address
    }

    /// The address of the governance token, in which fees are paid.
    pub fn mother_token_address(&self) -> (r: Address)
        ensures
            r == self@.mother_token_address,
    {
        self.mother_token_address
    }

    /// The address of the pool token that stands for staked governance tokens.
    pub fn mother_pool_token_address(&self) -> (r: Address)
        ensures
            r == self@.mother_pool_token_address,
    {
        self.mother_pool_token_address
    }

    /// The address of the receipts this component issues.
    pub fn proposal_receipt_address(&self) -> (r: Address)
        ensures
            r == self@.proposal_receipt_address,
    {
        self.proposal_receipt_address
    }

    /// The address of the badge that controls this component.
    pub fn controller_badge_address(&self) -> (r: Address)
        ensures
            r == self@.controller_badge_address,
    {
        self.controller_badge_address
    }
}

/// Everything the governance component holds, laid open: what a host stores
/// between operations. Not every such value is a state the component can be
/// in; [`Governance::from_state`] tells.
#[derive(Debug)]
pub struct GovernanceState {
    pub staking: Address,
    pub reentrancy: Address,
    pub mother_token_address: Address,
    pub mother_pool_token_address: Address,
    pub proposal_fee_vault: Decimal,
    pub proposal_receipt_address: Address,
    pub receipts: Vec<ProposalReceipt>,
    pub proposals: Vec<Proposal>,
    pub parameters: GovernanceParameters,
    pub voting_id_address: Address,
    pub controller_badge_address: Address,
    pub component_address: Address,
}

impl View for GovernanceState {
    type V = GovernanceView;

    open spec fn view(&self) -> GovernanceView {
        GovernanceView {
            staking: self.staking,
            reentrancy: self.reentrancy,
            mother_token_address: self.mother_token_address,
            mother_pool_token_address: self.mother_pool_token_address,
            proposal_fee_vault: self.proposal_fee_vault@,
            proposal_receipt_address: self.proposal_receipt_address,
            receipts: self.receipts@.map_values(|r: ProposalReceipt| r@),
            proposals: self.proposals@.map_values(|p: Proposal| p@),
            parameters: self.parameters@,
            voting_id_address: self.voting_id_address,
            controller_badge_address: self.controller_badge_address,
            component_address: self.component_address,
        }
    }
}

impl GovernanceParameters {
    /// Whether every parameter is positive and the threshold at most one.
    pub fn is_valid(&self) -> (r: bool)
        ensures
            r == (self@.valid() && self@.in_range()),
    {
        let zero = Decimal::zero();
        proof {
            self.fee.lemma_view_in_range();
            self.quorum.lemma_view_in_range();
            self.approval_threshold.lemma_view_in_range();
        }
        self.fee.gt(zero) && self.proposal_duration > 0 && self.quorum.gt(zero)
            && self.approval_threshold.gt(zero) && self.approval_threshold.le(Decimal::one())
            && self.maximum_proposal_submit_delay > 0
    }
}

impl Proposal {
    /// Whether this proposal is one the component can hold.
    pub fn is_well_formed(&self) -> (r: bool)
        ensures
            r == self@.wf(),
    {
        let count = self.steps.len();
        let zero = Decimal::zero();
        proof {
            self.votes_for.lemma_view_in_range();
            self.votes_against.lemma_view_in_range();
            if self.votes@.is_empty() {
                assert(votes_view(self.votes@) =~= Map::<u64, int>::empty());
            } else {
                let k = choose|k: u64| self.votes@.dom().contains(k);
                assert(votes_view(self.votes@).dom().contains(k));
            }
        }
        let cursor_fits = match self.status {
            ProposalStatus::Accepted => self.next_index < count,
            ProposalStatus::Executed => self.next_index == count,
            ProposalStatus::Finished => self.next_index == count,
            _ => self.next_index == 0,
        };
        let flags_fit = match self.status {
            ProposalStatus::Building => self.votes_for.le(zero) && self.votes_for.ge(zero)
                && self.votes_against.le(zero) && self.votes_against.ge(zero)
                && self.votes.is_empty() && self.has_failed_in_last_day.is_none(),
            ProposalStatus::Ongoing => match self.has_failed_in_last_day {
                Some(failed) => !failed,
                None => true,
            },
            ProposalStatus::VetoMode => match self.has_failed_in_last_day {
                Some(failed) => failed,
                None => false,
            },
            _ => true,
        };
        let waiting_fits = match self.status {
            ProposalStatus::Accepted => true,
            _ => !self.reentrancy,
        };
        count >= 1 && self.next_index <= count && cursor_fits && flags_fit && waiting_fits
    }
}

impl Governance {
    /// Lays the component open, for it to be stored.
    pub fn into_state(self) -> (r: GovernanceState)
        ensures
            r@ == self@,
    {
        GovernanceState {
            staking: self.staking,
            reentrancy: self.reentrancy,
            mother_token_address: self.mother_token_address,
            mother_pool_token_address: self.mother_pool_token_address,
            proposal_fee_vault: self.proposal_fee_vault,
            proposal_receipt_address: self.proposal_receipt_address,
            receipts: self.receipts,
            proposals: self.proposals,
            parameters: self.parameters,
            voting_id_address: self.voting_id_address,
            controller_badge_address: self.controller_badge_address,
            component_address: self.component_address,
        }
    }

    /// The component in the given state, if that state is well formed: the
    /// parameters are valid, every proposal has its receipt and is one the
    /// component can hold, and the escrow holds exactly the fees of the
    /// proposals that are neither rejected nor finished.
    pub fn from_state(state: GovernanceState) -> (r: Option<Governance>)
        ensures
            r is Some <==> state@.wf(),
            r matches Some(g) ==> g@ == state@,
    {
        let count = state.proposals.len();
        if !state.parameters.is_valid() || state.receipts.len() != count {
            return None;
        }
        let zero = Decimal::zero();
        let ghost receipts = state@.receipts;
        let mut total = Decimal::zero();
        let mut i: usize = 0;
        while i < count
            invariant
                0 <= i <= count,
                count == state.proposals.len(),
                count == state.receipts.len(),
                receipts == state@.receipts,
                zero@ == 0,
                total@ == bonded_total(receipts, i as int),
                forall|j: int| 0 <= j < i ==> (#[trigger] state@.proposals[j]).wf(),
                forall|j: int|
                    0 <= j < i ==> {
                        &&& (#[trigger] state@.receipts[j]).proposal_id == j
                        &&& state@.receipts[j].fee_paid > 0
                        &&& state@.receipts[j].status == state@.proposals[j].status.on_receipt()
                    },
            decreases count - i,
        {
            let receipt = state.receipts[i];
            let proposal = &state.proposals[i];
            proof {
                assert(state@.receipts[i as int] == receipt@);
                assert(state@.proposals[i as int] == proposal@);
            }
            if receipt.proposal_id != i as u64 || !receipt.fee_paid.gt(zero) || receipt.status
                != proposal.status.shown_on_receipt() || !proposal.is_well_formed() {
                return None;
            }
            if receipt.status.keeps_fee_in_escrow() {
                total = match total.checked_add(receipt.fee_paid) {
                    Some(sum) => sum,
                    None => {
                        proof {
                            if state@.wf() {
                                lemma_bonded_total_monotone(receipts, i + 1, count as int);
                            }
                        }
                        return None;
                    },
                };
            }
            i += 1;
        }
        proof {
            state.proposal_fee_vault.lemma_view_in_range();
            if total@ == state.proposal_fee_vault@ {
                assert forall|j: int| 0 <= j < state@.receipts.len() implies crate::decimal::representable(
                    (#[trigger] state@.receipts[j]).fee_paid,
                ) by {
                    state.receipts@[j].fee_paid.lemma_view_in_range();
                }
            }
        }
        if !(total.le(state.proposal_fee_vault) && total.ge(state.proposal_fee_vault)) {
            return None;
        }
        Some(
            Governance {
                staking: state.staking,
                reentrancy: state.reentrancy,
                mother_token_address: state.mother_token_address,
                mother_pool_token_address: state.mother_pool_token_address,
                proposal_fee_vault: state.proposal_fee_vault,
                proposal_receipt_address: state.proposal_receipt_address,
                receipts: state.receipts,
                proposals: state.proposals,
                parameters: state.parameters,
                voting_id_address: state.voting_id_address,
                controller_badge_address: state.controller_badge_address,
                component_address: state.component_address,
            },
        )
    }
}

} // verus!
