//! Every operation leaves a well-formed state well formed.

use crate::address::Address;
use crate::escrow::lemma_bonded_total_covers;
use crate::escrow::lemma_bonded_total_push;
use crate::escrow::lemma_bonded_total_update;
use crate::execution::complete_deferred_spec;
use crate::execution::execute_spec;
use crate::execution::lemma_direct_run;
use crate::governance::Credential;
use crate::governance::Payment;
use crate::model::FileView;
use crate::model::GovernanceView;
use crate::model::ProposalView;
use crate::model::StepView;
use crate::model::bonded_total;
use crate::status::ProposalStatus;
use crate::transitions::add_proposal_step_spec;
use crate::transitions::create_proposal_spec;
use crate::transitions::execute_proposal_step_spec;
use crate::transitions::fee_released;
use crate::transitions::finish_reentrancy_step_spec;
use crate::transitions::finish_voting_spec;
use crate::transitions::hurry_proposal_spec;
use crate::transitions::retrieve_fee_spec;
use crate::transitions::staged;
use crate::transitions::submit_proposal_spec;
use crate::transitions::vote_on_proposal_spec;
use crate::voting::vote_spec;
use vstd::prelude::*;

verus! {

/// A vote leaves a well-formed proposal well formed.
pub proof fn lemma_vote_keeps_proposal_wf(
    p: ProposalView,
    threshold: int,
    credential_accepted: bool,
    support: bool,
    voter: u64,
    power: int,
    now: int,
)
    requires
        p.wf(),
    ensures
        match vote_spec(p, threshold, credential_accepted, support, voter, power, now) {
            Ok(after) => after.wf() && after.status.on_receipt() == p.status.on_receipt(),
            Err(_) => true,
        },
{
}

/// Executing steps leaves a well-formed proposal well formed.
pub proof fn lemma_execute_keeps_proposal_wf(p: ProposalView, own: Address, budget: int)
    requires
        p.wf(),
    ensures
        match execute_spec(p, own, budget) {
            Ok((after, _)) => after.wf(),
            Err(_) => true,
        },
{
    lemma_direct_run(p.steps, own, p.next_index, budget);
}

/// Completing a deferred step leaves a well-formed proposal well formed.
pub proof fn lemma_complete_deferred_keeps_proposal_wf(p: ProposalView)
    requires
        p.wf(),
    ensures
        match complete_deferred_spec(p) {
            Ok(after) => after.wf(),
            Err(_) => true,
        },
{
}

/// Moving a proposal to another stage, with its receipt, leaves the state well
/// formed if the proposal is well formed in that stage and its fee stays in
/// escrow.
pub proof fn lemma_staged_keeps_wf(g: GovernanceView, id: int, status: ProposalStatus)
    requires
        g.wf(),
        g.has_proposal(id),
        (ProposalView { status, ..g.proposals[id] }).wf(),
        status.holds_fee() == g.proposals[id].status.holds_fee(),
    ensures
        staged(g, id, status).wf(),
{
    let after = staged(g, id, status);
    lemma_bonded_total_update(
        g.receipts,
        id,
        g.receipts[id].with_status(status.on_receipt()),
        g.receipts.len() as int,
    );
    assert forall|i: int| 0 <= i < after.proposals.len() implies (#[trigger] after.proposals[i]).wf() by {
        if i != id {
            assert(after.proposals[i] == g.proposals[i]);
        }
    }
    assert forall|i: int| 0 <= i < after.receipts.len() implies {
        &&& (#[trigger] after.receipts[i]).proposal_id == i
        &&& after.receipts[i].fee_paid > 0
        &&& crate::decimal::representable(after.receipts[i].fee_paid)
        &&& after.receipts[i].status == after.proposals[i].status.on_receipt()
    } by {
        if i != id {
            assert(after.receipts[i] == g.receipts[i]);
            assert(after.proposals[i] == g.proposals[i]);
        }
    }
}

/// Moving a proposal whose fee is in escrow to a stage in which it is not,
/// and releasing the fee, leaves the state well formed.
pub proof fn lemma_released_keeps_wf(g: GovernanceView, id: int, status: ProposalStatus)
    requires
        g.wf(),
        g.has_proposal(id),
        (ProposalView { status, ..g.proposals[id] }).wf(),
        g.proposals[id].status.holds_fee(),
        !status.holds_fee(),
    ensures
        fee_released(staged(g, id, status), id).wf(),
        0 <= g.proposal_fee_vault - g.receipts[id].fee_paid,
{
    let moved = staged(g, id, status);
    let after = fee_released(moved, id);
    lemma_bonded_total_update(
        g.receipts,
        id,
        g.receipts[id].with_status(status.on_receipt()),
        g.receipts.len() as int,
    );
    lemma_bonded_total_covers(g.receipts, id, g.receipts.len() as int);
    assert forall|i: int| 0 <= i < after.proposals.len() implies (#[trigger] after.proposals[i]).wf() by {
        if i != id {
            assert(after.proposals[i] == g.proposals[i]);
        }
    }
    assert forall|i: int| 0 <= i < after.receipts.len() implies {
        &&& (#[trigger] after.receipts[i]).proposal_id == i
        &&& after.receipts[i].fee_paid > 0
        &&& crate::decimal::representable(after.receipts[i].fee_paid)
        &&& after.receipts[i].status == after.proposals[i].status.on_receipt()
    } by {
        if i != id {
            assert(after.receipts[i] == g.receipts[i]);
            assert(after.proposals[i] == g.proposals[i]);
        }
    }
}

/// Replacing a proposal by a well-formed one in a stage that shows the same on
/// the receipt leaves the state well formed.
pub proof fn lemma_replaced_keeps_wf(g: GovernanceView, id: int, p: ProposalView)
    requires
        g.wf(),
        g.has_proposal(id),
        p.wf(),
        p.status.on_receipt() == g.proposals[id].status.on_receipt(),
    ensures
        (GovernanceView { proposals: g.proposals.update(id, p), ..g }).wf(),
{
    let after = GovernanceView { proposals: g.proposals.update(id, p), ..g };
    assert forall|i: int| 0 <= i < after.proposals.len() implies (#[trigger] after.proposals[i]).wf() by {
        if i != id {
            assert(after.proposals[i] == g.proposals[i]);
        }
    }
}

/// Creating a proposal keeps the state well formed.
pub proof fn lemma_create_proposal_keeps_wf(
    g: GovernanceView,
    title: Seq<char>,
    description: Seq<char>,
    files: Option<Seq<FileView>>,
    first_step: StepView,
    payment: Payment,
    now: int,
)
    requires
        g.wf(),
        crate::time::fits_seconds(now),
    ensures
        match create_proposal_spec(g, title, description, files, first_step, payment, now) {
            Ok((after, change, receipt)) => after.wf() && 0 <= change <= payment.amount@,
            Err(_) => true,
        },
{
    match create_proposal_spec(g, title, description, files, first_step, payment, now) {
        Ok((after, change, receipt)) => {
            let n = g.receipts.len() as int;
            lemma_bonded_total_push(g.receipts, receipt, n);
            assert(after.receipts[n] == receipt);
            assert(bonded_total(after.receipts, n + 1) == bonded_total(after.receipts, n)
                + receipt.bonded());
            assert forall|i: int| 0 <= i < after.proposals.len() implies (
            #[trigger] after.proposals[i]).wf() by {
                if i < n {
                    assert(after.proposals[i] == g.proposals[i]);
                }
            }
            assert forall|i: int| 0 <= i < after.receipts.len() implies {
                &&& (#[trigger] after.receipts[i]).proposal_id == i
                &&& after.receipts[i].fee_paid > 0
                &&& crate::decimal::representable(after.receipts[i].fee_paid)
                &&& after.receipts[i].status == after.proposals[i].status.on_receipt()
            } by {
                if i < n {
                    assert(after.receipts[i] == g.receipts[i]);
                    assert(after.proposals[i] == g.proposals[i]);
                }
            }
        },
        Err(_) => {},
    }
}

/// Adding a step keeps the state well formed.
pub proof fn lemma_add_proposal_step_keeps_wf(g: GovernanceView, receipt: Credential, step: StepView)
    requires
        g.wf(),
    ensures
        match add_proposal_step_spec(g, receipt, step) {
            Ok(after) => after.wf(),
            Err(_) => true,
        },
{
    match add_proposal_step_spec(g, receipt, step) {
        Ok(after) => {
            let id = receipt.local_id as int;
            let p = ProposalView { steps: g.proposals[id].steps.push(step), ..g.proposals[id] };
            assert(g.proposals[id].wf());
            assert(g.receipts[id].status == g.proposals[id].status.on_receipt());
            assert(g.receipts.update(id, g.receipts[id]) =~= g.receipts);
            lemma_replaced_keeps_wf(g, id, p);
        },
        Err(_) => {},
    }
}

/// Submitting a proposal keeps the state well formed.
pub proof fn lemma_submit_proposal_keeps_wf(g: GovernanceView, receipt: Credential, now: int)
    requires
        g.wf(),
        crate::time::fits_seconds(now),
    ensures
        match submit_proposal_spec(g, receipt, now) {
            Ok((after, released)) => after.wf() && (released matches Some(amount) ==> 0 < amount
                <= g.proposal_fee_vault),
            Err(_) => true,
        },
{
    match submit_proposal_spec(g, receipt, now) {
        Ok((after, released)) => {
            let id = receipt.local_id as int;
            assert(g.proposals[id].wf());
            assert(g.receipts[id].status == g.proposals[id].status.on_receipt());
            if now > g.proposals[id].deadline {
                lemma_released_keeps_wf(g, id, ProposalStatus::Rejected);
            } else {
                let opened = ProposalView {
                    status: ProposalStatus::Ongoing,
                    deadline: crate::time::shifted(now, g.parameters.proposal_duration),
                    ..g.proposals[id]
                };
                let middle = staged(g, id, ProposalStatus::Ongoing);
                assert((ProposalView { status: ProposalStatus::Ongoing, ..g.proposals[id] }).wf());
                lemma_staged_keeps_wf(g, id, ProposalStatus::Ongoing);
                lemma_replaced_keeps_wf(middle, id, opened);
                assert(after.proposals =~= middle.proposals.update(id, opened));
                assert(after.receipts =~= middle.receipts);
                assert(after == GovernanceView {
                    proposals: middle.proposals.update(id, opened),
                    ..middle
                });
            }
        },
        Err(_) => {},
    }
}

/// Voting keeps the state well formed.
pub proof fn lemma_vote_on_proposal_keeps_wf(
    g: GovernanceView,
    proposal_id: u64,
    support: bool,
    voting_id: Credential,
    power: int,
    now: int,
)
    requires
        g.wf(),
    ensures
        match vote_on_proposal_spec(g, proposal_id, support, voting_id, power, now) {
            Ok(after) => after.wf(),
            Err(_) => true,
        },
{
    match vote_on_proposal_spec(g, proposal_id, support, voting_id, power, now) {
        Ok(after) => {
            let id = proposal_id as int;
            assert(g.proposals[id].wf());
            lemma_vote_keeps_proposal_wf(
                g.proposals[id],
                g.parameters.approval_threshold,
                voting_id.resource_address == g.voting_id_address,
                support,
                voting_id.local_id,
                power,
                now,
            );
            lemma_replaced_keeps_wf(g, id, after.proposals[id]);
            assert(after.proposals =~= g.proposals.update(id, after.proposals[id]));
        },
        Err(_) => {},
    }
}

/// Finishing a vote keeps the state well formed.
pub proof fn lemma_finish_voting_keeps_wf(
    g: GovernanceView,
    proposal_id: u64,
    multiplier: int,
    now: int,
)
    requires
        g.wf(),
    ensures
        match finish_voting_spec(g, proposal_id, multiplier, now) {
            Ok((after, released)) => after.wf() && (released matches Some(amount) ==> 0 < amount
                <= g.proposal_fee_vault),
            Err(_) => true,
        },
{
    match finish_voting_spec(g, proposal_id, multiplier, now) {
        Ok((after, released)) => {
            let id = proposal_id as int;
            assert(g.proposals[id].wf());
            assert(g.receipts[id].status == g.proposals[id].status.on_receipt());
            if released is Some {
                lemma_released_keeps_wf(g, id, ProposalStatus::Rejected);
            } else {
                lemma_staged_keeps_wf(g, id, ProposalStatus::Accepted);
            }
        },
        Err(_) => {},
    }
}

/// Executing steps keeps the state well formed.
pub proof fn lemma_execute_proposal_step_keeps_wf(
    g: GovernanceView,
    proposal_id: u64,
    steps_to_execute: int,
)
    requires
        g.wf(),
    ensures
        match execute_proposal_step_spec(g, proposal_id, steps_to_execute) {
            Ok((after, _)) => after.wf(),
            Err(_) => true,
        },
{
    match execute_proposal_step_spec(g, proposal_id, steps_to_execute) {
        Ok((after, _)) => {
            let id = proposal_id as int;
            let p = after.proposals[id];
            assert(g.proposals[id].wf());
            assert(g.receipts[id].status == g.proposals[id].status.on_receipt());
            lemma_execute_keeps_proposal_wf(g.proposals[id], g.component_address, steps_to_execute);
            lemma_advanced_keeps_wf(g, id, p);
        },
        Err(_) => {},
    }
}

/// Replacing an accepted proposal by a well-formed one that is accepted or
/// executed, and showing its stage on the receipt, leaves the state well formed.
pub proof fn lemma_advanced_keeps_wf(g: GovernanceView, id: int, p: ProposalView)
    requires
        g.wf(),
        g.has_proposal(id),
        p.wf(),
        g.proposals[id].status is Accepted,
        p.status is Accepted || p.status is Executed,
    ensures
        g.with_proposal(id, p, g.receipts[id].with_status(p.status.on_receipt())).wf(),
{
    let after = g.with_proposal(id, p, g.receipts[id].with_status(p.status.on_receipt()));
    lemma_bonded_total_update(
        g.receipts,
        id,
        g.receipts[id].with_status(p.status.on_receipt()),
        g.receipts.len() as int,
    );
    assert forall|i: int| 0 <= i < after.proposals.len() implies (#[trigger] after.proposals[i]).wf() by {
        if i != id {
            assert(after.proposals[i] == g.proposals[i]);
        }
    }
    assert forall|i: int| 0 <= i < after.receipts.len() implies {
        &&& (#[trigger] after.receipts[i]).proposal_id == i
        &&& after.receipts[i].fee_paid > 0
        &&& crate::decimal::representable(after.receipts[i].fee_paid)
        &&& after.receipts[i].status == after.proposals[i].status.on_receipt()
    } by {
        if i != id {
            assert(after.receipts[i] == g.receipts[i]);
            assert(after.proposals[i] == g.proposals[i]);
        }
    }
}

/// Completing a deferred step keeps the state well formed.
pub proof fn lemma_finish_reentrancy_step_keeps_wf(g: GovernanceView, proposal_id: u64)
    requires
        g.wf(),
    ensures
        match finish_reentrancy_step_spec(g, proposal_id) {
            Ok(after) => after.wf(),
            Err(_) => true,
        },
{
    match finish_reentrancy_step_spec(g, proposal_id) {
        Ok(after) => {
            let id = proposal_id as int;
            assert(g.proposals[id].wf());
            lemma_complete_deferred_keeps_proposal_wf(g.proposals[id]);
            lemma_advanced_keeps_wf(g, id, after.proposals[id]);
        },
        Err(_) => {},
    }
}

/// Retrieving a fee keeps the state well formed.
pub proof fn lemma_retrieve_fee_keeps_wf(g: GovernanceView, receipt: Credential)
    requires
        g.wf(),
    ensures
        match retrieve_fee_spec(g, receipt) {
            Ok((after, amount)) => after.wf() && 0 < amount <= g.proposal_fee_vault,
            Err(_) => true,
        },
{
    match retrieve_fee_spec(g, receipt) {
        Ok((after, amount)) => {
            let id = receipt.local_id as int;
            assert(g.proposals[id].wf());
            assert(g.receipts[id].status == g.proposals[id].status.on_receipt());
            lemma_released_keeps_wf(g, id, ProposalStatus::Finished);
        },
        Err(_) => {},
    }
}

/// Hurrying a proposal keeps the state well formed.
pub proof fn lemma_hurry_proposal_keeps_wf(
    g: GovernanceView,
    proposal_id: u64,
    new_duration: int,
    now: int,
)
    requires
        g.wf(),
    ensures
        match hurry_proposal_spec(g, proposal_id, new_duration, now) {
            Ok(after) => after.wf(),
            Err(_) => true,
        },
{
    match hurry_proposal_spec(g, proposal_id, new_duration, now) {
        Ok(after) => {
            let id = proposal_id as int;
            assert(g.proposals[id].wf());
            lemma_replaced_keeps_wf(g, id, after.proposals[id]);
            assert(after.proposals =~= g.proposals.update(id, after.proposals[id]));
        },
        Err(_) => {},
    }
}

} // verus!
