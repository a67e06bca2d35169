//! What no operation ever undoes.
//!
//! A state `later` continues a state `earlier` if every proposal of `earlier`
//! is still there, at the same place, with the same description and the same
//! fee on its receipt; if its stage is one that can follow the earlier stage;
//! if its cursor has not moved back; if no step and no vote has been removed
//! or changed; and if no step has been added since it left the building stage.
//! Every operation leads to a state that continues the state it started from,
//! and so does every sequence of operations.

use crate::address::Address;
use crate::execution::lemma_direct_run;
use crate::governance::Credential;
use crate::governance::Payment;
use crate::model::FileView;
use crate::model::GovernanceView;
use crate::model::ParametersView;
use crate::model::ProposalView;
use crate::model::ReceiptView;
use crate::model::StepView;
use crate::transitions::add_proposal_step_spec;
use crate::transitions::create_proposal_spec;
use crate::transitions::execute_proposal_step_spec;
use crate::transitions::finish_reentrancy_step_spec;
use crate::transitions::finish_voting_spec;
use crate::transitions::hurry_proposal_spec;
use crate::transitions::retrieve_fee_spec;
use crate::transitions::set_parameters_spec;
use crate::transitions::set_staking_component_spec;
use crate::transitions::submit_proposal_spec;
use crate::transitions::vote_on_proposal_spec;
use vstd::prelude::*;

verus! {

/// Whether proposal `q` is a later state of proposal `p`.
pub open spec fn proposal_continues(p: ProposalView, q: ProposalView) -> bool {
    &&& q.title == p.title
    &&& q.description == p.description
    &&& q.files == p.files
    &&& p.status.can_reach(q.status)
    &&& p.next_index <= q.next_index
    &&& p.steps.len() <= q.steps.len()
    &&& q.steps.subrange(0, p.steps.len() as int) == p.steps
    &&& (!(p.status is Building) ==> q.steps == p.steps)
    &&& p.votes.submap_of(q.votes)
}

/// Whether receipt `s` is a later state of receipt `r`.
pub open spec fn receipt_continues(r: ReceiptView, s: ReceiptView) -> bool {
    s.fee_paid == r.fee_paid && s.proposal_id == r.proposal_id
}

/// Whether state `later` continues state `earlier`.
pub open spec fn continues(earlier: GovernanceView, later: GovernanceView) -> bool {
    &&& earlier.proposals.len() <= later.proposals.len()
    &&& earlier.receipts.len() <= later.receipts.len()
    &&& forall|i: int|
        0 <= i < earlier.proposals.len() ==> proposal_continues(
            #[trigger] earlier.proposals[i],
            later.proposals[i],
        )
    &&& forall|i: int|
        0 <= i < earlier.receipts.len() ==> receipt_continues(
            #[trigger] earlier.receipts[i],
            later.receipts[i],
        )
}

/// Every proposal is a later state of itself.
pub proof fn lemma_proposal_continues_itself(p: ProposalView)
    ensures
        proposal_continues(p, p),
{
    assert(p.steps.subrange(0, p.steps.len() as int) =~= p.steps);
}

/// A later state of a later state is a later state.
pub proof fn lemma_proposal_continues_transitive(p: ProposalView, q: ProposalView, r: ProposalView)
    requires
        proposal_continues(p, q),
        proposal_continues(q, r),
    ensures
        proposal_continues(p, r),
{
    let n = p.steps.len() as int;
    let m = q.steps.len() as int;
    assert(r.steps.subrange(0, n) =~= p.steps) by {
        assert forall|i: int| 0 <= i < n implies r.steps.subrange(0, n)[i] == p.steps[i] by {
            assert(r.steps.subrange(0, m)[i] == q.steps[i]);
            assert(q.steps.subrange(0, n)[i] == p.steps[i]);
        }
    }
    if !(p.status is Building) {
        assert(q.steps == p.steps);
        assert(!(q.status is Building));
        assert(r.steps == p.steps);
    }
    assert(p.votes.submap_of(r.votes)) by {
        assert forall|k: u64| p.votes.dom().contains(k) implies #[trigger] r.votes.dom().contains(k)
            && p.votes[k] == r.votes[k] by {
            assert(q.votes.dom().contains(k));
        }
    }
    assert(p.status.can_reach(r.status));
}

/// Every state continues itself.
pub proof fn lemma_continues_itself(g: GovernanceView)
    ensures
        continues(g, g),
{
    assert forall|i: int| 0 <= i < g.proposals.len() implies proposal_continues(
        #[trigger] g.proposals[i],
        g.proposals[i],
    ) by {
        lemma_proposal_continues_itself(g.proposals[i]);
    }
}

/// A state that continues a state that continues a third continues the third.
pub proof fn law_continues_transitive(a: GovernanceView, b: GovernanceView, c: GovernanceView)
    requires
        continues(a, b),
        continues(b, c),
    ensures
        continues(a, c),
{
    assert forall|i: int| 0 <= i < a.proposals.len() implies proposal_continues(
        #[trigger] a.proposals[i],
        c.proposals[i],
    ) by {
        assert(proposal_continues(a.proposals[i], b.proposals[i]));
        assert(proposal_continues(b.proposals[i], c.proposals[i]));
        lemma_proposal_continues_transitive(a.proposals[i], b.proposals[i], c.proposals[i]);
    }
    assert forall|i: int| 0 <= i < a.receipts.len() implies receipt_continues(
        #[trigger] a.receipts[i],
        c.receipts[i],
    ) by {
        assert(receipt_continues(a.receipts[i], b.receipts[i]));
        assert(receipt_continues(b.receipts[i], c.receipts[i]));
    }
}

/// A state in which one proposal and its receipt have been replaced by later
/// states of themselves continues the state before.
pub proof fn lemma_replacement_continues(
    g: GovernanceView,
    after: GovernanceView,
    id: int,
)
    requires
        g.has_proposal(id),
        g.receipts.len() == g.proposals.len(),
        after.proposals == g.proposals.update(id, after.proposals[id]),
        after.receipts == g.receipts.update(id, after.receipts[id]),
        proposal_continues(g.proposals[id], after.proposals[id]),
        receipt_continues(g.receipts[id], after.receipts[id]),
    ensures
        continues(g, after),
{
    assert forall|i: int| 0 <= i < g.proposals.len() implies proposal_continues(
        #[trigger] g.proposals[i],
        after.proposals[i],
    ) by {
        if i != id {
            lemma_proposal_continues_itself(g.proposals[i]);
        }
    }
}

/// Creating a proposal leads to a state that continues the state before.
pub proof fn law_create_proposal_continues(
    g: GovernanceView,
    title: Seq<char>,
    description: Seq<char>,
    files: Option<Seq<FileView>>,
    first_step: StepView,
    payment: Payment,
    now: int,
)
    ensures
        match create_proposal_spec(g, title, description, files, first_step, payment, now) {
            Ok((after, _, _)) => continues(g, after),
            Err(_) => true,
        },
{
    match create_proposal_spec(g, title, description, files, first_step, payment, now) {
        Ok((after, _, _)) => {
            assert forall|i: int| 0 <= i < g.proposals.len() implies proposal_continues(
                #[trigger] g.proposals[i],
                after.proposals[i],
            ) by {
                lemma_proposal_continues_itself(g.proposals[i]);
            }
        },
        Err(_) => {},
    }
}

/// Adding a step leads to a state that continues the state before.
pub proof fn law_add_proposal_step_continues(g: GovernanceView, receipt: Credential, step: StepView)
    requires
        g.wf(),
    ensures
        match add_proposal_step_spec(g, receipt, step) {
            Ok(after) => continues(g, after),
            Err(_) => true,
        },
{
    match add_proposal_step_spec(g, receipt, step) {
        Ok(after) => {
            let id = receipt.local_id as int;
            let p = g.proposals[id];
            assert(g.receipts[id].status == p.status.on_receipt());
            assert(after.proposals[id].steps.subrange(0, p.steps.len() as int) =~= p.steps);
            assert(after.receipts =~= g.receipts.update(id, after.receipts[id]));
            assert(after.proposals =~= g.proposals.update(id, after.proposals[id]));
            lemma_replacement_continues(g, after, id);
        },
        Err(_) => {},
    }
}

/// Submitting a proposal leads to a state that continues the state before.
pub proof fn law_submit_proposal_continues(g: GovernanceView, receipt: Credential, now: int)
    requires
        g.wf(),
    ensures
        match submit_proposal_spec(g, receipt, now) {
            Ok((after, _)) => continues(g, after),
            Err(_) => true,
        },
{
    match submit_proposal_spec(g, receipt, now) {
        Ok((after, _)) => {
            let id = receipt.local_id as int;
            let p = g.proposals[id];
            assert(g.receipts[id].status == p.status.on_receipt());
            assert(p.steps.subrange(0, p.steps.len() as int) =~= p.steps);
            assert(after.receipts =~= g.receipts.update(id, after.receipts[id]));
            assert(after.proposals =~= g.proposals.update(id, after.proposals[id]));
            lemma_replacement_continues(g, after, id);
        },
        Err(_) => {},
    }
}

/// Voting leads to a state that continues the state before.
pub proof fn law_vote_on_proposal_continues(
    g: GovernanceView,
    proposal_id: u64,
    support: bool,
    voting_id: Credential,
    power: int,
    now: int,
)
    requires
        g.wf(),
    ensures
        match vote_on_proposal_spec(g, proposal_id, support, voting_id, power, now) {
            Ok(after) => continues(g, after),
            Err(_) => true,
        },
{
    match vote_on_proposal_spec(g, proposal_id, support, voting_id, power, now) {
        Ok(after) => {
            let id = proposal_id as int;
            let p = g.proposals[id];
            assert(p.steps.subrange(0, p.steps.len() as int) =~= p.steps);
            assert(after.receipts =~= g.receipts.update(id, after.receipts[id]));
            assert(after.proposals =~= g.proposals.update(id, after.proposals[id]));
            lemma_replacement_continues(g, after, id);
        },
        Err(_) => {},
    }
}

/// Finishing a vote leads to a state that continues the state before.
pub proof fn law_finish_voting_continues(
    g: GovernanceView,
    proposal_id: u64,
    multiplier: int,
    now: int,
)
    requires
        g.wf(),
    ensures
        match finish_voting_spec(g, proposal_id, multiplier, now) {
            Ok((after, _)) => continues(g, after),
            Err(_) => true,
        },
{
    match finish_voting_spec(g, proposal_id, multiplier, now) {
        Ok((after, _)) => {
            let id = proposal_id as int;
            let p = g.proposals[id];
            assert(p.steps.subrange(0, p.steps.len() as int) =~= p.steps);
            assert(after.receipts =~= g.receipts.update(id, after.receipts[id]));
            assert(after.proposals =~= g.proposals.update(id, after.proposals[id]));
            lemma_replacement_continues(g, after, id);
        },
        Err(_) => {},
    }
}

/// Executing steps leads to a state that continues the state before.
pub proof fn law_execute_proposal_step_continues(
    g: GovernanceView,
    proposal_id: u64,
    steps_to_execute: int,
)
    requires
        g.wf(),
    ensures
        match execute_proposal_step_spec(g, proposal_id, steps_to_execute) {
            Ok((after, _)) => continues(g, after),
            Err(_) => true,
        },
{
    match execute_proposal_step_spec(g, proposal_id, steps_to_execute) {
        Ok((after, _)) => {
            let id = proposal_id as int;
            let p = g.proposals[id];
            assert(p.wf());
            lemma_direct_run(p.steps, g.component_address, p.next_index, steps_to_execute);
            assert(p.steps.subrange(0, p.steps.len() as int) =~= p.steps);
            assert(after.receipts =~= g.receipts.update(id, after.receipts[id]));
            assert(after.proposals =~= g.proposals.update(id, after.proposals[id]));
            lemma_replacement_continues(g, after, id);
        },
        Err(_) => {},
    }
}

/// Completing a deferred step leads to a state that continues the state before.
pub proof fn law_finish_reentrancy_step_continues(g: GovernanceView, proposal_id: u64)
    requires
        g.wf(),
    ensures
        match finish_reentrancy_step_spec(g, proposal_id) {
            Ok(after) => continues(g, after),
            Err(_) => true,
        },
{
    match finish_reentrancy_step_spec(g, proposal_id) {
        Ok(after) => {
            let id = proposal_id as int;
            let p = g.proposals[id];
            assert(p.wf());
            assert(p.steps.subrange(0, p.steps.len() as int) =~= p.steps);
            assert(after.receipts =~= g.receipts.update(id, after.receipts[id]));
            assert(after.proposals =~= g.proposals.update(id, after.proposals[id]));
            lemma_replacement_continues(g, after, id);
        },
        Err(_) => {},
    }
}

/// Retrieving a fee leads to a state that continues the state before.
pub proof fn law_retrieve_fee_continues(g: GovernanceView, receipt: Credential)
    requires
        g.wf(),
    ensures
        match retrieve_fee_spec(g, receipt) {
            Ok((after, _)) => continues(g, after),
            Err(_) => true,
        },
{
    match retrieve_fee_spec(g, receipt) {
        Ok((after, _)) => {
            let id = receipt.local_id as int;
            let p = g.proposals[id];
            assert(g.receipts[id].status == p.status.on_receipt());
            assert(p.steps.subrange(0, p.steps.len() as int) =~= p.steps);
            assert(after.receipts =~= g.receipts.update(id, after.receipts[id]));
            assert(after.proposals =~= g.proposals.update(id, after.proposals[id]));
            lemma_replacement_continues(g, after, id);
        },
        Err(_) => {},
    }
}

/// Hurrying a proposal leads to a state that continues the state before.
pub proof fn law_hurry_proposal_continues(
    g: GovernanceView,
    proposal_id: u64,
    new_duration: int,
    now: int,
)
    requires
        g.wf(),
    ensures
        match hurry_proposal_spec(g, proposal_id, new_duration, now) {
            Ok(after) => continues(g, after),
            Err(_) => true,
        },
{
    match hurry_proposal_spec(g, proposal_id, new_duration, now) {
        Ok(after) => {
            let id = proposal_id as int;
            let p = g.proposals[id];
            assert(p.steps.subrange(0, p.steps.len() as int) =~= p.steps);
            assert(after.receipts =~= g.receipts.update(id, after.receipts[id]));
            assert(after.proposals =~= g.proposals.update(id, after.proposals[id]));
            lemma_replacement_continues(g, after, id);
        },
        Err(_) => {},
    }
}

/// Setting the parameters or the staking component changes no proposal and
/// no receipt.
pub proof fn law_settings_continue(
    g: GovernanceView,
    parameters: ParametersView,
    staking: Address,
    voting_id_address: Address,
)
    ensures
        match set_parameters_spec(g, parameters) {
            Ok(after) => continues(g, after),
            Err(_) => true,
        },
        continues(g, set_staking_component_spec(g, staking, voting_id_address)),
{
    lemma_continues_itself(g);
    assert(continues(g, GovernanceView { parameters, ..g }));
    assert(continues(g, set_staking_component_spec(g, staking, voting_id_address)));
}

} // verus!
