//! What follows from the rules: properties of the governance component that
//! hold of every state and of every sequence of operations.

use crate::execution::ExecutionReportView;
use crate::execution::lemma_direct_run;
use crate::governance::Credential;
use crate::governance::Payment;
use crate::history::continues;
use crate::invariants::lemma_execute_proposal_step_keeps_wf;
use crate::model::FileView;
use crate::model::GovernanceView;
use crate::model::ProposalView;
use crate::model::StepView;
use crate::model::bonded_total;
use crate::status::GovernanceError;
use crate::time::shift_defined;
use crate::transitions::create_proposal_spec;
use crate::transitions::execute_proposal_step_spec;
use crate::transitions::finish_reentrancy_step_spec;
use crate::transitions::finish_voting_spec;
use crate::transitions::retrieve_fee_spec;
use crate::transitions::submit_proposal_spec;
use crate::transitions::vote_on_proposal_spec;
use crate::transitions::voting_id_accepted;
use crate::voting::approval_bar;
use crate::voting::in_closing_minute;
use crate::voting::real_tally;
use crate::voting::take_stock;
use crate::voting::vote_spec;
use vstd::prelude::*;

verus! {

/// The state after one call of the execution engine: for proposal `call.0`,
/// with at most `call.1` steps. A refused call leaves the state as it is.
pub open spec fn after_execution(g: GovernanceView, call: (u64, int)) -> GovernanceView {
    match execute_proposal_step_spec(g, call.0, call.1) {
        Ok((after, _)) => after,
        Err(_) => g,
    }
}

/// The state after a sequence of calls of the execution engine.
pub open spec fn after_executions(g: GovernanceView, calls: Seq<(u64, int)>) -> GovernanceView
    decreases calls.len(),
{
    if calls.len() == 0 {
        g
    } else {
        after_executions(after_execution(g, calls[0]), calls.drop_first())
    }
}

/// Across any sequence of calls of the execution engine, the cursor of every
/// proposal only moves forward and never passes the end of the proposal's
/// steps, which stay as they are.
pub proof fn law_cursor_is_monotonic(g: GovernanceView, calls: Seq<(u64, int)>)
    requires
        g.wf(),
    ensures
        after_executions(g, calls).wf(),
        after_executions(g, calls).proposals.len() == g.proposals.len(),
        forall|i: int|
            0 <= i < g.proposals.len() ==> {
                &&& (#[trigger] g.proposals[i]).next_index <= after_executions(
                    g,
                    calls,
                ).proposals[i].next_index
                &&& after_executions(g, calls).proposals[i].next_index <= g.proposals[i].steps.len()
                &&& after_executions(g, calls).proposals[i].steps == g.proposals[i].steps
            },
    decreases calls.len(),
{
    if calls.len() > 0 {
        let first = after_execution(g, calls[0]);
        lemma_execute_proposal_step_keeps_wf(g, calls[0].0, calls[0].1);
        law_cursor_is_monotonic(first, calls.drop_first());
        let last = after_executions(g, calls);
        assert forall|i: int| 0 <= i < g.proposals.len() implies {
            &&& (#[trigger] g.proposals[i]).next_index <= last.proposals[i].next_index
            &&& last.proposals[i].next_index <= g.proposals[i].steps.len()
            &&& last.proposals[i].steps == g.proposals[i].steps
        } by {
            assert(g.proposals[i].wf());
            assert(first.proposals[i].wf());
            assert(last.proposals[i].wf());
            if execute_proposal_step_spec(g, calls[0].0, calls[0].1) is Ok {
                let id = calls[0].0 as int;
                lemma_direct_run(
                    g.proposals[id].steps,
                    g.component_address,
                    g.proposals[id].next_index,
                    calls[0].1,
                );
                if i != id {
                    assert(first.proposals[i] == g.proposals[i]);
                }
            }
            assert(first.proposals[i].steps == g.proposals[i].steps);
            assert(first.proposals[i].next_index >= g.proposals[i].next_index);
        }
    } else {
        assert forall|i: int| 0 <= i < g.proposals.len() implies (
        #[trigger] g.proposals[i]).next_index <= g.proposals[i].steps.len() by {
            assert(g.proposals[i].wf());
        }
    }
}

/// Executing `a` steps and then `b` steps is executing `a + b` steps at once,
/// as long as the first call runs all the steps it was asked for.
pub proof fn law_execution_composes(g: GovernanceView, proposal_id: u64, a: int, b: int)
    requires
        g.wf(),
        0 <= a,
        0 <= b,
        execute_proposal_step_spec(g, proposal_id, a) is Ok,
        execute_proposal_step_spec(g, proposal_id, a)->Ok_0.1 == (ExecutionReportView {
            first: g.proposals[proposal_id as int].next_index,
            dispatched: a,
            deferred: false,
            executed: false,
        }),
    ensures
        after_execution(after_execution(g, (proposal_id, a)), (proposal_id, b)) == after_execution(
            g,
            (proposal_id, a + b),
        ),
{
    let id = proposal_id as int;
    let p = g.proposals[id];
    assert(p.wf());
    let first = after_execution(g, (proposal_id, a));
    lemma_direct_run(p.steps, g.component_address, p.next_index, a);
    lemma_direct_run(p.steps, g.component_address, p.next_index, a + b);
    lemma_direct_run(p.steps, g.component_address, p.next_index + a, b);
    crate::execution::lemma_direct_run_splits(p.steps, g.component_address, p.next_index, a, b);
    let second = after_execution(first, (proposal_id, b));
    let both = after_execution(g, (proposal_id, a + b));
    assert(first.proposals[id].status is Accepted);
    assert(second.proposals =~= both.proposals);
    assert(second.receipts =~= both.receipts);
}

/// Whoever has voted on a proposal cannot vote on it again, whichever way and
/// with whatever power: a second vote is always refused. It is refused as a
/// double vote whenever the checks that come before the voter is looked at
/// pass: the proposal is open for votes, its closing minute can be told, the
/// vote is not one in favour during the closing minute of veto mode, the
/// closing minute's stock-taking succeeds and the credential is accepted.
pub proof fn law_at_most_one_vote(
    g: GovernanceView,
    proposal_id: u64,
    first_support: bool,
    first_id: Credential,
    first_power: int,
    first_time: int,
    second_support: bool,
    second_id: Credential,
    second_power: int,
    second_time: int,
)
    requires
        g.wf(),
        vote_on_proposal_spec(g, proposal_id, first_support, first_id, first_power, first_time)
            is Ok,
        second_id.local_id == first_id.local_id,
    ensures
        ({
            let voted = vote_on_proposal_spec(
                g,
                proposal_id,
                first_support,
                first_id,
                first_power,
                first_time,
            )->Ok_0;
            let p = voted.proposals[proposal_id as int];
            let again = vote_on_proposal_spec(
                voted,
                proposal_id,
                second_support,
                second_id,
                second_power,
                second_time,
            );
            &&& again is Err
            &&& (p.status.is_votable() && shift_defined(p.deadline, -1) && !(p.status is VetoMode
                && in_closing_minute(p.deadline, second_time) && second_support) && take_stock(
                p,
                voted.parameters.approval_threshold,
                second_time,
            ) is Ok && voting_id_accepted(voted, second_id) ==> again == Err::<
                GovernanceView,
                GovernanceError,
            >(GovernanceError::DoubleVote))
        }),
{
}

/// A proposal in ordinary voting that a vote leaves in veto mode has had its
/// deadline moved out by exactly one minute, and is marked as failing. This
/// is what happens where the vote is the first of the closing minute and finds
/// the proposal failing.
pub proof fn law_veto_engages(
    p: ProposalView,
    threshold: int,
    credential_accepted: bool,
    support: bool,
    voter: u64,
    power: int,
    now: int,
)
    requires
        p.wf(),
        p.status is Ongoing,
        vote_spec(p, threshold, credential_accepted, support, voter, power, now) is Ok,
    ensures
        ({
            let q = vote_spec(p, threshold, credential_accepted, support, voter, power, now)->Ok_0;
            &&& q.status is VetoMode ==> q.deadline == p.deadline + 60 && q.has_failed_in_last_day
                == Some(true)
            &&& q.status is Ongoing ==> q.deadline == p.deadline
            &&& (in_closing_minute(p.deadline, now) && p.has_failed_in_last_day is None
                && approval_bar(threshold, p.votes_for, p.votes_against) is Some && p.votes_for
                <= approval_bar(threshold, p.votes_for, p.votes_against).unwrap())
                ==> q.status is VetoMode
        }),
{
}

/// In veto mode no vote moves the deadline, and during the closing minute
/// every vote in favour is refused.
pub proof fn law_veto_is_sticky(
    p: ProposalView,
    threshold: int,
    credential_accepted: bool,
    support: bool,
    voter: u64,
    power: int,
    now: int,
)
    requires
        p.wf(),
        p.status is VetoMode,
    ensures
        ({
            let r = vote_spec(p, threshold, credential_accepted, support, voter, power, now);
            &&& r matches Ok(q) ==> q.status is VetoMode && q.deadline == p.deadline
            &&& (support && in_closing_minute(p.deadline, now)) ==> r is Err
            &&& (support && in_closing_minute(p.deadline, now) && shift_defined(p.deadline, -1))
                ==> r == Err::<ProposalView, GovernanceError>(GovernanceError::PhaseViolation)
        }),
{
}

/// A proposal whose votes, in real terms, fall short of the quorum is
/// rejected when its vote is finished, however large the share of votes in
/// favour, and its fee leaves the escrow.
pub proof fn law_quorum_gate(g: GovernanceView, proposal_id: u64, multiplier: int, now: int)
    requires
        g.wf(),
        finish_voting_spec(g, proposal_id, multiplier, now) is Ok,
        real_tally(
            g.proposals[proposal_id as int].votes_for,
            g.proposals[proposal_id as int].votes_against,
            multiplier,
        ) is Some,
        real_tally(
            g.proposals[proposal_id as int].votes_for,
            g.proposals[proposal_id as int].votes_against,
            multiplier,
        ).unwrap().1 < g.parameters.quorum,
    ensures
        ({
            let (after, released) = finish_voting_spec(g, proposal_id, multiplier, now)->Ok_0;
            &&& after.proposals[proposal_id as int].status is Rejected
            &&& after.receipts[proposal_id as int].status is Rejected
            &&& released == Some(g.receipts[proposal_id as int].fee_paid)
        }),
{
}

/// While a deferred step of a proposal is waiting, the execution engine
/// refuses the proposal. The completion of the step, and nothing else, clears
/// the flag; it moves the cursor forward by exactly one.
pub proof fn law_reentrancy_gate(g: GovernanceView, proposal_id: u64, steps_to_execute: int)
    requires
        g.wf(),
        g.has_proposal(proposal_id as int),
        g.proposals[proposal_id as int].reentrancy,
    ensures
        execute_proposal_step_spec(g, proposal_id, steps_to_execute) == Err::<
            (GovernanceView, ExecutionReportView),
            GovernanceError,
        >(GovernanceError::PendingReentrancy),
        finish_reentrancy_step_spec(g, proposal_id) is Ok,
        !finish_reentrancy_step_spec(g, proposal_id)->Ok_0.proposals[proposal_id as int].reentrancy,
        finish_reentrancy_step_spec(g, proposal_id)->Ok_0.proposals[proposal_id as int].next_index
            == g.proposals[proposal_id as int].next_index + 1,
{
    assert(g.proposals[proposal_id as int].wf());
}

/// Whether every deferred step that is waiting in `earlier` is still waiting
/// in `later`, with the cursor where it was.
pub open spec fn pending_steps_wait(earlier: GovernanceView, later: GovernanceView) -> bool {
    &&& earlier.proposals.len() <= later.proposals.len()
    &&& forall|i: int|
        0 <= i < earlier.proposals.len() && (#[trigger] earlier.proposals[i]).reentrancy ==> {
            &&& later.proposals[i].reentrancy
            &&& later.proposals[i].next_index == earlier.proposals[i].next_index
        }
}

/// No operation on proposals other than the completion of a deferred step
/// clears the flag of a waiting step or moves the cursor of its proposal.
pub proof fn law_pending_steps_wait(
    g: GovernanceView,
    proposal_id: u64,
    receipt: Credential,
    voting_id: Credential,
    support: bool,
    power: int,
    multiplier: int,
    steps_to_execute: int,
    new_duration: int,
    step: StepView,
    now: int,
)
    requires
        g.wf(),
    ensures
        crate::transitions::add_proposal_step_spec(g, receipt, step) matches Ok(after)
            ==> pending_steps_wait(g, after),
        submit_proposal_spec(g, receipt, now) matches Ok((after, _)) ==> pending_steps_wait(
            g,
            after,
        ),
        vote_on_proposal_spec(g, proposal_id, support, voting_id, power, now) matches Ok(after)
            ==> pending_steps_wait(g, after),
        finish_voting_spec(g, proposal_id, multiplier, now) matches Ok((after, _))
            ==> pending_steps_wait(g, after),
        execute_proposal_step_spec(g, proposal_id, steps_to_execute) matches Ok((after, _))
            ==> pending_steps_wait(g, after),
        retrieve_fee_spec(g, receipt) matches Ok((after, _)) ==> pending_steps_wait(g, after),
        crate::transitions::hurry_proposal_spec(g, proposal_id, new_duration, now) matches Ok(
            after,
        ) ==> pending_steps_wait(g, after),
{
    let r = receipt.local_id as int;
    let i = proposal_id as int;
    if g.has_proposal(r) {
        assert(g.proposals[r].wf());
        assert(g.receipts[r].status == g.proposals[r].status.on_receipt());
    }
    if g.has_proposal(i) {
        assert(g.proposals[i].wf());
    }
}

/// Whether every proposal of `earlier` is, in `later`, in the same stage or in
/// one that follows it directly.
pub open spec fn stages_move_in_order(earlier: GovernanceView, later: GovernanceView) -> bool {
    &&& earlier.proposals.len() <= later.proposals.len()
    &&& forall|i: int|
        0 <= i < earlier.proposals.len() ==> (#[trigger] earlier.proposals[i]).status.may_become(
            later.proposals[i].status,
        )
}

/// One operation moves a proposal by at most one stage along its life: from
/// building to voting, from voting to veto mode or to a decision, from
/// accepted to executed, from executed to finished. No stage is skipped, and
/// nothing leaves the stages rejected and finished.
pub proof fn law_stages_move_in_order(
    g: GovernanceView,
    proposal_id: u64,
    receipt: Credential,
    voting_id: Credential,
    support: bool,
    power: int,
    multiplier: int,
    steps_to_execute: int,
    new_duration: int,
    step: StepView,
    now: int,
)
    requires
        g.wf(),
    ensures
        crate::transitions::add_proposal_step_spec(g, receipt, step) matches Ok(after)
            ==> stages_move_in_order(g, after),
        submit_proposal_spec(g, receipt, now) matches Ok((after, _)) ==> stages_move_in_order(
            g,
            after,
        ),
        vote_on_proposal_spec(g, proposal_id, support, voting_id, power, now) matches Ok(after)
            ==> stages_move_in_order(g, after),
        finish_voting_spec(g, proposal_id, multiplier, now) matches Ok((after, _))
            ==> stages_move_in_order(g, after),
        execute_proposal_step_spec(g, proposal_id, steps_to_execute) matches Ok((after, _))
            ==> stages_move_in_order(g, after),
        finish_reentrancy_step_spec(g, proposal_id) matches Ok(after) ==> stages_move_in_order(
            g,
            after,
        ),
        retrieve_fee_spec(g, receipt) matches Ok((after, _)) ==> stages_move_in_order(g, after),
        crate::transitions::hurry_proposal_spec(g, proposal_id, new_duration, now) matches Ok(
            after,
        ) ==> stages_move_in_order(g, after),
{
    let r = receipt.local_id as int;
    let i = proposal_id as int;
    if g.has_proposal(r) {
        assert(g.proposals[r].wf());
        assert(g.receipts[r].status == g.proposals[r].status.on_receipt());
    }
    if g.has_proposal(i) {
        assert(g.proposals[i].wf());
    }
}

/// Creating a proposal does not touch the proposals that are there.
pub proof fn law_creation_leaves_pending_steps(
    g: GovernanceView,
    title: Seq<char>,
    description: Seq<char>,
    files: Option<Seq<FileView>>,
    first_step: StepView,
    payment: Payment,
    now: int,
)
    ensures
        create_proposal_spec(g, title, description, files, first_step, payment, now) matches Ok(
            (after, _, _),
        ) ==> pending_steps_wait(g, after),
{
}

/// Fees are conserved. Creating a proposal splits the payment into the fee,
/// which goes into escrow and onto the receipt, and the change. What leaves
/// the escrow when a proposal is rejected, whether by vote or for want of
/// submission, and what is paid out when the fee of an executed proposal is
/// retrieved, is exactly the fee on the proposal's receipt. And at all times
/// the escrow holds exactly the fees of the proposals that are neither
/// rejected nor finished.
pub proof fn law_fee_conservation(
    g: GovernanceView,
    title: Seq<char>,
    description: Seq<char>,
    files: Option<Seq<FileView>>,
    first_step: StepView,
    payment: Payment,
    receipt: Credential,
    proposal_id: u64,
    multiplier: int,
    now: int,
)
    requires
        g.wf(),
        crate::time::fits_seconds(now),
    ensures
        g.proposal_fee_vault == bonded_total(g.receipts, g.receipts.len() as int),
        create_proposal_spec(g, title, description, files, first_step, payment, now) matches Ok(
            (after, change, minted),
        ) ==> {
            &&& after.proposal_fee_vault == g.proposal_fee_vault + g.parameters.fee
            &&& change + g.parameters.fee == payment.amount@
            &&& minted.fee_paid == g.parameters.fee
            &&& after.receipts.last() == minted
        },
        submit_proposal_spec(g, receipt, now) matches Ok((after, released)) ==> {
            &&& released matches Some(amount) ==> (amount == g.receipts[receipt.local_id as int].fee_paid
                && after.proposal_fee_vault + amount == g.proposal_fee_vault
                && after.proposals[receipt.local_id as int].status is Rejected)
            &&& released is None ==> after.proposal_fee_vault == g.proposal_fee_vault
        },
        finish_voting_spec(g, proposal_id, multiplier, now) matches Ok((after, released)) ==> {
            &&& released matches Some(amount) ==> (amount == g.receipts[proposal_id as int].fee_paid
                && after.proposal_fee_vault + amount == g.proposal_fee_vault
                && after.proposals[proposal_id as int].status is Rejected)
            &&& released is None ==> (after.proposal_fee_vault == g.proposal_fee_vault
                && after.proposals[proposal_id as int].status is Accepted)
        },
        retrieve_fee_spec(g, receipt) matches Ok((after, amount)) ==> {
            &&& amount == g.receipts[receipt.local_id as int].fee_paid
            &&& after.proposal_fee_vault + amount == g.proposal_fee_vault
            &&& g.proposals[receipt.local_id as int].status is Executed
            &&& after.proposals[receipt.local_id as int].status is Finished
        },
{
    let r = receipt.local_id as int;
    if g.has_proposal(r) {
        assert(g.proposals[r].wf());
        assert(g.receipts[r].status == g.proposals[r].status.on_receipt());
    }
}

/// The fee on a receipt never changes: whatever operations lie between the
/// creation of a proposal and the release of its fee, the amount released is
/// the amount bonded.
pub proof fn law_released_fee_is_bonded_fee(
    created: GovernanceView,
    later: GovernanceView,
    receipt: Credential,
)
    requires
        created.has_proposal(receipt.local_id as int),
        created.receipts.len() == created.proposals.len(),
        continues(created, later),
        later.wf(),
    ensures
        retrieve_fee_spec(later, receipt) matches Ok((_, amount)) ==> amount
            == created.receipts[receipt.local_id as int].fee_paid,
{
    assert(crate::history::receipt_continues(
        created.receipts[receipt.local_id as int],
        later.receipts[receipt.local_id as int],
    ));
}

} // verus!
