//! The rules of the governance component one at a time, on chosen values.

use dao::address::Address;
use dao::decimal::Decimal;
use dao::execution::ExecutionReport;
use dao::governance::Credential;
use dao::governance::Governance;
use dao::governance::GovernanceError;
use dao::governance::GovernanceParameters;
use dao::governance::Payment;
use dao::governance::ProposalStatus;
use dao::time::Instant;

const T0: i64 = 1_000_000;

fn address(tag: u8) -> Address {
    Address::new([tag; 30])
}

fn dec(units: i64) -> Decimal {
    Decimal::from_units(units)
}

fn half() -> Decimal {
    Decimal::from_attos(500_000_000_000_000_000)
}

fn at(seconds: i64) -> Instant {
    Instant::new(seconds)
}

fn fresh() -> Governance {
    Governance::instantiate_governance(
        address(1),
        address(2),
        address(3),
        address(4),
        address(5),
        address(6),
        address(7),
        address(8),
    )
}

fn receipt(id: u64) -> Credential {
    Credential { resource_address: address(4), local_id: id }
}

fn voter(id: u64) -> Credential {
    Credential { resource_address: address(8), local_id: id }
}

fn pay(units: i64) -> Payment {
    Payment { resource_address: address(6), amount: dec(units) }
}

/// Creates a proposal at `T0` with one plain step to component 9.
fn create(g: &mut Governance) -> u64 {
    let (_, r) = g
        .create_proposal(
            "title".to_string(),
            "description".to_string(),
            None,
            address(9),
            address(3),
            "method".to_string(),
            vec![1, 2, 3],
            false,
            false,
            pay(10000),
            at(T0),
        )
        .unwrap();
    r.proposal_id
}

fn add_step(g: &mut Governance, id: u64, component: u8, reentrancy: bool) {
    g.add_proposal_step(
        receipt(id),
        address(component),
        address(3),
        "next".to_string(),
        vec![9],
        true,
        reentrancy,
    )
    .unwrap();
}

/// A proposal put to the vote at `T0`; with the initial parameters the vote
/// ends at `T0 + 180`.
fn ongoing(g: &mut Governance) -> u64 {
    let id = create(g);
    assert_eq!(g.submit_proposal(receipt(id), at(T0)), Ok(None));
    id
}

/// A proposal with `steps` steps that has been accepted.
fn accepted(g: &mut Governance, extra_steps: &[(u8, bool)]) -> u64 {
    let id = create(g);
    for (component, reentrancy) in extra_steps {
        add_step(g, id, *component, *reentrancy);
    }
    g.submit_proposal(receipt(id), at(T0)).unwrap();
    g.vote_on_proposal(id, true, voter(1), dec(10000), at(T0 + 1)).unwrap();
    assert_eq!(g.finish_voting(id, Decimal::one(), at(T0 + 180)), Ok(None));
    id
}

#[test]
fn initial_parameters_are_the_documented_defaults() {
    let g = fresh();
    assert_eq!(
        g.parameters(),
        GovernanceParameters {
            fee: dec(10000),
            proposal_duration: 3,
            quorum: dec(10000),
            approval_threshold: half(),
            maximum_proposal_submit_delay: 7,
        }
    );
    assert_eq!(g.proposal_counter(), 0);
    assert_eq!(g.escrowed_fees(), Decimal::zero());
    assert_eq!(g.component_address(), address(1));
    assert_eq!(g.reentrancy(), address(2));
    assert_eq!(g.controller_badge_address(), address(3));
    assert_eq!(g.proposal_receipt_address(), address(4));
    assert_eq!(g.staking(), address(5));
    assert_eq!(g.mother_token_address(), address(6));
    assert_eq!(g.mother_pool_token_address(), address(7));
    assert_eq!(g.voting_id_address(), address(8));
    assert!(g.proposal(0).is_none());
    assert!(g.receipt(0).is_none());
}

#[test]
fn create_proposal_bonds_exactly_the_fee() {
    let mut g = fresh();
    let (change, r) = g
        .create_proposal(
            "t".to_string(),
            "d".to_string(),
            None,
            address(9),
            address(3),
            "m".to_string(),
            vec![7],
            true,
            false,
            pay(19999),
            at(T0),
        )
        .unwrap();
    assert_eq!(change, dec(9999));
    assert_eq!(r.fee_paid, dec(10000));
    assert_eq!(g.escrowed_fees(), dec(10000));
    assert_eq!(g.proposal_counter(), 1);
    let p = g.proposal(0).unwrap();
    assert_eq!(p.status, ProposalStatus::Building);
    assert_eq!(p.steps.len(), 1);
    assert_eq!(p.steps[0].component, address(9));
    assert_eq!(p.steps[0].badge, address(3));
    assert_eq!(p.steps[0].method, "m");
    assert_eq!(p.steps[0].args, vec![7]);
    assert!(p.steps[0].return_bucket);
    assert!(!p.steps[0].reentrancy);
    assert_eq!(p.next_index, 0);
    assert_eq!(p.votes_for, Decimal::zero());
    assert_eq!(p.votes_against, Decimal::zero());
    assert!(p.votes.is_empty());
    assert_eq!(p.has_failed_in_last_day, None);
    assert!(!p.reentrancy);
    // seven minutes to submit
    assert_eq!(p.deadline, at(T0 + 420));
    assert_eq!(g.receipt(0), Some(r));
}

#[test]
fn create_proposal_with_exact_fee_leaves_no_change() {
    let mut g = fresh();
    let (change, _) = g
        .create_proposal(
            "t".to_string(),
            "d".to_string(),
            None,
            address(9),
            address(3),
            "m".to_string(),
            vec![],
            false,
            false,
            pay(10000),
            at(T0),
        )
        .unwrap();
    assert_eq!(change, Decimal::zero());
}

#[test]
fn create_proposal_refuses_the_wrong_token() {
    let mut g = fresh();
    let r = g.create_proposal(
        "t".to_string(),
        "d".to_string(),
        None,
        address(9),
        address(3),
        "m".to_string(),
        vec![],
        false,
        false,
        Payment { resource_address: address(7), amount: dec(20000) },
        at(T0),
    );
    assert_eq!(r, Err(GovernanceError::InsufficientPayment));
    assert_eq!(g.proposal_counter(), 0);
    assert_eq!(g.escrowed_fees(), Decimal::zero());
}

#[test]
fn create_proposal_reports_a_deadline_out_of_range() {
    let mut g = fresh();
    let r = g.create_proposal(
        "t".to_string(),
        "d".to_string(),
        None,
        address(9),
        address(3),
        "m".to_string(),
        vec![],
        false,
        false,
        pay(10000),
        at(i64::MAX - 100),
    );
    assert_eq!(r, Err(GovernanceError::Overflow));
    assert_eq!(g.proposal_counter(), 0);
}

#[test]
fn proposal_identifiers_count_up_from_zero() {
    let mut g = fresh();
    assert_eq!(create(&mut g), 0);
    assert_eq!(create(&mut g), 1);
    assert_eq!(create(&mut g), 2);
    assert_eq!(g.proposal_counter(), 3);
    assert_eq!(g.escrowed_fees(), dec(30000));
    assert_eq!(g.receipt(2).unwrap().proposal_id, 2);
}

#[test]
fn add_proposal_step_appends_while_building_only() {
    let mut g = fresh();
    let id = create(&mut g);
    add_step(&mut g, id, 10, true);
    let p = g.proposal(id).unwrap();
    assert_eq!(p.steps.len(), 2);
    assert_eq!(p.steps[0].method, "method");
    assert_eq!(p.steps[1].component, address(10));
    assert_eq!(p.steps[1].method, "next");
    assert!(p.steps[1].reentrancy);
    g.submit_proposal(receipt(id), at(T0)).unwrap();
    let late = g.add_proposal_step(
        receipt(id),
        address(9),
        address(3),
        "late".to_string(),
        vec![],
        false,
        false,
    );
    assert_eq!(late, Err(GovernanceError::PhaseViolation));
    assert_eq!(g.proposal(id).unwrap().steps.len(), 2);
}

#[test]
fn receipts_of_another_resource_are_refused() {
    let mut g = fresh();
    let id = create(&mut g);
    let forged = Credential { resource_address: address(8), local_id: id };
    assert_eq!(
        g.add_proposal_step(forged, address(9), address(3), "m".to_string(), vec![], false, false),
        Err(GovernanceError::AuthorizationFailure)
    );
    assert_eq!(g.submit_proposal(forged, at(T0)), Err(GovernanceError::AuthorizationFailure));
    assert_eq!(g.retrieve_fee(forged), Err(GovernanceError::AuthorizationFailure));
    // a receipt for a proposal that does not exist
    assert_eq!(g.submit_proposal(receipt(5), at(T0)), Err(GovernanceError::AuthorizationFailure));
    assert_eq!(g.proposal(id).unwrap().status, ProposalStatus::Building);
}

#[test]
fn submit_sets_the_deadline_from_the_time_of_submission() {
    let mut g = fresh();
    let id = create(&mut g);
    // exactly at the limit is still in time
    assert_eq!(g.submit_proposal(receipt(id), at(T0 + 420)), Ok(None));
    let p = g.proposal(id).unwrap();
    assert_eq!(p.status, ProposalStatus::Ongoing);
    assert_eq!(p.deadline, at(T0 + 420 + 180));
    assert_eq!(g.receipt(id).unwrap().status, ProposalStatus::Ongoing);
    assert_eq!(g.escrowed_fees(), dec(10000));
    assert_eq!(g.submit_proposal(receipt(id), at(T0 + 421)), Err(GovernanceError::PhaseViolation));
}

#[test]
fn submit_after_the_limit_rejects_and_releases_the_fee() {
    let mut g = fresh();
    let id = create(&mut g);
    assert_eq!(g.submit_proposal(receipt(id), at(T0 + 421)), Ok(Some(dec(10000))));
    assert_eq!(g.proposal(id).unwrap().status, ProposalStatus::Rejected);
    assert_eq!(g.receipt(id).unwrap().status, ProposalStatus::Rejected);
    assert_eq!(g.escrowed_fees(), Decimal::zero());
    // rejected is final
    assert_eq!(g.submit_proposal(receipt(id), at(T0)), Err(GovernanceError::PhaseViolation));
    assert_eq!(
        g.vote_on_proposal(id, false, voter(1), dec(1), at(T0)),
        Err(GovernanceError::PhaseViolation)
    );
    assert_eq!(g.execute_proposal_step(id, 1), Err(GovernanceError::PhaseViolation));
    assert_eq!(g.retrieve_fee(receipt(id)), Err(GovernanceError::PhaseViolation));
}

#[test]
fn votes_are_tallied_and_recorded_with_their_sign() {
    let mut g = fresh();
    let id = ongoing(&mut g);
    assert_eq!(g.vote_lock_time(id, true, voter(1), at(T0 + 10)), Ok(at(T0 + 240)));
    g.vote_on_proposal(id, true, voter(1), dec(300), at(T0 + 10)).unwrap();
    g.vote_on_proposal(id, false, voter(2), dec(200), at(T0 + 20)).unwrap();
    g.vote_on_proposal(id, true, voter(3), dec(50), at(T0 + 30)).unwrap();
    let p = g.proposal(id).unwrap();
    assert_eq!(p.votes_for, dec(350));
    assert_eq!(p.votes_against, dec(200));
    assert_eq!(p.votes.get(&1), Some(&dec(300)));
    assert_eq!(p.votes.get(&2), Some(&dec(-200)));
    assert_eq!(p.votes.get(&3), Some(&dec(50)));
    assert_eq!(p.votes.len(), 3);
    assert_eq!(p.status, ProposalStatus::Ongoing);
    assert_eq!(p.deadline, at(T0 + 180));
    assert_eq!(p.has_failed_in_last_day, None);
}

#[test]
fn a_second_vote_is_a_double_vote_whatever_its_direction() {
    let mut g = fresh();
    let id = ongoing(&mut g);
    g.vote_on_proposal(id, true, voter(1), dec(300), at(T0 + 10)).unwrap();
    assert_eq!(
        g.vote_on_proposal(id, true, voter(1), dec(300), at(T0 + 11)),
        Err(GovernanceError::DoubleVote)
    );
    assert_eq!(
        g.vote_on_proposal(id, false, voter(1), dec(1), at(T0 + 12)),
        Err(GovernanceError::DoubleVote)
    );
    assert_eq!(g.vote_lock_time(id, false, voter(1), at(T0 + 12)), Err(GovernanceError::DoubleVote));
    let p = g.proposal(id).unwrap();
    assert_eq!(p.votes_for, dec(300));
    assert_eq!(p.votes_against, Decimal::zero());
}

#[test]
fn votes_need_an_accepted_voting_identity() {
    let mut g = fresh();
    let id = ongoing(&mut g);
    let stranger = Credential { resource_address: address(4), local_id: 1 };
    assert_eq!(
        g.vote_on_proposal(id, true, stranger, dec(1), at(T0 + 1)),
        Err(GovernanceError::AuthorizationFailure)
    );
    // the accepted identities follow the staking component
    g.set_staking_component(address(20), address(4));
    assert_eq!(g.staking(), address(20));
    assert_eq!(g.voting_id_address(), address(4));
    assert_eq!(g.vote_on_proposal(id, true, stranger, dec(1), at(T0 + 1)), Ok(()));
    assert_eq!(
        g.vote_on_proposal(id, true, voter(2), dec(1), at(T0 + 1)),
        Err(GovernanceError::AuthorizationFailure)
    );
}

#[test]
fn votes_on_unknown_or_unsubmitted_proposals_are_refused() {
    let mut g = fresh();
    assert_eq!(
        g.vote_on_proposal(0, true, voter(1), dec(1), at(T0)),
        Err(GovernanceError::UnknownProposal)
    );
    assert_eq!(g.vote_lock_time(0, true, voter(1), at(T0)), Err(GovernanceError::UnknownProposal));
    assert_eq!(g.finish_voting(0, Decimal::one(), at(T0)), Err(GovernanceError::UnknownProposal));
    assert_eq!(g.execute_proposal_step(0, 1), Err(GovernanceError::UnknownProposal));
    assert_eq!(g.finish_reentrancy_step(0), Err(GovernanceError::UnknownProposal));
    assert_eq!(g.hurry_proposal(0, 1, at(T0)), Err(GovernanceError::UnknownProposal));
    let id = create(&mut g);
    assert_eq!(
        g.vote_on_proposal(id, true, voter(1), dec(1), at(T0)),
        Err(GovernanceError::PhaseViolation)
    );
}

#[test]
fn the_vote_closes_at_the_deadline() {
    let mut g = fresh();
    let id = ongoing(&mut g);
    g.vote_on_proposal(id, true, voter(1), dec(10), at(T0 + 1)).unwrap();
    // one second before the deadline, in the closing minute: passing, so only marked
    assert_eq!(g.vote_on_proposal(id, true, voter(2), dec(10), at(T0 + 179)), Ok(()));
    assert_eq!(g.proposal(id).unwrap().has_failed_in_last_day, Some(false));
    assert_eq!(
        g.vote_on_proposal(id, true, voter(3), dec(10), at(T0 + 180)),
        Err(GovernanceError::WindowClosed)
    );
    assert_eq!(g.proposal(id).unwrap().votes.len(), 2);
}

#[test]
fn a_failing_proposal_enters_veto_mode_in_the_closing_minute() {
    let mut g = fresh();
    let id = ongoing(&mut g);
    g.vote_on_proposal(id, true, voter(1), dec(100), at(T0 + 10)).unwrap();
    g.vote_on_proposal(id, false, voter(2), dec(100), at(T0 + 20)).unwrap();
    // a tie is failing; the closing minute starts at T0 + 120
    assert_eq!(g.proposal(id).unwrap().status, ProposalStatus::Ongoing);
    assert_eq!(g.vote_lock_time(id, false, voter(3), at(T0 + 120)), Ok(at(T0 + 300)));
    g.vote_on_proposal(id, false, voter(3), dec(1), at(T0 + 120)).unwrap();
    let p = g.proposal(id).unwrap();
    assert_eq!(p.status, ProposalStatus::VetoMode);
    assert_eq!(p.deadline, at(T0 + 240));
    assert_eq!(p.has_failed_in_last_day, Some(true));
    assert_eq!(g.receipt(id).unwrap().status, ProposalStatus::Ongoing);
    // a vote in favour before the new closing minute is still taken
    assert_eq!(g.vote_on_proposal(id, true, voter(4), dec(1), at(T0 + 179)), Ok(()));
    // in the closing minute of veto mode it is not
    assert_eq!(
        g.vote_on_proposal(id, true, voter(5), dec(1000), at(T0 + 180)),
        Err(GovernanceError::PhaseViolation)
    );
    assert_eq!(
        g.vote_lock_time(id, true, voter(5), at(T0 + 180)),
        Err(GovernanceError::PhaseViolation)
    );
    // votes against are, and do not move the deadline again
    assert_eq!(g.vote_on_proposal(id, false, voter(5), dec(1), at(T0 + 239)), Ok(()));
    assert_eq!(g.proposal(id).unwrap().deadline, at(T0 + 240));
}

#[test]
fn a_vote_after_the_deadline_can_still_engage_the_veto() {
    let mut g = fresh();
    let id = ongoing(&mut g);
    g.vote_on_proposal(id, false, voter(1), dec(100), at(T0 + 10)).unwrap();
    // nobody voted in the closing minute; thirty seconds after the deadline the
    // stock-taking still happens, moves the deadline, and the vote counts
    assert_eq!(g.vote_on_proposal(id, false, voter(2), dec(5), at(T0 + 210)), Ok(()));
    let p = g.proposal(id).unwrap();
    assert_eq!(p.status, ProposalStatus::VetoMode);
    assert_eq!(p.deadline, at(T0 + 240));
    assert_eq!(p.votes_against, dec(105));
}

#[test]
fn a_passing_proposal_pushed_into_failing_enters_veto_mode() {
    let mut g = fresh();
    let id = ongoing(&mut g);
    g.vote_on_proposal(id, true, voter(1), dec(100), at(T0 + 10)).unwrap();
    // first vote of the closing minute finds it passing, and makes it fail
    g.vote_on_proposal(id, false, voter(2), dec(100), at(T0 + 130)).unwrap();
    let p = g.proposal(id).unwrap();
    assert_eq!(p.status, ProposalStatus::VetoMode);
    assert_eq!(p.has_failed_in_last_day, Some(true));
    assert_eq!(p.deadline, at(T0 + 240));
}

#[test]
fn a_passing_proposal_that_stays_passing_stays_in_ordinary_voting() {
    let mut g = fresh();
    let id = ongoing(&mut g);
    g.vote_on_proposal(id, true, voter(1), dec(100), at(T0 + 10)).unwrap();
    g.vote_on_proposal(id, false, voter(2), dec(99), at(T0 + 130)).unwrap();
    let p = g.proposal(id).unwrap();
    assert_eq!(p.status, ProposalStatus::Ongoing);
    assert_eq!(p.has_failed_in_last_day, Some(false));
    assert_eq!(p.deadline, at(T0 + 180));
}

#[test]
fn vote_overflow_is_reported_and_changes_nothing() {
    let mut g = fresh();
    let id = ongoing(&mut g);
    let max = Decimal { lo: u64::MAX, mid: u64::MAX, hi: 0x7fff_ffff_ffff_ffff };
    let min = Decimal { lo: 0, mid: 0, hi: 0x8000_0000_0000_0000 };
    g.vote_on_proposal(id, true, voter(1), dec(1), at(T0 + 1)).unwrap();
    assert_eq!(
        g.vote_on_proposal(id, true, voter(2), max, at(T0 + 2)),
        Err(GovernanceError::Overflow)
    );
    // the negation of the least decimal is not representable
    assert_eq!(
        g.vote_on_proposal(id, false, voter(2), min, at(T0 + 2)),
        Err(GovernanceError::Overflow)
    );
    let p = g.proposal(id).unwrap();
    assert_eq!(p.votes_for, dec(1));
    assert_eq!(p.votes.len(), 1);
}

#[test]
fn finish_voting_needs_the_deadline_and_an_open_vote() {
    let mut g = fresh();
    let id = ongoing(&mut g);
    g.vote_on_proposal(id, true, voter(1), dec(10000), at(T0 + 1)).unwrap();
    assert_eq!(
        g.finish_voting(id, Decimal::one(), at(T0 + 179)),
        Err(GovernanceError::WindowClosed)
    );
    assert_eq!(g.finish_voting(id, Decimal::one(), at(T0 + 180)), Ok(None));
    assert_eq!(g.proposal(id).unwrap().status, ProposalStatus::Accepted);
    assert_eq!(g.receipt(id).unwrap().status, ProposalStatus::Accepted);
    assert_eq!(g.escrowed_fees(), dec(10000));
    assert_eq!(
        g.finish_voting(id, Decimal::one(), at(T0 + 181)),
        Err(GovernanceError::PhaseViolation)
    );
    // a proposal still being built: the time is looked at first
    let building = create(&mut g);
    assert_eq!(
        g.finish_voting(building, Decimal::one(), at(T0 + 419)),
        Err(GovernanceError::WindowClosed)
    );
    assert_eq!(
        g.finish_voting(building, Decimal::one(), at(T0 + 420)),
        Err(GovernanceError::PhaseViolation)
    );
}

#[test]
fn a_tie_is_rejected_and_the_fee_released() {
    let mut g = fresh();
    let id = ongoing(&mut g);
    g.vote_on_proposal(id, true, voter(1), dec(10000), at(T0 + 1)).unwrap();
    g.vote_on_proposal(id, false, voter(2), dec(10000), at(T0 + 2)).unwrap();
    assert_eq!(g.finish_voting(id, Decimal::one(), at(T0 + 180)), Ok(Some(dec(10000))));
    assert_eq!(g.proposal(id).unwrap().status, ProposalStatus::Rejected);
    assert_eq!(g.receipt(id).unwrap().status, ProposalStatus::Rejected);
    assert_eq!(g.escrowed_fees(), Decimal::zero());
}

#[test]
fn one_subunit_above_the_bar_is_accepted() {
    let mut g = fresh();
    let id = ongoing(&mut g);
    let just_more = dec(10000).checked_add(Decimal::from_attos(2)).unwrap();
    g.vote_on_proposal(id, true, voter(1), just_more, at(T0 + 1)).unwrap();
    g.vote_on_proposal(id, false, voter(2), dec(10000), at(T0 + 2)).unwrap();
    assert_eq!(g.finish_voting(id, Decimal::one(), at(T0 + 180)), Ok(None));
    assert_eq!(g.proposal(id).unwrap().status, ProposalStatus::Accepted);
}

#[test]
fn unanimous_support_below_the_quorum_is_rejected() {
    let mut g = fresh();
    let id = ongoing(&mut g);
    let almost = dec(10000).checked_sub(Decimal::from_attos(1)).unwrap();
    g.vote_on_proposal(id, true, voter(1), almost, at(T0 + 1)).unwrap();
    assert_eq!(g.finish_voting(id, Decimal::one(), at(T0 + 180)), Ok(Some(dec(10000))));
    assert_eq!(g.proposal(id).unwrap().status, ProposalStatus::Rejected);
}

#[test]
fn the_quorum_is_met_in_real_terms() {
    let mut g = fresh();
    let id = ongoing(&mut g);
    g.vote_on_proposal(id, true, voter(1), dec(4000), at(T0 + 1)).unwrap();
    // 4000 pool units worth 2.5 each are 10000
    let multiplier = Decimal::from_attos(2_500_000_000_000_000_000);
    assert_eq!(g.finish_voting(id, multiplier, at(T0 + 180)), Ok(None));
    assert_eq!(g.proposal(id).unwrap().status, ProposalStatus::Accepted);
    // and with 2.499 they are not
    let mut h = fresh();
    let other = ongoing(&mut h);
    h.vote_on_proposal(other, true, voter(1), dec(4000), at(T0 + 1)).unwrap();
    let less = Decimal::from_attos(2_499_000_000_000_000_000);
    assert_eq!(h.finish_voting(other, less, at(T0 + 180)), Ok(Some(dec(10000))));
}

#[test]
fn finish_voting_reports_overflow_of_the_real_tally() {
    let mut g = fresh();
    let id = ongoing(&mut g);
    g.vote_on_proposal(id, true, voter(1), dec(10000), at(T0 + 1)).unwrap();
    let huge = Decimal { lo: u64::MAX, mid: u64::MAX, hi: 0x7fff_ffff_ffff_ffff };
    assert_eq!(g.finish_voting(id, huge, at(T0 + 180)), Err(GovernanceError::Overflow));
    assert_eq!(g.proposal(id).unwrap().status, ProposalStatus::Ongoing);
    assert_eq!(g.escrowed_fees(), dec(10000));
}

#[test]
fn finish_voting_reports_a_real_tally_of_the_least_decimal_as_overflow() {
    let mut g = fresh();
    let id = ongoing(&mut g);
    let half_of_min = Decimal { lo: 0, mid: 0, hi: 0xc000_0000_0000_0000 };
    g.vote_on_proposal(id, true, voter(1), half_of_min, at(T0 + 1)).unwrap();
    assert_eq!(g.finish_voting(id, dec(2), at(T0 + 180)), Err(GovernanceError::Overflow));
    assert_eq!(g.proposal(id).unwrap().status, ProposalStatus::Ongoing);
    assert_eq!(g.escrowed_fees(), dec(10000));
    // with a multiplier of one the tally is representable, and the vote is lost
    assert_eq!(g.finish_voting(id, dec(1), at(T0 + 180)), Ok(Some(dec(10000))));
    assert_eq!(g.proposal(id).unwrap().status, ProposalStatus::Rejected);
}

#[test]
fn a_vote_in_veto_mode_can_still_be_won() {
    let mut g = fresh();
    let id = ongoing(&mut g);
    g.vote_on_proposal(id, false, voter(1), dec(100), at(T0 + 130)).unwrap();
    assert_eq!(g.proposal(id).unwrap().status, ProposalStatus::VetoMode);
    g.vote_on_proposal(id, true, voter(2), dec(20000), at(T0 + 150)).unwrap();
    assert_eq!(g.finish_voting(id, Decimal::one(), at(T0 + 240)), Ok(None));
    assert_eq!(g.proposal(id).unwrap().status, ProposalStatus::Accepted);
}

#[test]
fn execution_walks_the_steps_in_order_and_clamps() {
    let mut g = fresh();
    let id = accepted(&mut g, &[(9, false), (9, false)]);
    assert_eq!(
        g.execute_proposal_step(id, 0),
        Ok(ExecutionReport { first: 0, dispatched: 0, deferred: false, executed: false })
    );
    assert_eq!(
        g.execute_proposal_step(id, -4),
        Ok(ExecutionReport { first: 0, dispatched: 0, deferred: false, executed: false })
    );
    assert_eq!(
        g.execute_proposal_step(id, 2),
        Ok(ExecutionReport { first: 0, dispatched: 2, deferred: false, executed: false })
    );
    assert_eq!(g.proposal(id).unwrap().next_index, 2);
    assert_eq!(g.proposal(id).unwrap().status, ProposalStatus::Accepted);
    assert_eq!(
        g.execute_proposal_step(id, i64::MAX),
        Ok(ExecutionReport { first: 2, dispatched: 1, deferred: false, executed: true })
    );
    let p = g.proposal(id).unwrap();
    assert_eq!(p.next_index, 3);
    assert_eq!(p.status, ProposalStatus::Executed);
    assert_eq!(g.receipt(id).unwrap().status, ProposalStatus::Executed);
    assert_eq!(g.execute_proposal_step(id, 1), Err(GovernanceError::PhaseViolation));
}

#[test]
fn two_single_steps_equal_one_call_for_two() {
    let mut g = fresh();
    let a = accepted(&mut g, &[(9, false)]);
    let mut h = fresh();
    let b = accepted(&mut h, &[(9, false)]);
    let first = g.execute_proposal_step(a, 1).unwrap();
    let second = g.execute_proposal_step(a, 1).unwrap();
    let both = h.execute_proposal_step(b, 2).unwrap();
    assert_eq!(first.dispatched + second.dispatched, both.dispatched);
    assert_eq!(second.first, 1);
    assert_eq!(second.executed, both.executed);
    assert_eq!(g.proposal(a).unwrap().next_index, h.proposal(b).unwrap().next_index);
    assert_eq!(g.proposal(a).unwrap().status, h.proposal(b).unwrap().status);
    assert_eq!(g.receipt(a), h.receipt(b));
}

#[test]
fn steps_to_the_component_itself_or_flagged_are_deferred() {
    let mut g = fresh();
    // steps: plain, to the governance component (address 1), plain, flagged
    let id = accepted(&mut g, &[(1, false), (9, false), (9, true)]);
    assert_eq!(
        g.execute_proposal_step(id, 10),
        Ok(ExecutionReport { first: 0, dispatched: 1, deferred: true, executed: false })
    );
    let p = g.proposal(id).unwrap();
    assert_eq!(p.next_index, 1);
    assert!(p.reentrancy);
    assert_eq!(p.status, ProposalStatus::Accepted);
    assert_eq!(g.execute_proposal_step(id, 1), Err(GovernanceError::PendingReentrancy));
    assert_eq!(g.execute_proposal_step(id, 0), Err(GovernanceError::PendingReentrancy));
    assert_eq!(g.finish_reentrancy_step(id), Ok(()));
    let p = g.proposal(id).unwrap();
    assert_eq!(p.next_index, 2);
    assert!(!p.reentrancy);
    // completing twice is refused
    assert_eq!(g.finish_reentrancy_step(id), Err(GovernanceError::PhaseViolation));
    assert_eq!(g.proposal(id).unwrap().next_index, 2);
    // the budget runs out just before the flagged step: nothing is deferred yet
    assert_eq!(
        g.execute_proposal_step(id, 1),
        Ok(ExecutionReport { first: 2, dispatched: 1, deferred: false, executed: false })
    );
    assert!(!g.proposal(id).unwrap().reentrancy);
    assert_eq!(
        g.execute_proposal_step(id, 1),
        Ok(ExecutionReport { first: 3, dispatched: 0, deferred: true, executed: false })
    );
    // the last step is deferred: its completion executes the proposal
    assert_eq!(g.finish_reentrancy_step(id), Ok(()));
    let p = g.proposal(id).unwrap();
    assert_eq!(p.next_index, 4);
    assert_eq!(p.status, ProposalStatus::Executed);
    assert_eq!(g.receipt(id).unwrap().status, ProposalStatus::Executed);
}

#[test]
fn other_operations_leave_a_waiting_step_alone() {
    let mut g = fresh();
    let id = accepted(&mut g, &[(1, false)]);
    g.execute_proposal_step(id, 5).unwrap();
    assert!(g.proposal(id).unwrap().reentrancy);
    let other = ongoing(&mut g);
    g.vote_on_proposal(other, true, voter(1), dec(10000), at(T0 + 1)).unwrap();
    g.finish_voting(other, Decimal::one(), at(T0 + 180)).unwrap();
    g.execute_proposal_step(other, 1).unwrap();
    g.retrieve_fee(receipt(other)).unwrap();
    g.set_parameters(dec(1), 1, dec(1), half(), 1).unwrap();
    assert_eq!(g.retrieve_fee(receipt(id)), Err(GovernanceError::PhaseViolation));
    let p = g.proposal(id).unwrap();
    assert!(p.reentrancy);
    assert_eq!(p.next_index, 1);
    assert_eq!(p.status, ProposalStatus::Accepted);
}

#[test]
fn the_fee_is_retrieved_once_after_execution() {
    let mut g = fresh();
    let id = accepted(&mut g, &[]);
    assert_eq!(g.retrieve_fee(receipt(id)), Err(GovernanceError::PhaseViolation));
    g.execute_proposal_step(id, 1).unwrap();
    assert_eq!(g.escrowed_fees(), dec(10000));
    assert_eq!(g.retrieve_fee(receipt(id)), Ok(dec(10000)));
    assert_eq!(g.escrowed_fees(), Decimal::zero());
    assert_eq!(g.proposal(id).unwrap().status, ProposalStatus::Finished);
    assert_eq!(g.receipt(id).unwrap().status, ProposalStatus::Finished);
    assert_eq!(g.retrieve_fee(receipt(id)), Err(GovernanceError::PhaseViolation));
}

#[test]
fn the_fee_released_is_the_fee_that_was_bonded() {
    let mut g = fresh();
    let cheap = accepted(&mut g, &[]);
    g.set_parameters(dec(25000), 3, dec(10000), half(), 7).unwrap();
    let (change, dear) = g
        .create_proposal(
            "t".to_string(),
            "d".to_string(),
            None,
            address(9),
            address(3),
            "m".to_string(),
            vec![],
            false,
            false,
            pay(30000),
            at(T0),
        )
        .unwrap();
    assert_eq!(change, dec(5000));
    assert_eq!(dear.fee_paid, dec(25000));
    assert_eq!(g.escrowed_fees(), dec(35000));
    g.execute_proposal_step(cheap, 1).unwrap();
    assert_eq!(g.retrieve_fee(receipt(cheap)), Ok(dec(10000)));
    assert_eq!(g.escrowed_fees(), dec(25000));
    assert_eq!(g.submit_proposal(receipt(dear.proposal_id), at(T0 + 421)), Ok(Some(dec(25000))));
    assert_eq!(g.escrowed_fees(), Decimal::zero());
}

#[test]
fn hurry_only_shortens_an_ongoing_vote() {
    let mut g = fresh();
    let id = ongoing(&mut g);
    assert_eq!(g.hurry_proposal(id, 4, at(T0)), Err(GovernanceError::ParameterInvalid));
    assert_eq!(g.hurry_proposal(id, 0, at(T0)), Err(GovernanceError::ParameterInvalid));
    assert_eq!(g.hurry_proposal(id, -1, at(T0)), Err(GovernanceError::ParameterInvalid));
    assert_eq!(g.hurry_proposal(id, 1, at(i64::MAX)), Err(GovernanceError::Overflow));
    assert_eq!(g.proposal(id).unwrap().deadline, at(T0 + 180));
    // the same deadline is allowed
    assert_eq!(g.hurry_proposal(id, 3, at(T0)), Ok(()));
    assert_eq!(g.hurry_proposal(id, 1, at(T0 + 30)), Ok(()));
    assert_eq!(g.proposal(id).unwrap().deadline, at(T0 + 90));
    assert_eq!(g.proposal(id).unwrap().status, ProposalStatus::Ongoing);
    let building = create(&mut g);
    assert_eq!(g.hurry_proposal(building, 1, at(T0)), Err(GovernanceError::PhaseViolation));
}

#[test]
fn parameters_must_be_positive_and_the_threshold_at_most_one() {
    let mut g = fresh();
    let before = g.parameters();
    let one = Decimal::one();
    let zero = Decimal::zero();
    let over_one = one.checked_add(Decimal::from_attos(1)).unwrap();
    assert_eq!(g.set_parameters(zero, 1, dec(1), half(), 1), Err(GovernanceError::ParameterInvalid));
    assert_eq!(
        g.set_parameters(dec(-1), 1, dec(1), half(), 1),
        Err(GovernanceError::ParameterInvalid)
    );
    assert_eq!(g.set_parameters(dec(1), 0, dec(1), half(), 1), Err(GovernanceError::ParameterInvalid));
    assert_eq!(g.set_parameters(dec(1), 1, zero, half(), 1), Err(GovernanceError::ParameterInvalid));
    assert_eq!(g.set_parameters(dec(1), 1, dec(1), zero, 1), Err(GovernanceError::ParameterInvalid));
    assert_eq!(
        g.set_parameters(dec(1), 1, dec(1), over_one, 1),
        Err(GovernanceError::ParameterInvalid)
    );
    assert_eq!(g.set_parameters(dec(1), 1, dec(1), half(), -3), Err(GovernanceError::ParameterInvalid));
    assert_eq!(g.parameters(), before);
    assert_eq!(g.set_parameters(dec(5000), 7, dec(20), one, 9), Ok(()));
    assert_eq!(
        g.parameters(),
        GovernanceParameters {
            fee: dec(5000),
            proposal_duration: 7,
            quorum: dec(20),
            approval_threshold: one,
            maximum_proposal_submit_delay: 9,
        }
    );
}

#[test]
fn with_a_threshold_of_one_nothing_passes() {
    let mut g = fresh();
    g.set_parameters(dec(10000), 3, dec(1), Decimal::one(), 7).unwrap();
    let id = ongoing(&mut g);
    g.vote_on_proposal(id, true, voter(1), dec(500), at(T0 + 1)).unwrap();
    assert_eq!(g.finish_voting(id, Decimal::one(), at(T0 + 180)), Ok(Some(dec(10000))));
}

#[test]
fn a_vote_on_day_six_of_seven_leaves_the_proposal_ongoing_and_it_is_accepted() {
    let mut g = fresh();
    let day = 24 * 60;
    g.set_parameters(dec(10000), 7 * day, dec(7000), half(), 7).unwrap();
    let id = create(&mut g);
    g.submit_proposal(receipt(id), at(T0)).unwrap();
    let day_six = T0 + 6 * day * 60;
    assert_eq!(g.vote_on_proposal(id, true, voter(1), dec(7000), at(day_six)), Ok(()));
    let p = g.proposal(id).unwrap();
    assert_eq!(p.status, ProposalStatus::Ongoing);
    assert_eq!(p.has_failed_in_last_day, None);
    assert_eq!(p.deadline, at(T0 + 7 * day * 60));
    assert_eq!(g.finish_voting(id, Decimal::one(), at(T0 + 7 * day * 60)), Ok(None));
    assert_eq!(g.proposal(id).unwrap().status, ProposalStatus::Accepted);
}

#[test]
fn the_cursor_never_moves_back() {
    let mut g = fresh();
    let id = accepted(&mut g, &[(9, false), (1, false), (9, false)]);
    let mut last = 0;
    for budget in [0, 1, -1, 3, 1, 0, 2, 5] {
        let _ = g.execute_proposal_step(id, budget);
        if g.proposal(id).unwrap().reentrancy {
            g.finish_reentrancy_step(id).unwrap();
        }
        let p = g.proposal(id).unwrap();
        assert!(p.next_index >= last);
        assert!(p.next_index <= p.steps.len());
        last = p.next_index;
    }
    assert_eq!(last, 4);
    assert_eq!(g.proposal(id).unwrap().status, ProposalStatus::Executed);
}
