//! Laying the component open and restoring it.

use dao::address::Address;
use dao::decimal::Decimal;
use dao::governance::Credential;
use dao::governance::Governance;
use dao::governance::GovernanceState;
use dao::governance::Payment;
use dao::governance::ProposalStatus;
use dao::time::Instant;

fn address(tag: u8) -> Address {
    Address::new([tag; 30])
}

fn dec(units: i64) -> Decimal {
    Decimal::from_units(units)
}

/// A state with an executed proposal, a rejected one and one being voted on.
fn busy_state() -> GovernanceState {
    let mut g = Governance::instantiate_governance(
        address(1),
        address(2),
        address(3),
        address(4),
        address(5),
        address(6),
        address(7),
        address(8),
    );
    for _ in 0..3 {
        g.create_proposal(
            "t".to_string(),
            "d".to_string(),
            None,
            address(9),
            address(3),
            "m".to_string(),
            vec![1],
            false,
            false,
            Payment { resource_address: address(6), amount: dec(10000) },
            Instant::new(0),
        )
        .unwrap();
    }
    let receipt = |id| Credential { resource_address: address(4), local_id: id };
    let voter = |id| Credential { resource_address: address(8), local_id: id };
    g.submit_proposal(receipt(0), Instant::new(0)).unwrap();
    g.submit_proposal(receipt(1), Instant::new(0)).unwrap();
    g.submit_proposal(receipt(2), Instant::new(100)).unwrap();
    g.vote_on_proposal(0, true, voter(1), dec(10000), Instant::new(1)).unwrap();
    g.vote_on_proposal(1, false, voter(1), dec(10000), Instant::new(1)).unwrap();
    g.vote_on_proposal(2, false, voter(1), dec(10000), Instant::new(230)).unwrap();
    g.finish_voting(0, Decimal::one(), Instant::new(180)).unwrap();
    g.finish_voting(1, Decimal::one(), Instant::new(180)).unwrap();
    g.execute_proposal_step(0, 1).unwrap();
    g.into_state()
}

#[test]
fn a_state_laid_open_shows_everything() {
    let state = busy_state();
    assert_eq!(state.component_address, address(1));
    assert_eq!(state.proposal_fee_vault, dec(20000));
    assert_eq!(state.proposals.len(), 3);
    assert_eq!(state.receipts.len(), 3);
    assert_eq!(state.proposals[0].status, ProposalStatus::Executed);
    assert_eq!(state.proposals[1].status, ProposalStatus::Rejected);
    assert_eq!(state.proposals[2].status, ProposalStatus::VetoMode);
    assert_eq!(state.receipts[2].status, ProposalStatus::Ongoing);
    assert_eq!(state.proposals[2].deadline, Instant::new(340));
}

#[test]
fn a_state_laid_open_can_be_restored_and_used() {
    let mut g = Governance::from_state(busy_state()).unwrap();
    assert_eq!(g.escrowed_fees(), dec(20000));
    assert_eq!(g.proposal_counter(), 3);
    let fee = g
        .retrieve_fee(Credential { resource_address: address(4), local_id: 0 })
        .unwrap();
    assert_eq!(fee, dec(10000));
    let again = g.into_state();
    assert_eq!(again.proposals[0].status, ProposalStatus::Finished);
    assert_eq!(again.proposal_fee_vault, dec(10000));
    assert!(Governance::from_state(again).is_some());
}

#[test]
fn a_state_with_a_wrong_escrow_is_not_restored() {
    let mut state = busy_state();
    state.proposal_fee_vault = dec(30000);
    assert!(Governance::from_state(state).is_none());
    let mut state = busy_state();
    state.receipts[0].fee_paid = dec(9999);
    assert!(Governance::from_state(state).is_none());
}

#[test]
fn a_state_whose_receipts_do_not_match_is_not_restored() {
    let mut state = busy_state();
    state.receipts[2].status = ProposalStatus::VetoMode;
    assert!(Governance::from_state(state).is_none());
    let mut state = busy_state();
    state.receipts[1].proposal_id = 2;
    assert!(Governance::from_state(state).is_none());
    let mut state = busy_state();
    state.receipts.pop();
    assert!(Governance::from_state(state).is_none());
    let mut state = busy_state();
    state.receipts[1].fee_paid = Decimal::zero();
    assert!(Governance::from_state(state).is_none());
}

#[test]
fn a_state_with_an_impossible_proposal_is_not_restored() {
    let mut state = busy_state();
    state.proposals[0].next_index = 0;
    assert!(Governance::from_state(state).is_none());
    let mut state = busy_state();
    state.proposals[2].has_failed_in_last_day = Some(false);
    assert!(Governance::from_state(state).is_none());
    let mut state = busy_state();
    state.proposals[1].reentrancy = true;
    assert!(Governance::from_state(state).is_none());
    let mut state = busy_state();
    state.proposals[1].steps.clear();
    assert!(Governance::from_state(state).is_none());
    let mut state = busy_state();
    state.proposals[2].status = ProposalStatus::Building;
    state.receipts[2].status = ProposalStatus::Building;
    assert!(Governance::from_state(state).is_none());
}

#[test]
fn a_state_with_invalid_parameters_is_not_restored() {
    let mut state = busy_state();
    state.parameters.quorum = Decimal::zero();
    assert!(Governance::from_state(state).is_none());
    let mut state = busy_state();
    state.parameters.approval_threshold = dec(2);
    assert!(Governance::from_state(state).is_none());
    let mut state = busy_state();
    state.parameters.proposal_duration = 0;
    assert!(Governance::from_state(state).is_none());
}

#[test]
fn well_formedness_of_a_single_proposal_is_decidable() {
    let mut state = busy_state();
    assert!(state.proposals.iter().all(|p| p.is_well_formed()));
    assert!(state.parameters.is_valid());
    state.proposals[0].next_index = 5;
    assert!(!state.proposals[0].is_well_formed());
}
