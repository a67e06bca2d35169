use dao::address::Address;
use dao::reentrancy::ParkedStep;
use dao::reentrancy::ReentrancyProxy;
use dao::reentrancy::ReentrancyStep;

fn entry(proposal_id: u64, tag: u8, method: &str) -> ParkedStep {
    ParkedStep {
        proposal_id,
        step: ReentrancyStep {
            args: vec![tag],
            component: Address::new([tag; 30]),
            method: method.to_string(),
        },
    }
}

#[test]
fn the_parked_steps_can_be_taken_out_and_put_back() {
    let mut proxy = ReentrancyProxy::new();
    proxy.send_step(5, Address::new([1; 30]), "first".to_string(), vec![1]);
    proxy.send_step(2, Address::new([2; 30]), "second".to_string(), vec![2]);
    proxy.send_step(5, Address::new([3; 30]), "third".to_string(), vec![3]);
    let steps = proxy.into_steps();
    assert_eq!(steps.len(), 2);
    assert_eq!(steps[0].proposal_id, 2);
    assert_eq!(steps[0].step.method, "second");
    assert_eq!(steps[1].proposal_id, 5);
    assert_eq!(steps[1].step.method, "third");
    assert_eq!(steps[1].step.component, Address::new([3; 30]));
    assert_eq!(steps[1].step.args, vec![3]);
    let mut again = ReentrancyProxy::from_steps(steps);
    assert!(again.has_step(2));
    assert!(again.has_step(5));
    assert!(!again.has_step(3));
    assert_eq!(again.call(5).unwrap().method, "third");
    assert!(!again.has_step(5));
    assert_eq!(again.into_steps().len(), 1);
}

#[test]
fn of_two_entries_for_one_proposal_the_later_counts() {
    let mut proxy = ReentrancyProxy::from_steps(vec![
        entry(7, 1, "early"),
        entry(8, 2, "other"),
        entry(7, 3, "late"),
    ]);
    assert!(proxy.has_step(7));
    let step = proxy.call(7).unwrap();
    assert_eq!(step.method, "late");
    assert_eq!(step.args, vec![3]);
    assert!(!proxy.has_step(7));
    assert!(proxy.call(7).is_none());
    let left = proxy.into_steps();
    assert_eq!(left.len(), 1);
    assert_eq!(left[0].proposal_id, 8);
    assert!(ReentrancyProxy::from_steps(Vec::new()).into_steps().is_empty());
}

#[test]
fn a_parked_step_is_handed_out_once() {
    let mut proxy = ReentrancyProxy::new();
    assert!(!proxy.has_step(3));
    assert!(proxy.call(3).is_none());
    proxy.send_step(3, Address::new([9; 30]), "set_parameters".to_string(), vec![1, 2]);
    assert!(proxy.has_step(3));
    assert!(!proxy.has_step(4));
    let step = proxy.call(3).unwrap();
    assert_eq!(step.component, Address::new([9; 30]));
    assert_eq!(step.method, "set_parameters");
    assert_eq!(step.args, vec![1, 2]);
    assert!(!proxy.has_step(3));
    assert!(proxy.call(3).is_none());
}

#[test]
fn a_later_step_replaces_the_one_parked_for_the_same_proposal() {
    let mut proxy = ReentrancyProxy::new();
    proxy.send_step(0, Address::new([1; 30]), "first".to_string(), vec![]);
    proxy.send_step(1, Address::new([2; 30]), "other".to_string(), vec![5]);
    proxy.send_step(0, Address::new([3; 30]), "second".to_string(), vec![7]);
    let step = proxy.call(0).unwrap();
    assert_eq!(step.method, "second");
    assert_eq!(step.component, Address::new([3; 30]));
    assert_eq!(step.args, vec![7]);
    assert_eq!(proxy.call(1).unwrap().method, "other");
}

#[test]
fn addresses_are_the_same_when_every_byte_is() {
    let a = Address::new([4; 30]);
    let mut bytes = [4u8; 30];
    let b = Address::new(bytes);
    assert!(a.same(&b));
    bytes[29] = 5;
    let c = Address::new(bytes);
    assert!(!a.same(&c));
    bytes[29] = 4;
    bytes[0] = 0;
    assert!(!a.same(&Address::new(bytes)));
    assert_ne!(a, c);
}
