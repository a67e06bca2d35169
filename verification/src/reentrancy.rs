//! The reentrancy proxy.
//!
//! A component cannot be called while it is already on the call stack. A
//! proposal step that calls back into the governance component is therefore
//! parked here, and executed later from a call stack of its own. The proxy
//! holds at most one such step for each proposal.
//!
//! The proxy keeps its parked calls in a list, which can be taken out of it
//! and put back, so that a host can store it between two calls. What the list
//! means is the map [`parked`]: of two entries for one proposal the later one
//! counts.

use crate::address::Address;
use vstd::prelude::*;

verus! {

/// A deferred call: the encoded arguments, the component to call and the
/// method to call on it.
#[derive(Debug)]
pub struct ReentrancyStep {
    pub args: Vec<u8>,
    pub component: Address,
    pub method: String,
}

/// View of a deferred call.
pub struct ReentrancyStepView {
    pub args: Seq<u8>,
    pub component: Address,
    pub method: Seq<char>,
}

impl View for ReentrancyStep {
    type V = ReentrancyStepView;

    open spec fn view(&self) -> ReentrancyStepView {
        ReentrancyStepView { args: self.args@, component: self.component, method: self.method@ }
    }
}

/// A deferred call together with the proposal it belongs to.
#[derive(Debug)]
pub struct ParkedStep {
    pub proposal_id: u64,
    pub step: ReentrancyStep,
}

/// The call parked for each proposal by a list of parked calls: that of the
/// last entry for the proposal.
pub open spec fn parked(steps: Seq<ParkedStep>) -> Map<u64, ReentrancyStepView>
    decreases steps.len(),
{
    if steps.len() == 0 {
        Map::empty()
    } else {
        parked(steps.drop_last()).insert(steps.last().proposal_id, steps.last().step@)
    }
}

/// Whether no entry of the list from index `from` on belongs to the proposal.
pub open spec fn absent_from(steps: Seq<ParkedStep>, from: int, proposal_id: u64) -> bool {
    forall|j: int| from <= j < steps.len() ==> (#[trigger] steps[j]).proposal_id != proposal_id
}

/// A list without an entry for a proposal parks no call for it.
pub proof fn lemma_absent_is_not_parked(steps: Seq<ParkedStep>, proposal_id: u64)
    requires
        absent_from(steps, 0, proposal_id),
    ensures
        !parked(steps).contains_key(proposal_id),
    decreases steps.len(),
{
    if steps.len() > 0 {
        assert(steps.last() == steps[steps.len() - 1]);
        assert forall|j: int| 0 <= j < steps.drop_last().len() implies (
        #[trigger] steps.drop_last()[j]).proposal_id != proposal_id by {
            assert(steps.drop_last()[j] == steps[j]);
        }
        lemma_absent_is_not_parked(steps.drop_last(), proposal_id);
    }
}

/// The call parked for a proposal is that of its last entry in the list.
pub proof fn lemma_last_entry_is_parked(steps: Seq<ParkedStep>, i: int)
    requires
        0 <= i < steps.len(),
        absent_from(steps, i + 1, steps[i].proposal_id),
    ensures
        parked(steps).contains_key(steps[i].proposal_id),
        parked(steps)[steps[i].proposal_id] == steps[i].step@,
    decreases steps.len(),
{
    if i < steps.len() - 1 {
        let front = steps.drop_last();
        assert(steps.last() == steps[steps.len() - 1]);
        assert(front[i] == steps[i]);
        assert forall|j: int| i + 1 <= j < front.len() implies (#[trigger] front[j]).proposal_id
            != front[i].proposal_id by {
            assert(front[j] == steps[j]);
        }
        lemma_last_entry_is_parked(front, i);
    }
}

/// Taking one entry out of the list changes at most what is parked for the
/// proposal of that entry.
pub proof fn lemma_entry_removed(steps: Seq<ParkedStep>, i: int)
    requires
        0 <= i < steps.len(),
    ensures
        parked(steps.remove(i)).remove(steps[i].proposal_id) == parked(steps).remove(
            steps[i].proposal_id,
        ),
    decreases steps.len(),
{
    let id = steps[i].proposal_id;
    let front = steps.drop_last();
    if i == steps.len() - 1 {
        assert(steps.remove(i) =~= front);
        assert(parked(front).remove(id) =~= parked(steps).remove(id));
    } else {
        assert(steps.remove(i).drop_last() =~= front.remove(i));
        assert(steps.remove(i).last() == steps.last());
        assert(front[i] == steps[i]);
        lemma_entry_removed(front, i);
        assert(parked(steps.remove(i)).remove(id) =~= parked(front.remove(i)).remove(id).insert(
            steps.last().proposal_id,
            steps.last().step@,
        ).remove(id));
        assert(parked(steps).remove(id) =~= parked(front).remove(id).insert(
            steps.last().proposal_id,
            steps.last().step@,
        ).remove(id));
    }
}

/// The deferred calls, by proposal.
pub struct ReentrancyProxy {
    steps: Vec<ParkedStep>,
}

impl View for ReentrancyProxy {
    type V = Map<u64, ReentrancyStepView>;

    closed spec fn view(&self) -> Map<u64, ReentrancyStepView> {
        parked(self.steps@)
    }
}

impl ReentrancyProxy {
    /// A proxy that holds no deferred call.
    pub fn new() -> (r: ReentrancyProxy)
        ensures
            r@ == Map::<u64, ReentrancyStepView>::empty(),
    {
        ReentrancyProxy { steps: Vec::new() }
    }

    /// The proxy that holds the calls of a list of parked calls.
    pub fn from_steps(steps: Vec<ParkedStep>) -> (r: ReentrancyProxy)
        ensures
            r@ == parked(steps@),
    {
        ReentrancyProxy { steps }
    }

    /// The parked calls as a list, from which `from_steps` builds this proxy
    /// again.
    pub fn into_steps(self) -> (r: Vec<ParkedStep>)
        ensures
            parked(r@) == self@,
    {
        self.steps
    }

    /// Takes every entry for a proposal out of the list, and returns the call
    /// that was parked for it.
    fn take(&mut self, proposal_id: u64) -> (r: Option<ReentrancyStep>)
        ensures
            r is Some <==> old(self)@.contains_key(proposal_id),
            r matches Some(step) ==> step@ == old(self)@[proposal_id],
            final(self)@ == old(self)@.remove(proposal_id),
            absent_from(final(self).steps@, 0, proposal_id),
    {
        let mut found: Option<ReentrancyStep> = None;
        let mut i: usize = self.steps.len();
        while i > 0
            invariant
                i <= self.steps.len(),
                absent_from(self.steps@, i as int, proposal_id),
                self@.remove(proposal_id) == old(self)@.remove(proposal_id),
                match found {
                    Some(step) => old(self)@.contains_key(proposal_id) && step@ == old(
                        self,
                    )@[proposal_id],
                    None => self@ == old(self)@,
                },
            decreases i,
        {
            i -= 1;
            if self.steps[i].proposal_id == proposal_id {
                let ghost before = self.steps@;
                proof {
                    lemma_last_entry_is_parked(before, i as int);
                    lemma_entry_removed(before, i as int);
                }
                let entry = self.steps.remove(i);
                if found.is_none() {
                    found = Some(entry.step);
                }
            }
        }
        proof {
            lemma_absent_is_not_parked(self.steps@, proposal_id);
            assert(self@.remove(proposal_id) =~= self@);
        }
        found
    }

    /// Parks a call for a proposal, in place of any call parked for it before.
    pub fn send_step(&mut self, proposal_id: u64, component: Address, method: String, args: Vec<u8>)
        ensures
            final(self)@ == old(self)@.insert(
                proposal_id,
                ReentrancyStepView { args: args@, component, method: method@ },
            ),
    {
        let _ = self.take(proposal_id);
        let ghost kept = self.steps@;
        let entry = ParkedStep { proposal_id, step: ReentrancyStep { args, component, method } };
        self.steps.push(entry);
        proof {
            assert(self.steps@.drop_last() =~= kept);
            assert(self@ =~= old(self)@.insert(proposal_id, entry.step@));
        }
    }

    /// Takes the call parked for a proposal out of the proxy, for it to be
    /// dispatched and then reported to the governance component as done.
    /// `None`, and no change, where no call is parked for the proposal.
    pub fn call(&mut self, proposal_id: u64) -> (r: Option<ReentrancyStep>)
        ensures
            r is Some <==> old(self)@.contains_key(proposal_id),
            r matches Some(step) ==> step@ == old(self)@[proposal_id],
            final(self)@ == old(self)@.remove(proposal_id),
    {
        self.take(proposal_id)
    }

    /// Whether a call is parked for a proposal.
    pub fn has_step(&self, proposal_id: u64) -> (r: bool)
        ensures
            r == self@.contains_key(proposal_id),
    {
        let mut i: usize = self.steps.len();
        while i > 0
            invariant
                i <= self.steps.len(),
                absent_from(self.steps@, i as int, proposal_id),
            decreases i,
        {
            i -= 1;
            if self.steps[i].proposal_id == proposal_id {
                proof {
                    lemma_last_entry_is_parked(self.steps@, i as int);
                }
                return true;
            }
        }
        proof {
            lemma_absent_is_not_parked(self.steps@, proposal_id);
        }
        false
    }
}

} // verus!
