//! The rules of voting and of deciding a vote, over views.
//!
//! A vote is open until the proposal's deadline. The closing minute is
//! special: the first vote cast in it makes the proposal take stock. If it is
//! failing then, it enters veto mode and the deadline moves one minute out, so
//! that a late swing can be answered; from there on votes in favour are
//! refused during the closing minute. A proposal that passed that check and
//! is pushed into failing by a later vote enters veto mode in the same way.

use crate::decimal::ATTOS_PER_UNIT;
use crate::decimal::Decimal;
use crate::decimal::attos_of;
use crate::decimal::product_of;
use crate::decimal::sum_of;
use crate::governance::Proposal;
use crate::governance::votes_view;
use crate::model::ProposalView;
use crate::status::GovernanceError;
use crate::status::ProposalStatus;
use crate::time::Instant;
use crate::time::shift_defined;
use crate::time::shifted;
use vstd::prelude::*;

verus! {

/// The bar that the votes in favour must clear: the approval threshold's share
/// of all votes cast. `None` where the total is not representable or the
/// multiplication yields no share.
pub open spec fn approval_bar(threshold: int, votes_for: int, votes_against: int) -> Option<int> {
    match sum_of(votes_for, votes_against) {
        Some(total) => product_of(threshold, total),
        None => None,
    }
}

/// Whether `now` lies in the closing minute of a vote that ends at `deadline`,
/// or after it.
pub open spec fn in_closing_minute(deadline: int, now: int) -> bool {
    now >= shifted(deadline, -1)
}

/// The power as it is recorded for the voter: as given for a vote in favour,
/// negated for a vote against. `None` where the negation is not representable.
pub open spec fn signed_power(support: bool, power: int) -> Option<int> {
    if support {
        Some(power)
    } else {
        product_of(-(ATTOS_PER_UNIT as int), power)
    }
}

/// This proposal in veto mode, with its deadline one minute further out.
pub open spec fn veto_engaged(p: ProposalView) -> ProposalView {
    ProposalView {
        status: ProposalStatus::VetoMode,
        has_failed_in_last_day: Some(true),
        deadline: shifted(p.deadline, 1),
        ..p
    }
}

/// The stock-taking of the closing minute. It happens once, on the first vote
/// cast in the closing minute of a proposal that is still in ordinary voting:
/// a passing proposal is marked as checked, a failing one enters veto mode.
/// At any other time the proposal is left as it is.
pub open spec fn take_stock(p: ProposalView, threshold: int, now: int) -> Result<
    ProposalView,
    GovernanceError,
> {
    if in_closing_minute(p.deadline, now) && p.has_failed_in_last_day is None
        && p.status is Ongoing {
        match approval_bar(threshold, p.votes_for, p.votes_against) {
            None => Err(GovernanceError::Overflow),
            Some(bar) => if p.votes_for > bar {
                Ok(ProposalView { has_failed_in_last_day: Some(false), ..p })
            } else if !shift_defined(p.deadline, 1) {
                Err(GovernanceError::Overflow)
            } else {
                Ok(veto_engaged(p))
            },
        }
    } else {
        Ok(p)
    }
}

/// The proposal as a vote finds it once all checks that come before the
/// voting power is known have passed, or the reason for which the vote is
/// refused:
///
/// - the proposal must be open for votes;
/// - in veto mode, a vote in favour is refused during the closing minute;
/// - the closing minute's stock-taking is done;
/// - the voter must present a voting credential this component accepts;
/// - the voter must not have voted on the proposal before;
/// - the deadline, as the stock-taking left it, must not have passed.
pub open spec fn screen_vote(
    p: ProposalView,
    threshold: int,
    credential_accepted: bool,
    support: bool,
    voter: u64,
    now: int,
) -> Result<ProposalView, GovernanceError> {
    if !p.status.is_votable() {
        Err(GovernanceError::PhaseViolation)
    } else if !shift_defined(p.deadline, -1) {
        Err(GovernanceError::Overflow)
    } else if p.status is VetoMode && in_closing_minute(p.deadline, now) && support {
        Err(GovernanceError::PhaseViolation)
    } else {
        match take_stock(p, threshold, now) {
            Err(e) => Err(e),
            Ok(q) => if !credential_accepted {
                Err(GovernanceError::AuthorizationFailure)
            } else if q.votes.contains_key(voter) {
                Err(GovernanceError::DoubleVote)
            } else if now >= q.deadline {
                Err(GovernanceError::WindowClosed)
            } else if !shift_defined(q.deadline, 1) {
                Err(GovernanceError::Overflow)
            } else {
                Ok(q)
            },
        }
    }
}

/// The time until which the voter's stake is to be locked for a vote cast at
/// `now`: one minute past the deadline as the vote finds it. This is what the
/// voting-power oracle is asked with. An error where the vote would be
/// refused before the oracle is asked.
pub open spec fn vote_lock_time_spec(
    p: ProposalView,
    threshold: int,
    credential_accepted: bool,
    support: bool,
    voter: u64,
    now: int,
) -> Result<int, GovernanceError> {
    match screen_vote(p, threshold, credential_accepted, support, voter, now) {
        Err(e) => Err(e),
        Ok(q) => Ok(shifted(q.deadline, 1)),
    }
}

/// A screened proposal with the vote recorded: the voter's signed power is
/// entered, the tally on the voter's side grows by the power, and a proposal
/// that has taken stock, is still in ordinary voting and is failing with the
/// new tally enters veto mode.
pub open spec fn record_vote(
    q: ProposalView,
    threshold: int,
    support: bool,
    voter: u64,
    power: int,
) -> Result<ProposalView, GovernanceError> {
    match (
        signed_power(support, power),
        sum_of(
            if support {
                q.votes_for
            } else {
                q.votes_against
            },
            power,
        ),
    ) {
        (Some(signed), Some(side)) => {
            let votes_for = if support {
                side
            } else {
                q.votes_for
            };
            let votes_against = if support {
                q.votes_against
            } else {
                side
            };
            let recorded = ProposalView {
                votes: q.votes.insert(voter, signed),
                votes_for,
                votes_against,
                ..q
            };
            match approval_bar(threshold, votes_for, votes_against) {
                None => Err(GovernanceError::Overflow),
                Some(bar) => if q.has_failed_in_last_day is Some && q.status is Ongoing
                    && votes_for <= bar {
                    if shift_defined(q.deadline, 1) {
                        Ok(veto_engaged(recorded))
                    } else {
                        Err(GovernanceError::Overflow)
                    }
                } else {
                    Ok(recorded)
                },
            }
        },
        _ => Err(GovernanceError::Overflow),
    }
}

/// A proposal after a vote of the given power, or the reason for which the
/// vote is refused.
pub open spec fn vote_spec(
    p: ProposalView,
    threshold: int,
    credential_accepted: bool,
    support: bool,
    voter: u64,
    power: int,
    now: int,
) -> Result<ProposalView, GovernanceError> {
    match screen_vote(p, threshold, credential_accepted, support, voter, now) {
        Err(e) => Err(e),
        Ok(q) => record_vote(q, threshold, support, voter, power),
    }
}

/// The tallies in real terms: each multiplied by the value of one pool unit.
/// `None` where a multiplication yields no product or the sum is not
/// representable.
pub open spec fn real_tally(votes_for: int, votes_against: int, multiplier: int) -> Option<
    (int, int),
> {
    match (product_of(votes_for, multiplier), product_of(votes_against, multiplier)) {
        (Some(real_for), Some(real_against)) => match sum_of(real_against, real_for) {
            Some(total) => Some((real_for, total)),
            None => None,
        },
        _ => None,
    }
}

/// The stage a proposal is in after its vote has been decided at `now`, or the
/// reason for which it cannot be decided: the deadline must have been reached
/// and the proposal must be open for votes.
pub open spec fn decide_spec(
    p: ProposalView,
    threshold: int,
    quorum: int,
    multiplier: int,
    now: int,
) -> Result<ProposalStatus, GovernanceError> {
    if now < p.deadline {
        Err(GovernanceError::WindowClosed)
    } else if !p.status.is_votable() {
        Err(GovernanceError::PhaseViolation)
    } else {
        match real_tally(p.votes_for, p.votes_against, multiplier) {
            None => Err(GovernanceError::Overflow),
            Some((real_for, real_total)) => match product_of(threshold, real_total) {
                None => Err(GovernanceError::Overflow),
                Some(bar) => if real_for > bar && real_total >= quorum {
                    Ok(ProposalStatus::Accepted)
                } else {
                    Ok(ProposalStatus::Rejected)
                },
            },
        }
    }
}

/// The part of a proposal that the closing minute's stock-taking can change.
#[derive(Clone, Copy, Debug)]
pub struct Standing {
    pub status: ProposalStatus,
    pub deadline: Instant,
    pub has_failed_in_last_day: Option<bool>,
}

impl Standing {
    /// The proposal `p` with this standing.
    pub open spec fn on(self, p: ProposalView) -> ProposalView {
        ProposalView {
            status: self.status,
            deadline: self.deadline@,
            has_failed_in_last_day: self.has_failed_in_last_day,
            ..p
        }
    }
}

/// The bar that the votes in favour must clear, or `None` where it cannot be
/// computed within the range of a decimal.
pub fn approval_bar_of(threshold: Decimal, votes_for: Decimal, votes_against: Decimal) -> (r:
    Option<Decimal>)
    ensures
        attos_of(r) == approval_bar(threshold@, votes_for@, votes_against@),
{
    match votes_for.checked_add(votes_against) {
        Some(total) => threshold.checked_mul(total),
        None => None,
    }
}

impl Proposal {
    /// The standing of this proposal after the closing minute's stock-taking
    /// at `now`.
    fn stock_taken(&self, threshold: Decimal, now: Instant, closing: bool) -> (r: Result<
        Standing,
        GovernanceError,
    >)
        requires
            closing == in_closing_minute(self@.deadline, now@),
        ensures
            take_stock(self@, threshold@, now@) == match r {
                Ok(s) => Ok(s.on(self@)),
                Err(e) => Err(e),
            },
    {
        let unchanged = Standing {
            status: self.status,
            deadline: self.deadline,
            has_failed_in_last_day: self.has_failed_in_last_day,
        };
        assert(unchanged.on(self@) == self@);
        if closing && self.has_failed_in_last_day.is_none() && self.status
            == ProposalStatus::Ongoing {
            match approval_bar_of(threshold, self.votes_for, self.votes_against) {
                None => Err(GovernanceError::Overflow),
                Some(bar) => {
                    if self.votes_for.gt(bar) {
                        Ok(Standing { has_failed_in_last_day: Some(false), ..unchanged })
                    } else {
                        match self.deadline.add_minutes(1) {
                            None => Err(GovernanceError::Overflow),
                            Some(extended) => Ok(
                                Standing {
                                    status: ProposalStatus::VetoMode,
                                    deadline: extended,
                                    has_failed_in_last_day: Some(true),
                                },
                            ),
                        }
                    }
                },
            }
        } else {
            Ok(unchanged)
        }
    }

    /// Checks a vote as far as that is possible before the voter's power is
    /// known, and returns the standing in which the vote finds the proposal.
    pub(crate) fn screen(
        &self,
        threshold: Decimal,
        credential_accepted: bool,
        support: bool,
        voter: u64,
        now: Instant,
    ) -> (r: Result<Standing, GovernanceError>)
        ensures
            screen_vote(self@, threshold@, credential_accepted, support, voter, now@) == match r {
                Ok(s) => Ok(s.on(self@)),
                Err(e) => Err(e),
            },
    {
        if !(self.status == ProposalStatus::Ongoing || self.status == ProposalStatus::VetoMode) {
            return Err(GovernanceError::PhaseViolation);
        }
        let closing_from = match self.deadline.add_minutes(-1) {
            Some(t) => t,
            None => {
                return Err(GovernanceError::Overflow);
            },
        };
        let closing = now.is_at_or_after(closing_from);
        if self.status == ProposalStatus::VetoMode && closing && support {
            return Err(GovernanceError::PhaseViolation);
        }
        let standing = match self.stock_taken(threshold, now, closing) {
            Ok(s) => s,
            Err(e) => {
                return Err(e);
            },
        };
        if !credential_accepted {
            return Err(GovernanceError::AuthorizationFailure);
        }
        if self.votes.contains_key(&voter) {
            return Err(GovernanceError::DoubleVote);
        }
        if now.is_at_or_after(standing.deadline) {
            return Err(GovernanceError::WindowClosed);
        }
        if standing.deadline.add_minutes(1).is_none() {
            return Err(GovernanceError::Overflow);
        }
        Ok(standing)
    }

    /// The time until which a voter's stake is to be locked for a vote cast
    /// at `now`, or the reason for which the vote would be refused before the
    /// voter's power is asked for.
    pub fn vote_lock_time(
        &self,
        threshold: Decimal,
        credential_accepted: bool,
        support: bool,
        voter: u64,
        now: Instant,
    ) -> (r: Result<Instant, GovernanceError>)
        ensures
            vote_lock_time_spec(self@, threshold@, credential_accepted, support, voter, now@)
                == match r {
                Ok(t) => Ok(t@),
                Err(e) => Err(e),
            },
    {
        match self.screen(threshold, credential_accepted, support, voter, now) {
            Err(e) => Err(e),
            Ok(standing) => match standing.deadline.add_minutes(1) {
                Some(t) => Ok(t),
                None => Err(GovernanceError::Overflow),
            },
        }
    }

    /// Decides the vote at `now`: the stage the proposal moves to, or the
    /// reason for which the vote cannot be decided.
    pub(crate) fn decide(
        &self,
        threshold: Decimal,
        quorum: Decimal,
        multiplier: Decimal,
        now: Instant,
    ) -> (r: Result<ProposalStatus, GovernanceError>)
        ensures
            r == decide_spec(self@, threshold@, quorum@, multiplier@, now@),
    {
        if !now.is_at_or_after(self.deadline) {
            return Err(GovernanceError::WindowClosed);
        }
        if !(self.status == ProposalStatus::Ongoing || self.status == ProposalStatus::VetoMode) {
            return Err(GovernanceError::PhaseViolation);
        }
        let real_for = match self.votes_for.checked_mul(multiplier) {
            Some(product) => product,
            None => {
                return Err(GovernanceError::Overflow);
            },
        };
        let real_against = match self.votes_against.checked_mul(multiplier) {
            Some(product) => product,
            None => {
                return Err(GovernanceError::Overflow);
            },
        };
        let real_total = match real_against.checked_add(real_for) {
            Some(sum) => sum,
            None => {
                return Err(GovernanceError::Overflow);
            },
        };
        let bar = match threshold.checked_mul(real_total) {
            Some(product) => product,
            None => {
                return Err(GovernanceError::Overflow);
            },
        };
        if real_for.gt(bar) && real_total.ge(quorum) {
            Ok(ProposalStatus::Accepted)
        } else {
            Ok(ProposalStatus::Rejected)
        }
    }

    /// Casts a vote of the given power, or leaves the proposal as it is and
    /// returns the reason for which the vote is refused.
    pub(crate) fn cast_vote(
        &mut self,
        threshold: Decimal,
        credential_accepted: bool,
        support: bool,
        voter: u64,
        power: Decimal,
        now: Instant,
    ) -> (r: Result<(), GovernanceError>)
        ensures
            vote_spec(old(self)@, threshold@, credential_accepted, support, voter, power@, now@)
                == match r {
                Ok(()) => Ok(final(self)@),
                Err(e) => Err(e),
            },
            r is Err ==> *final(self) == *old(self),
    {
        let standing = match self.screen(threshold, credential_accepted, support, voter, now) {
            Ok(s) => s,
            Err(e) => {
                return Err(e);
            },
        };
        let signed = if support {
            power
        } else {
            match Decimal::from_units(-1).checked_mul(power) {
                Some(negated) => negated,
                None => {
                    return Err(GovernanceError::Overflow);
                },
            }
        };
        let side = if support {
            self.votes_for
        } else {
            self.votes_against
        };
        let grown = match side.checked_add(power) {
            Some(sum) => sum,
            None => {
                return Err(GovernanceError::Overflow);
            },
        };
        let votes_for = if support {
            grown
        } else {
            self.votes_for
        };
        let votes_against = if support {
            self.votes_against
        } else {
            grown
        };
        let bar = match approval_bar_of(threshold, votes_for, votes_against) {
            Some(bar) => bar,
            None => {
                return Err(GovernanceError::Overflow);
            },
        };
        let mut outcome = standing;
        if standing.has_failed_in_last_day.is_some() && standing.status == ProposalStatus::Ongoing
            && votes_for.le(bar) {
            match standing.deadline.add_minutes(1) {
                Some(extended) => {
                    outcome =
                    Standing {
                        status: ProposalStatus::VetoMode,
                        deadline: extended,
                        has_failed_in_last_day: Some(true),
                    };
                },
                None => {
                    return Err(GovernanceError::Overflow);
                },
            }
        }
        self.votes.insert(voter, signed);
        self.votes_for = votes_for;
        self.votes_against = votes_against;
        self.status = outcome.status;
        self.deadline = outcome.deadline;
        self.has_failed_in_last_day = outcome.has_failed_in_last_day;
        proof {
            assert(votes_view(self.votes@) =~= votes_view(old(self).votes@).insert(voter, signed@));
        }
        Ok(())
    }
}

} // verus!
