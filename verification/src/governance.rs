//! Governance over the privileged protocol operations: proposals, vote
//! tallies, and the quorum-and-timelock gate that must pass before a
//! proposal's action may be executed.

use vstd::prelude::*;

verus! {

/// Why a governance operation was refused. Every failure leaves the
/// governance record and the proposal exactly as they were.
#[derive(Clone, Copy, Debug, PartialEq, Eq, Structural)]
pub enum ErrorCode {
    /// The proposal is outside its voting window.
    ProposalNotActive,
    /// The voter has already voted on this proposal.
    AlreadyVoted,
    /// The proposal has not gathered the minimum quorum.
    QuorumNotMet,
    /// The timelock after the voting window has not elapsed.
    TimelockNotElapsed,
    /// The proposal was already executed.
    AlreadyExecuted,
    /// A tally, counter or deadline would overflow its domain.
    MathOverflow,
}

/// The governance configuration and proposal counter.
#[derive(Clone, Copy, Debug, PartialEq, Eq, Structural)]
pub struct Governance {
    /// The governance authority.
    pub authority: u64,
    /// The staking collaborator vote weights are drawn from.
    pub staking_program: u64,
    /// Least sum of supporting votes a proposal needs.
    pub min_quorum: u64,
    /// How long a proposal accepts votes, in seconds.
    pub voting_period: i64,
    /// How long execution is locked after voting ends, in seconds.
    pub timelock_period: i64,
    /// How many proposals have been made.
    pub proposal_count: u64,
}

/// One proposal: its action, voting window, tallies, and whether it
/// has been executed.
#[derive(Clone, Debug, PartialEq, Eq)]
pub struct Proposal {
    /// Position in the order of proposals.
    pub id: u64,
    /// The account that made the proposal.
    pub proposer: u64,
    /// The program the action is addressed to.
    pub target_program: u64,
    /// The serialized action to run once quorum and timelock allow.
    pub action_data: Vec<u8>,
    /// When the voting window opens.
    pub start_time: i64,
    /// When the voting window closes.
    pub end_time: i64,
    /// When the timelock elapses and execution becomes possible.
    pub execute_time: i64,
    /// Sum of supporting vote weights.
    pub votes_for: u64,
    /// Sum of opposing vote weights.
    pub votes_against: u64,
    /// Whether the action has been executed.
    pub executed: bool,
}

/// One account's vote on one proposal.
#[derive(Clone, Copy, Debug, PartialEq, Eq, Structural)]
pub struct VoteRecord {
    /// The proposal voted on, by its id.
    pub proposal: u64,
    /// The account that voted.
    pub voter: u64,
    /// The weight the vote carried.
    pub weight: u64,
    /// Whether the vote supports the proposal.
    pub support: bool,
}

/// Notification of a new proposal.
#[derive(Clone, Copy, Debug, PartialEq, Eq, Structural)]
pub struct Proposed {
    pub id: u64,
    pub proposer: u64,
    pub target: u64,
}

/// Notification of a cast vote.
#[derive(Clone, Copy, Debug, PartialEq, Eq, Structural)]
pub struct Voted {
    pub proposal: u64,
    pub voter: u64,
    pub weight: u64,
    pub support: bool,
}

/// Notification of an executed proposal.
#[derive(Clone, Copy, Debug, PartialEq, Eq, Structural)]
pub struct Executed {
    pub proposal: u64,
}

impl Governance {
    /// Creates the governance record with no proposals made.
    pub fn initialize(
        authority: u64,
        staking_program: u64,
        min_quorum: u64,
        voting_period: i64,
        timelock_period: i64,
    ) -> (r: Governance)
        ensures
            r == (Governance {
                authority,
                staking_program,
                min_quorum,
                voting_period,
                timelock_period,
                proposal_count: 0,
            }),
    {
        Governance {
            authority,
            staking_program,
            min_quorum,
            voting_period,
            timelock_period,
            proposal_count: 0,
        }
    }

    /// Opens a proposal: its voting window starts now and runs for the
    /// voting period, and execution unlocks a timelock period after the
    /// window closes.
    pub fn propose(&mut self, proposer: u64, target_program: u64, action_data: Vec<u8>, now: i64)
        -> (r: Result<(Proposal, Proposed), ErrorCode>)
        ensures
            r is Err ==> *final(self) == *old(self),
            r is Ok <==> {
                &&& i64::MIN <= now + old(self).voting_period <= i64::MAX
                &&& i64::MIN <= now + old(self).voting_period + old(self).timelock_period
                    <= i64::MAX
                &&& old(self).proposal_count + 1 <= u64::MAX
            },
            r == Err::<(Proposal, Proposed), ErrorCode>(ErrorCode::MathOverflow) <==> {
                ||| now + old(self).voting_period > i64::MAX
                ||| now + old(self).voting_period < i64::MIN
                ||| now + old(self).voting_period + old(self).timelock_period > i64::MAX
                ||| now + old(self).voting_period + old(self).timelock_period < i64::MIN
                ||| old(self).proposal_count + 1 > u64::MAX
            },
            r matches Ok((proposal, ev)) ==> {
                &&& *final(self) == (Governance {
                    proposal_count: (old(self).proposal_count + 1) as u64,
                    ..*old(self)
                })
                &&& proposal.id == old(self).proposal_count
                &&& proposal.proposer == proposer
                &&& proposal.target_program == target_program
                &&& proposal.action_data@ == action_data@
                &&& proposal.start_time == now
                &&& proposal.end_time == now + old(self).voting_period
                &&& proposal.execute_time == now + old(self).voting_period + old(
                    self,
                ).timelock_period
                &&& proposal.votes_for == 0
                &&& proposal.votes_against == 0
                &&& !proposal.executed
                &&& ev == (Proposed { id: proposal.id, proposer, target: target_program })
            },
    {
        let end_time = match now.checked_add(self.voting_period) {
            Some(v) => v,
            None => {
                return Err(ErrorCode::MathOverflow);
            },
        };
        let execute_time = match end_time.checked_add(self.timelock_period) {
            Some(v) => v,
            None => {
                return Err(ErrorCode::MathOverflow);
            },
        };
        let new_count = match self.proposal_count.checked_add(1) {
            Some(v) => v,
            None => {
                return Err(ErrorCode::MathOverflow);
            },
        };

        let proposal = Proposal {
            id: self.proposal_count,
            proposer,
            target_program,
            action_data,
            start_time: now,
            end_time,
            execute_time,
            votes_for: 0,
            votes_against: 0,
            executed: false,
        };
        let event = Proposed { id: proposal.id, proposer, target: target_program };

        self.proposal_count = new_count;

        Ok((proposal, event))
    }
}

/// Casts a vote of the given weight on a proposal within its voting
/// window, growing the matching tally. The store keyed by proposal and
/// voter, outside this record, refuses a second vote by the same voter.
pub fn vote(proposal: &mut Proposal, voter: u64, support: bool, weight: u64, now: i64) -> (r:
    Result<(VoteRecord, Voted), ErrorCode>)
    ensures
        r is Err ==> *final(proposal) == *old(proposal),
        r == Err::<(VoteRecord, Voted), ErrorCode>(ErrorCode::ProposalNotActive) <==> (now < old(
            proposal,
        ).start_time || now > old(proposal).end_time),
        r is Ok <==> (old(proposal).start_time <= now <= old(proposal).end_time && (if support {
            old(proposal).votes_for + weight <= u64::MAX
        } else {
            old(proposal).votes_against + weight <= u64::MAX
        })),
        (old(proposal).start_time <= now <= old(proposal).end_time) ==> (r == Err::<
            (VoteRecord, Voted),
            ErrorCode,
        >(ErrorCode::MathOverflow) <==> (if support {
            old(proposal).votes_for + weight > u64::MAX
        } else {
            old(proposal).votes_against + weight > u64::MAX
        })),
        r matches Ok((record, ev)) ==> {
            &&& *final(proposal) == (Proposal {
                votes_for: if support {
                    (old(proposal).votes_for + weight) as u64
                } else {
                    old(proposal).votes_for
                },
                votes_against: if support {
                    old(proposal).votes_against
                } else {
                    (old(proposal).votes_against + weight) as u64
                },
                ..*old(proposal)
            })
            &&& record == (VoteRecord { proposal: old(proposal).id, voter, weight, support })
            &&& ev == (Voted { proposal: old(proposal).id, voter, weight, support })
        },
{
    if now < proposal.start_time || now > proposal.end_time {
        return Err(ErrorCode::ProposalNotActive);
    }

    if support {
        let new_votes = match proposal.votes_for.checked_add(weight) {
            Some(v) => v,
            None => {
                return Err(ErrorCode::MathOverflow);
            },
        };
        proposal.votes_for = new_votes;
    } else {
        let new_votes = match proposal.votes_against.checked_add(weight) {
            Some(v) => v,
            None => {
                return Err(ErrorCode::MathOverflow);
            },
        };
        proposal.votes_against = new_votes;
    }

    let record = VoteRecord { proposal: proposal.id, voter, weight, support };
    let event = Voted { proposal: proposal.id, voter, weight, support };
    Ok((record, event))
}

/// Marks a proposal executed once its gate passes: the timelock has
/// elapsed, the quorum is met, and it has not been executed before.
/// Performing the proposal's action is the caller's obligation.
pub fn execute(governance: &Governance, proposal: &mut Proposal, now: i64) -> (r: Result<
    Executed,
    ErrorCode,
>)
    ensures
        r is Err ==> *final(proposal) == *old(proposal),
        r == Err::<Executed, ErrorCode>(ErrorCode::TimelockNotElapsed) <==> now < old(
            proposal,
        ).execute_time,
        r is Ok <==> (now >= old(proposal).execute_time && old(proposal).votes_for
            >= governance.min_quorum && !old(proposal).executed),
        now >= old(proposal).execute_time ==> (r == Err::<Executed, ErrorCode>(
            ErrorCode::QuorumNotMet,
        ) <==> old(proposal).votes_for < governance.min_quorum),
        (now >= old(proposal).execute_time && old(proposal).votes_for >= governance.min_quorum)
            ==> (r == Err::<Executed, ErrorCode>(ErrorCode::AlreadyExecuted) <==> old(
            proposal,
        ).executed),
        r matches Ok(ev) ==> {
            &&& *final(proposal) == (Proposal { executed: true, ..*old(proposal) })
            &&& ev == (Executed { proposal: old(proposal).id })
        },
{
    if now < proposal.execute_time {
        return Err(ErrorCode::TimelockNotElapsed);
    }
    if proposal.votes_for < governance.min_quorum {
        return Err(ErrorCode::QuorumNotMet);
    }
    if proposal.executed {
        return Err(ErrorCode::AlreadyExecuted);
    }

    proposal.executed = true;

    Ok(Executed { proposal: proposal.id })
}

} // verus!
