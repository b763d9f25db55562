use vstd::prelude::*;

use crate::errors::GovernorError;
use crate::model::AccountId;
use crate::model::Governor;
use crate::model::Proposal;
use crate::model::ProposalCreated;
use crate::model::ProposalExecuted;
use crate::model::ProposalType;
use crate::model::Vote;
use crate::model::VoteCast;
use crate::tally::evaluate_tally;
use crate::tally::tally_check;

verus! {

/// Which error, if any, rejects a proposal creation: the type code must be
/// registered, and the proposer must carry the proposal threshold in voting
/// power unless the proposer is the manager. Checked in this order; the
/// first failure wins.
pub open spec fn create_check(
    governor: Governor,
    proposer: AccountId,
    proposer_weight: u64,
    proposal_type: u8,
) -> Result<(), GovernorError> {
    if governor.spec_proposal_type(proposal_type) is None {
        Err(GovernorError::InvalidProposalType)
    } else if proposer_weight < governor.proposal_threshold && proposer != governor.manager {
        Err(GovernorError::InsufficientProposerVotes)
    } else {
        Ok(())
    }
}

/// Whether a time point falls inside a proposal's voting window, both ends
/// inclusive.
pub open spec fn vote_window_open(proposal: Proposal, now: u64) -> bool {
    proposal.start_block <= now && now <= proposal.end_block
}

/// Which error, if any, rejects an execution attempt, and `Ok` when the
/// proposal passes. Checked in this order; the first failure wins: already
/// executed, canceled, window still open, type code no longer registered
/// (a fatal configuration error, never silently defaulted), then the tally
/// against the policy.
pub open spec fn execute_check(governor: Governor, proposal: Proposal, now: u64) -> Result<
    (),
    GovernorError,
> {
    if proposal.executed {
        Err(GovernorError::ProposalAlreadyExecuted)
    } else if proposal.canceled {
        Err(GovernorError::ProposalCanceled)
    } else if now <= proposal.end_block {
        Err(GovernorError::VotingPeriodActive)
    } else {
        match governor.spec_proposal_type(proposal.proposal_type) {
            None => Err(GovernorError::InvalidProposalType),
            Some(policy) => tally_check(
                governor.total_supply,
                policy,
                proposal.for_votes,
                proposal.against_votes,
            ),
        }
    }
}

/// Constructs a governor: fixed admin and manager identities, the voting
/// delay and window lengths, and the minimum power to propose. The proposal
/// counter and the total supply start at zero and the registry starts empty;
/// an external supply-tracking collaborator populates the supply. A zero
/// voting period is rejected.
pub fn initialize(
    admin: AccountId,
    manager: AccountId,
    voting_delay: u64,
    voting_period: u64,
    proposal_threshold: u64,
) -> (r: Option<Governor>)
    ensures
        r is Some <==> voting_period >= 1,
        r matches Some(governor) ==> {
            &&& governor.admin == admin
            &&& governor.manager == manager
            &&& governor.voting_delay == voting_delay
            &&& governor.voting_period == voting_period
            &&& governor.proposal_threshold == proposal_threshold
            &&& governor.proposal_count == 0
            &&& governor.total_supply == 0
            &&& governor.proposal_types@.len() == 0
            &&& governor.wf()
        },
{
    if voting_period == 0 {
        return None;
    }
    Some(
        Governor {
            admin,
            manager,
            voting_delay,
            voting_period,
            proposal_threshold,
            proposal_count: 0,
            total_supply: 0,
            proposal_types: Vec::new(),
        },
    )
}

/// Creates a proposal under a registered policy.
///
/// `proposer_weight` is the proposer's voting power at the current time, as
/// answered by the external voting-power oracle. On success the new
/// proposal takes the governor's counter as its identifier, its window is
/// `[now + voting_delay, now + voting_delay + voting_period]`, its tallies
/// start at zero, and the only change to the governor is the counter
/// stepping up by one; the returned notification mirrors the new proposal.
/// On failure nothing changes.
pub fn create_proposal(
    governor: &mut Governor,
    proposer: AccountId,
    proposer_weight: u64,
    description: String,
    proposal_type: u8,
    now: u64,
) -> (r: Result<(Proposal, ProposalCreated), GovernorError>)
    requires
        old(governor).wf(),
        old(governor).proposal_count < u64::MAX,
        now + old(governor).voting_delay + old(governor).voting_period <= u64::MAX,
    ensures
        final(governor).wf(),
        match create_check(*old(governor), proposer, proposer_weight, proposal_type) {
            Err(e) => r == Err::<(Proposal, ProposalCreated), GovernorError>(e) && *final(governor)
                == *old(governor),
            Ok(()) => {
                &&& r matches Ok((proposal, event))
                &&& proposal.id == old(governor).proposal_count
                &&& proposal.proposer == proposer
                &&& proposal.description@ == description@
                &&& proposal.proposal_type == proposal_type
                &&& proposal.start_block == now + old(governor).voting_delay
                &&& proposal.end_block == now + old(governor).voting_delay + old(
                    governor,
                ).voting_period
                &&& proposal.for_votes == 0
                &&& proposal.against_votes == 0
                &&& !proposal.executed
                &&& !proposal.canceled
                &&& proposal.wf()
                &&& event.proposal_id == proposal.id
                &&& event.proposer == proposer
                &&& event.start_block == proposal.start_block
                &&& event.end_block == proposal.end_block
                &&& event.description@ == description@
                &&& event.proposal_type == proposal_type
                &&& *final(governor) == (Governor {
                    proposal_count: (old(governor).proposal_count + 1) as u64,
                    ..*old(governor)
                })
            },
        },
{
    if governor.proposal_type(proposal_type).is_none() {
        return Err(GovernorError::InvalidProposalType);
    }
    if proposer_weight < governor.proposal_threshold && !(proposer == governor.manager) {
        return Err(GovernorError::InsufficientProposerVotes);
    }
    let id = governor.proposal_count;
    let start_block = now + governor.voting_delay;
    let end_block = start_block + governor.voting_period;
    let event = ProposalCreated {
        proposal_id: id,
        proposer,
        start_block,
        end_block,
        description: description.clone(),
        proposal_type,
    };
    let proposal = Proposal {
        id,
        proposer,
        description,
        proposal_type,
        start_block,
        end_block,
        for_votes: 0,
        against_votes: 0,
        executed: false,
        canceled: false,
    };
    governor.proposal_count = id + 1;
    Ok((proposal, event))
}

/// Records one voter's decision on a proposal.
///
/// `weight` is the voter's power snapshotted at `proposal.start_block`, as
/// answered by the external voting-power oracle; snapshotting at the window's
/// start keeps all votes on one proposal comparable and keeps late power
/// acquisition from inflating a vote. A vote is accepted only inside the
/// window, both ends inclusive. On success the vote's weight is added to the
/// tally it supports and the other tally is untouched; a zero weight is
/// allowed and contributes nothing. On failure nothing changes. Tallies
/// never decrease, whichever way the call goes.
pub fn cast_vote(
    proposal: &mut Proposal,
    voter: AccountId,
    support: bool,
    weight: u64,
    now: u64,
) -> (r: Result<(Vote, VoteCast), GovernorError>)
    requires
        old(proposal).wf(),
        old(proposal).for_votes + old(proposal).against_votes + weight <= u64::MAX,
    ensures
        final(proposal).wf(),
        final(proposal).for_votes >= old(proposal).for_votes,
        final(proposal).against_votes >= old(proposal).against_votes,
        !vote_window_open(*old(proposal), now) ==> r == Err::<(Vote, VoteCast), GovernorError>(
            GovernorError::VotingPeriodInactive,
        ) && *final(proposal) == *old(proposal),
        vote_window_open(*old(proposal), now) ==> {
            &&& r matches Ok((vote, event))
            &&& vote.voter == voter
            &&& vote.proposal_id == old(proposal).id
            &&& vote.support == support
            &&& vote.weight == weight
            &&& event.voter == voter
            &&& event.proposal_id == old(proposal).id
            &&& event.support == support
            &&& event.weight == weight
            &&& support ==> *final(proposal) == (Proposal {
                for_votes: (old(proposal).for_votes + weight) as u64,
                ..*old(proposal)
            })
            &&& !support ==> *final(proposal) == (Proposal {
                against_votes: (old(proposal).against_votes + weight) as u64,
                ..*old(proposal)
            })
        },
{
    if now < proposal.start_block || now > proposal.end_block {
        return Err(GovernorError::VotingPeriodInactive);
    }
    let vote = Vote { voter, proposal_id: proposal.id, support, weight };
    let event = VoteCast { voter, proposal_id: proposal.id, support, weight };
    if support {
        proposal.for_votes = proposal.for_votes + weight;
    } else {
        proposal.against_votes = proposal.against_votes + weight;
    }
    Ok((vote, event))
}

/// Executes a proposal that has passed.
///
/// Rejects, in order: a proposal already executed, a canceled proposal, a
/// window still open (execution needs `now` strictly past the window's end),
/// a type code no longer in the registry, and a tally that misses the quorum
/// or the approval threshold. On success the proposal is marked executed —
/// the one and final change to it — and the returned notification names it;
/// carrying out the policy's linked action is the external action executor's
/// concern. On failure nothing changes.
pub fn execute_proposal(governor: &Governor, proposal: &mut Proposal, now: u64) -> (r: Result<
    ProposalExecuted,
    GovernorError,
>)
    ensures
        match execute_check(*governor, *old(proposal), now) {
            Err(e) => r == Err::<ProposalExecuted, GovernorError>(e) && *final(proposal) == *old(
                proposal,
            ),
            Ok(()) => r == Ok::<ProposalExecuted, GovernorError>(
                ProposalExecuted { proposal_id: old(proposal).id },
            ) && *final(proposal) == (Proposal { executed: true, ..*old(proposal) }),
        },
        old(proposal).wf() ==> final(proposal).wf(),
{
    if proposal.executed {
        return Err(GovernorError::ProposalAlreadyExecuted);
    }
    if proposal.canceled {
        return Err(GovernorError::ProposalCanceled);
    }
    if now <= proposal.end_block {
        return Err(GovernorError::VotingPeriodActive);
    }
    let policy: &ProposalType = match governor.proposal_type(proposal.proposal_type) {
        None => {
            return Err(GovernorError::InvalidProposalType);
        },
        Some(policy) => policy,
    };
    match evaluate_tally(governor.total_supply, policy, proposal.for_votes, proposal.against_votes) {
        Err(e) => Err(e),
        Ok(()) => {
            proposal.executed = true;
            Ok(ProposalExecuted { proposal_id: proposal.id })
        },
    }
}

} // verus!
