use vstd::prelude::*;

use crate::engine::execute_check;
use crate::errors::GovernorError;
use crate::model::Governor;
use crate::model::Proposal;
use crate::tally::quorum_reached;

verus! {

/// Once an execution attempt succeeds and marks a proposal executed, every
/// later attempt on that proposal is rejected with `ProposalAlreadyExecuted`,
/// whatever the time of the second attempt and however the governor's
/// configuration may have moved in between.
pub proof fn lemma_executed_proposal_rejects_reexecution(
    governor_then: Governor,
    governor_later: Governor,
    proposal: Proposal,
    now_then: u64,
    now_later: u64,
)
    requires
        execute_check(governor_then, proposal, now_then) is Ok,
    ensures
        execute_check(governor_later, (Proposal { executed: true, ..proposal }), now_later) == Err::<
            (),
            GovernorError,
        >(GovernorError::ProposalAlreadyExecuted),
{
}

/// Quorum is monotone in participation: raising `for_votes` while the total
/// supply and the quorum fraction stay fixed can only move a tally from
/// missing quorum toward reaching it, never the reverse.
pub proof fn lemma_quorum_monotone_in_for_votes(
    total_supply: u64,
    quorum: u16,
    for_votes_before: u64,
    for_votes_after: u64,
    against_votes: u64,
)
    requires
        for_votes_before <= for_votes_after,
    ensures
        quorum_reached(total_supply, quorum, for_votes_before, against_votes) ==> quorum_reached(
            total_supply,
            quorum,
            for_votes_after,
            against_votes,
        ),
{
}

/// A proposal on which no vote was cast at all never passes: execution past
/// its window is rejected with `QuorumNotReached`, under every registered
/// policy — zero participation cannot meet a quorum.
pub proof fn lemma_zero_votes_never_pass(governor: Governor, proposal: Proposal, now: u64)
    requires
        proposal.for_votes == 0,
        proposal.against_votes == 0,
        !proposal.executed,
        !proposal.canceled,
        now > proposal.end_block,
        governor.spec_proposal_type(proposal.proposal_type) is Some,
    ensures
        execute_check(governor, proposal, now) == Err::<(), GovernorError>(
            GovernorError::QuorumNotReached,
        ),
{
}

} // verus!
