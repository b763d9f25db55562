use vstd::prelude::*;

use crate::errors::GovernorError;
use crate::model::ProposalType;

verus! {

/// Total participation on a proposal: weight in favor plus weight against.
pub open spec fn total_cast(for_votes: u64, against_votes: u64) -> int {
    for_votes + against_votes
}

/// The participation a proposal needs: the quorum fraction (parts per 10000)
/// of the total supply, rounded down.
pub open spec fn quorum_needed(total_supply: u64, quorum: u16) -> int {
    (total_supply * quorum) / 10000
}

/// Whether participation meets the quorum. A proposal with no votes at all
/// never reaches quorum, whatever the fraction: zero participation carries
/// no approval share to evaluate.
pub open spec fn quorum_reached(total_supply: u64, quorum: u16, for_votes: u64, against_votes: u64) -> bool {
    &&& total_cast(for_votes, against_votes) > 0
    &&& total_cast(for_votes, against_votes) >= quorum_needed(total_supply, quorum)
}

/// The share of cast votes in favor, in parts per 10000, rounded down.
/// Meaningful only when some votes were cast.
pub open spec fn approval_pct(for_votes: u64, against_votes: u64) -> int
    recommends
        total_cast(for_votes, against_votes) > 0,
{
    (for_votes * 10000) / total_cast(for_votes, against_votes)
}

/// Whether the share of votes in favor meets the approval threshold
/// (parts per 10000).
pub open spec fn approval_met(approval_threshold: u16, for_votes: u64, against_votes: u64) -> bool {
    approval_pct(for_votes, against_votes) >= approval_threshold
}

/// The outcome of holding a tally against a policy: quorum is checked first,
/// then the approval threshold; `Ok` means the proposal passes.
pub open spec fn tally_check(
    total_supply: u64,
    policy: ProposalType,
    for_votes: u64,
    against_votes: u64,
) -> Result<(), GovernorError> {
    if !quorum_reached(total_supply, policy.quorum, for_votes, against_votes) {
        Err(GovernorError::QuorumNotReached)
    } else if !approval_met(policy.approval_threshold, for_votes, against_votes) {
        Err(GovernorError::ApprovalThresholdNotMet)
    } else {
        Ok(())
    }
}

/// Holds a tally against a policy: participation must meet the quorum
/// fraction of total supply, and the share of votes in favor must meet the
/// approval threshold. All arithmetic is exact integer arithmetic in parts
/// per 10000; a tally with no votes at all fails the quorum check, so the
/// approval share is never computed over zero votes.
pub fn evaluate_tally(
    total_supply: u64,
    policy: &ProposalType,
    for_votes: u64,
    against_votes: u64,
) -> (r: Result<(), GovernorError>)
    ensures
        r == tally_check(total_supply, *policy, for_votes, against_votes),
{
    let cast: u128 = for_votes as u128 + against_votes as u128;
    proof {
        assert(total_supply as int * policy.quorum as int <= u64::MAX as int * u16::MAX as int)
            by (nonlinear_arith)
            requires
                total_supply as int <= u64::MAX as int,
                policy.quorum as int <= u16::MAX as int,
        ;
    }
    let needed: u128 = (total_supply as u128 * policy.quorum as u128) / 10000;
    if cast == 0 || cast < needed {
        return Err(GovernorError::QuorumNotReached);
    }
    let share: u128 = (for_votes as u128 * 10000) / cast;
    if share < policy.approval_threshold as u128 {
        Err(GovernorError::ApprovalThresholdNotMet)
    } else {
        Ok(())
    }
}

} // verus!
