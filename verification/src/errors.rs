use vstd::prelude::*;

verus! {

/// Why a requested state transition was rejected.
///
/// Every failure of an engine operation is one of these kinds, surfaced
/// immediately to the caller; no operation applies a partial effect before
/// failing.
#[derive(Clone, Copy, Debug, PartialEq, Eq, Structural)]
pub enum GovernorError {
    /// Proposer does not have enough votes to create a proposal.
    InsufficientProposerVotes,
    /// The proposal type code is not in the registry.
    InvalidProposalType,
    /// A vote was cast outside the proposal's voting window.
    VotingPeriodInactive,
    /// The proposal has already been executed.
    ProposalAlreadyExecuted,
    /// The proposal has been canceled.
    ProposalCanceled,
    /// Execution was attempted while the voting window was still open.
    VotingPeriodActive,
    /// Total participation fell short of the quorum.
    QuorumNotReached,
    /// The share of votes in favor fell short of the approval threshold.
    ApprovalThresholdNotMet,
}

} // verus!
