use vstd::prelude::*;

verus! {

/// An authenticated account identity: a 256-bit key, held as two halves.
///
/// The substrate that authenticates callers hands the engine an opaque
/// 32-byte identity; the engine only ever compares identities for equality,
/// so the two halves stand for one losslessly.
#[derive(Clone, Copy, Debug, PartialEq, Eq, Structural)]
pub struct AccountId {
    /// The first sixteen bytes of the key.
    pub hi: u128,
    /// The last sixteen bytes of the key.
    pub lo: u128,
}

/// A policy template for proposals: how much participation a proposal needs
/// and how large a share of the cast votes must be in favor.
///
/// Both fractions are expressed in parts per 10000 of their respective
/// denominators (total supply for the quorum, total cast votes for the
/// approval threshold).
#[derive(Clone, Debug)]
pub struct ProposalType {
    /// Minimum participation, as a fraction of total supply (parts per 10000).
    pub quorum: u16,
    /// Minimum share of cast votes in favor (parts per 10000).
    pub approval_threshold: u16,
    /// Human-readable name of the policy.
    pub name: String,
    /// Optional reference to an action carried out when a proposal of this
    /// type passes; opaque to the engine.
    pub module: Option<AccountId>,
}

impl ProposalType {
    /// Both fractions stay within one whole (10000 parts).
    pub open spec fn wf(&self) -> bool {
        &&& self.quorum <= 10000
        &&& self.approval_threshold <= 10000
    }
}

/// Per-deployment configuration and counters: the root of the engine.
///
/// Owns the proposal type registry (an ordered mapping from a small integer
/// code to a policy: the code is the position in `proposal_types`) and issues
/// proposal identifiers from `proposal_count`.
#[derive(Clone, Debug)]
pub struct Governor {
    /// Administrator identity, fixed at creation.
    pub admin: AccountId,
    /// Manager identity, fixed at creation; exempt from the proposal
    /// threshold when creating proposals.
    pub manager: AccountId,
    /// Delay between a proposal's creation and the opening of its window.
    pub voting_delay: u64,
    /// Length of a proposal's voting window; always at least 1.
    pub voting_period: u64,
    /// Minimum voting power required to create a proposal.
    pub proposal_threshold: u64,
    /// Number of proposals created so far; the next proposal's identifier.
    pub proposal_count: u64,
    /// Denominator for the quorum fraction; populated by an external
    /// supply-tracking collaborator.
    pub total_supply: u64,
    /// The proposal type registry, keyed by position.
    pub proposal_types: Vec<ProposalType>,
}

impl Governor {
    /// The voting window has positive length and every registered policy is
    /// well formed.
    pub open spec fn wf(&self) -> bool {
        &&& self.voting_period >= 1
        &&& forall|i: int|
            0 <= i < self.proposal_types@.len() ==> (#[trigger] self.proposal_types@[i]).wf()
    }

    /// The registry entry for a type code, if the code is registered.
    pub open spec fn spec_proposal_type(&self, code: u8) -> Option<ProposalType> {
        if (code as int) < self.proposal_types@.len() {
            Some(self.proposal_types@[code as int])
        } else {
            None
        }
    }

    /// Looks a proposal type code up in the registry.
    pub fn proposal_type(&self, code: u8) -> (r: Option<&ProposalType>)
        ensures
            match r {
                Some(pt) => self.spec_proposal_type(code) == Some(*pt),
                None => self.spec_proposal_type(code) is None,
            },
    {
        if (code as usize) < self.proposal_types.len() {
            Some(&self.proposal_types[code as usize])
        } else {
            None
        }
    }

    /// Voting-power lookup. No balance or stake snapshot source is wired
    /// into this core, so every account resolves to zero weight here; a
    /// deployment supplies a genuine oracle and passes its answers to the
    /// engine operations instead.
    #[allow(unused_variables)]
    pub fn get_votes(&self, account: &AccountId, block: u64) -> (r: u64)
        ensures
            r == 0,
    {
        0
    }
}

/// One governance item's lifecycle record.
///
/// Created once, mutated only by vote casting (tallies) and by execution
/// (the `executed` flag), immutable once finalized.
#[derive(Clone, Debug)]
pub struct Proposal {
    /// Unique identifier, assigned by the governor's counter.
    pub id: u64,
    /// Identity of the account that created the proposal.
    pub proposer: AccountId,
    /// Free-form description of the proposal.
    pub description: String,
    /// Code of the policy this proposal is evaluated under.
    pub proposal_type: u8,
    /// First time point at which votes are accepted.
    pub start_block: u64,
    /// Last time point at which votes are accepted.
    pub end_block: u64,
    /// Total weight cast in favor; never decreases.
    pub for_votes: u64,
    /// Total weight cast against; never decreases.
    pub against_votes: u64,
    /// Whether the proposal has been executed; set at most once.
    pub executed: bool,
    /// Whether the proposal has been canceled. No operation of this core
    /// sets it, but execution honors it if a future collaborator does.
    pub canceled: bool,
}

impl Proposal {
    /// The window is non-degenerate, the combined tally fits the counter
    /// width (so casting a vote cannot overflow past the combined bound),
    /// and the two terminal markers are mutually exclusive.
    pub open spec fn wf(&self) -> bool {
        &&& self.start_block < self.end_block
        &&& self.for_votes + self.against_votes <= u64::MAX
        &&& !(self.executed && self.canceled)
    }
}

/// One voter's recorded decision on one proposal; created once, never
/// mutated. The substrate guarantees at most one record per (voter,
/// proposal) pair.
#[derive(Clone, Debug)]
pub struct Vote {
    /// Identity of the voter.
    pub voter: AccountId,
    /// The proposal voted on.
    pub proposal_id: u64,
    /// True for a vote in favor, false for a vote against.
    pub support: bool,
    /// The voter's weight, snapshotted at the proposal's start.
    pub weight: u64,
}

/// Notification that a proposal was created; advisory, for external
/// observers.
#[derive(Clone, Debug)]
pub struct ProposalCreated {
    pub proposal_id: u64,
    pub proposer: AccountId,
    pub start_block: u64,
    pub end_block: u64,
    pub description: String,
    pub proposal_type: u8,
}

/// Notification that a vote was cast; advisory, for external observers.
#[derive(Clone, Debug)]
pub struct VoteCast {
    pub voter: AccountId,
    pub proposal_id: u64,
    pub support: bool,
    pub weight: u64,
}

/// Notification that a proposal was executed; advisory, for external
/// observers.
#[derive(Clone, Copy, Debug, PartialEq, Eq, Structural)]
pub struct ProposalExecuted {
    pub proposal_id: u64,
}

} // verus!
