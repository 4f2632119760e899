//! Errors of the token whitelist and its governance.

use vstd::prelude::*;

verus! {

/// Why a whitelist or governance call was refused. A refused call leaves the
/// state unchanged.
#[derive(Clone, Copy, Debug, PartialEq, Eq, Structural)]
pub enum WhitelistError {
    /// The caller is not the current admin.
    Unauthorized,
    /// `accept_admin` was called by someone other than the proposed admin.
    NotPendingAdmin,
    /// The token is not on the global whitelist.
    TokenNotWhitelisted,
    /// A quorum above 100% was requested.
    InvalidQuorum,
    /// No governance token has been configured.
    GovernanceNotConfigured,
    /// The proposer holds less than the minimum proposal stake.
    InsufficientProposerStake,
    /// No proposal has this id.
    ProposalNotFound,
    /// The proposal is no longer open for voting or finalisation.
    ProposalNotActive,
    /// The voting window of the proposal has closed.
    VotingWindowClosed,
    /// The voting window of the proposal is still open.
    VotingWindowOpen,
    /// A vote must carry a positive weight.
    InvalidVoteWeight,
    /// The vote weight exceeds the voter's governance-token balance.
    VoteWeightExceedsBalance,
    /// The proposal has not passed, or was already enacted or vetoed.
    ProposalNotPendingEnactment,
    /// The enactment delay has not elapsed yet.
    EnactmentDelayNotElapsed,
    /// The proposal can no longer be vetoed.
    ProposalNotVetoable,
    /// A counter or tally would leave its integer range.
    Overflow,
}

} // verus!
