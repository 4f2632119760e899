//! Boundaries of expiries and suspensions, the admin hand-over, governance
//! refusals, and the tally laws on concrete votes.

use ahjoor::error::WhitelistError;
use ahjoor::governance::{ProposalBook, ProposalStatus};
use ahjoor::whitelist::TokenWhitelist;

const ADMIN: u64 = 1;
const HEIR: u64 = 2;
const CONTRACT: u64 = 3;
const TOKEN: u64 = 4;
const GOV: u64 = 5;
const VOTER: u64 = 6;
const OTHER: u64 = 7;

#[test]
fn entry_expires_after_its_expiry_ledger() {
    let mut w = TokenWhitelist::initialize(ADMIN);
    w.set_contract_token(ADMIN, CONTRACT, TOKEN, Some(5)).unwrap();
    assert!(w.is_token_allowed_for_contract(CONTRACT, TOKEN, 5));
    assert!(!w.is_token_allowed_for_contract(CONTRACT, TOKEN, 6));
}

#[test]
fn suspension_lasts_exactly_its_duration() {
    let mut w = TokenWhitelist::initialize(ADMIN);
    w.add_token(ADMIN, TOKEN).unwrap();
    w.suspend_token_timed(ADMIN, TOKEN, 5, [0u8; 32], 10).unwrap();
    assert!(!w.is_token_allowed(TOKEN, 14));
    assert!(w.get_token_suspension(TOKEN, 14).is_some());
    assert!(w.is_token_allowed(TOKEN, 15));
    assert!(w.get_token_suspension(TOKEN, 15).is_none());
    assert_eq!(w.get_token_suspension(TOKEN, 10).unwrap().expires_at, 15);
}

#[test]
fn suspending_unlisted_token_is_refused() {
    let mut w = TokenWhitelist::initialize(ADMIN);
    assert_eq!(w.suspend_token_timed(ADMIN, TOKEN, 5, [0u8; 32], 0), Err(WhitelistError::TokenNotWhitelisted));
    assert_eq!(w.suspend_token_timed(HEIR, TOKEN, 5, [0u8; 32], 0), Err(WhitelistError::Unauthorized));
}

#[test]
fn admin_handover_needs_the_named_successor() {
    let mut w = TokenWhitelist::initialize(ADMIN);
    assert_eq!(w.accept_admin(HEIR), Err(WhitelistError::NotPendingAdmin));
    assert_eq!(w.propose_admin(HEIR, HEIR), Err(WhitelistError::Unauthorized));
    w.propose_admin(ADMIN, HEIR).unwrap();
    assert_eq!(w.pending_admin(), Some(HEIR));
    assert_eq!(w.accept_admin(OTHER), Err(WhitelistError::NotPendingAdmin));
    w.accept_admin(HEIR).unwrap();
    assert_eq!(w.admin(), HEIR);
    assert_eq!(w.pending_admin(), None);
    assert_eq!(w.add_token(ADMIN, TOKEN), Err(WhitelistError::Unauthorized));
    assert_eq!(w.add_token(HEIR, TOKEN), Ok(()));
}

#[test]
fn governance_refusals() {
    let mut w = TokenWhitelist::initialize(ADMIN);
    assert_eq!(w.propose_token_listing(VOTER, TOKEN, [0u8; 32], 1_000, 0), Err(WhitelistError::GovernanceNotConfigured));
    assert_eq!(w.set_quorum_bps(ADMIN, 10_001), Err(WhitelistError::InvalidQuorum));
    assert_eq!(w.set_quorum_bps(VOTER, 1), Err(WhitelistError::Unauthorized));
    w.set_governance_token(ADMIN, GOV).unwrap();
    w.set_voting_window_ledgers(ADMIN, 10).unwrap();
    w.set_quorum_bps(ADMIN, 5_000).unwrap();
    assert_eq!(w.get_governance_config().quorum_bps, 5_000);
    assert_eq!(w.vote_listing(VOTER, 0, true, 1, 1, 0), Err(WhitelistError::ProposalNotFound));

    let id = w.propose_token_listing(VOTER, TOKEN, [0u8; 32], 0, 0).unwrap();
    let p = w.get_listing_proposal(id).unwrap();
    assert_eq!(p.voting_ends_at, 10);
    assert_eq!(p.status, ProposalStatus::Active);
    assert_eq!(w.vote_listing(VOTER, id, true, 0, 5, 0), Err(WhitelistError::InvalidVoteWeight));
    assert_eq!(w.finalise_listing_proposal(id, 10), Err(WhitelistError::VotingWindowOpen));
    assert_eq!(w.enact_listing(id, 10), Err(WhitelistError::ProposalNotPendingEnactment));
    w.vote_listing(VOTER, id, true, 5, 5, 10).unwrap();
    assert_eq!(w.finalise_listing_proposal(id, 11), Ok(ProposalStatus::PendingEnactment));
    assert_eq!(w.vote_listing(OTHER, id, true, 5, 5, 11), Err(WhitelistError::ProposalNotActive));
    assert_eq!(w.finalise_listing_proposal(id, 12), Err(WhitelistError::ProposalNotActive));
    w.enact_listing(id, 11).unwrap();
    assert!(w.is_token_allowed(TOKEN, 11));
    assert_eq!(w.veto_listing_proposal(ADMIN, id, [1u8; 32]), Err(WhitelistError::ProposalNotVetoable));
    assert_eq!(w.veto_listing_proposal(VOTER, id, [1u8; 32]), Err(WhitelistError::Unauthorized));
}

#[test]
fn unvoted_proposal_fails() {
    let mut book = ProposalBook::new();
    let id = book.propose(VOTER, TOKEN, [0u8; 32], 0, 0).unwrap();
    assert_eq!(book.finalise(id, 1, 0, 0), Ok(ProposalStatus::Failed));
}

#[test]
fn tallies_follow_each_voters_latest_ballot() {
    let mut book = ProposalBook::new();
    let id = book.propose(GOV, TOKEN, [0u8; 32], 0, 100).unwrap();
    assert_eq!(book.len(), 1);
    book.vote(id, VOTER, true, 300, 300, 1).unwrap();
    book.vote(id, OTHER, false, 200, 200, 1).unwrap();
    book.vote(id, VOTER, true, 100, 300, 2).unwrap();
    let p = book.get(id).unwrap();
    assert_eq!((p.approve_weight, p.reject_weight), (100, 200));
    book.vote(id, OTHER, true, 50, 200, 3).unwrap();
    let p = book.get(id).unwrap();
    assert_eq!((p.approve_weight, p.reject_weight), (150, 0));
}

#[test]
fn tally_overflow_is_refused_and_changes_nothing() {
    let mut book = ProposalBook::new();
    let id = book.propose(GOV, TOKEN, [0u8; 32], 0, 100).unwrap();
    book.vote(id, VOTER, true, i128::MAX, i128::MAX, 1).unwrap();
    assert_eq!(book.vote(id, OTHER, false, 1, 1, 1), Err(WhitelistError::Overflow));
    let p = book.get(id).unwrap();
    assert_eq!((p.approve_weight, p.reject_weight), (i128::MAX, 0));
    book.vote(id, VOTER, false, 1, 1, 1).unwrap();
    let p = book.get(id).unwrap();
    assert_eq!((p.approve_weight, p.reject_weight), (0, 1));
}

#[test]
fn vetoed_proposal_cannot_be_enacted() {
    let mut book = ProposalBook::new();
    let id = book.propose(GOV, TOKEN, [0u8; 32], 0, 0).unwrap();
    book.veto(id).unwrap();
    assert_eq!(book.enact(id, 1_000), Err(WhitelistError::ProposalNotPendingEnactment));
    assert_eq!(book.veto(id), Err(WhitelistError::ProposalNotVetoable));
}
