//! Governance-gated listing and delisting: proposal, token-weighted voting,
//! quorum, veto, enactment delay.

use std::collections::HashMap;

use ahjoor::error::WhitelistError;
use ahjoor::governance::ProposalStatus;
use ahjoor::keys::Address;
use ahjoor::whitelist::TokenWhitelist;

/// Ledger sequence, address generation and governance-token balances.
struct GovEnv {
    sequence: u32,
    next_address: Address,
    balances: HashMap<Address, i128>,
}

impl GovEnv {
    fn generate(&mut self) -> Address {
        self.next_address += 1;
        self.next_address
    }

    fn balance(&self, who: Address) -> i128 {
        *self.balances.get(&who).unwrap_or(&0)
    }
}

fn check<T>(r: Result<T, WhitelistError>) -> T {
    match r {
        Ok(v) => v,
        Err(WhitelistError::Unauthorized) => panic!("Unauthorized: caller is not admin"),
        Err(e) => panic!("{:?}", e),
    }
}

fn setup_governance() -> (GovEnv, Address, TokenWhitelist, Address) {
    let mut env = GovEnv { sequence: 0, next_address: 0, balances: HashMap::new() };
    let admin = env.generate();
    let mut client = TokenWhitelist::initialize(admin);
    let gov_token = env.generate();

    check(client.set_governance_token(admin, gov_token));
    check(client.set_min_proposal_stake(admin, 100i128));
    check(client.set_voting_window_ledgers(admin, 100u32));
    check(client.set_enactment_delay_ledgers(admin, 50u32));
    check(client.set_quorum_bps(admin, 5_000u32));

    (env, admin, client, gov_token)
}

fn mint_gov_tokens(env: &mut GovEnv, _gov_token: &Address, _admin: &Address, to: &Address, amount: i128) {
    *env.balances.entry(*to).or_insert(0) += amount;
}

fn propose_listing(env: &GovEnv, client: &mut TokenWhitelist, proposer: Address, token: Address, rationale: [u8; 32]) -> u32 {
    check(client.propose_token_listing(proposer, token, rationale, env.balance(proposer), env.sequence))
}

fn propose_delisting(env: &GovEnv, client: &mut TokenWhitelist, proposer: Address, token: Address, rationale: [u8; 32]) -> u32 {
    check(client.propose_delisting(proposer, token, rationale, env.balance(proposer), env.sequence))
}

fn vote_listing(env: &GovEnv, client: &mut TokenWhitelist, voter: Address, id: u32, approve: bool, weight: i128) {
    check(client.vote_listing(voter, id, approve, weight, env.balance(voter), env.sequence))
}

fn vote_delisting(env: &GovEnv, client: &mut TokenWhitelist, voter: Address, id: u32, approve: bool, weight: i128) {
    check(client.vote_delisting(voter, id, approve, weight, env.balance(voter), env.sequence))
}

#[test]
fn test_full_proposal_vote_enact_lifecycle() {
    let (mut env, admin, mut client, gov_token) = setup_governance();
    let proposer = env.generate();
    let voter1 = env.generate();
    let voter2 = env.generate();
    let new_token = env.generate();

    mint_gov_tokens(&mut env, &gov_token, &admin, &proposer, 200);
    mint_gov_tokens(&mut env, &gov_token, &admin, &voter1, 600);
    mint_gov_tokens(&mut env, &gov_token, &admin, &voter2, 400);

    let proposal_id = propose_listing(&env, &mut client, proposer, new_token, [1u8; 32]);

    vote_listing(&env, &mut client, voter1, proposal_id, true, 600);
    vote_listing(&env, &mut client, voter2, proposal_id, false, 400);

    env.sequence += 101;
    check(client.finalise_listing_proposal(proposal_id, env.sequence));

    let proposal = client.get_listing_proposal(proposal_id).unwrap();
    assert_eq!(proposal.status, ProposalStatus::PendingEnactment);

    env.sequence += 51;
    check(client.enact_listing(proposal_id, env.sequence));

    let proposal = client.get_listing_proposal(proposal_id).unwrap();
    assert_eq!(proposal.status, ProposalStatus::Enacted);

    assert!(client.is_token_allowed(new_token, env.sequence));
}

#[test]
fn test_quorum_failure_marks_proposal_failed() {
    let (mut env, admin, mut client, gov_token) = setup_governance();
    let proposer = env.generate();
    let voter = env.generate();
    let new_token = env.generate();

    mint_gov_tokens(&mut env, &gov_token, &admin, &proposer, 200);
    mint_gov_tokens(&mut env, &gov_token, &admin, &voter, 400);

    let proposal_id = propose_listing(&env, &mut client, proposer, new_token, [2u8; 32]);

    vote_listing(&env, &mut client, voter, proposal_id, true, 400);
    let rejecter = env.generate();
    mint_gov_tokens(&mut env, &gov_token, &admin, &rejecter, 700);
    vote_listing(&env, &mut client, rejecter, proposal_id, false, 700);

    env.sequence += 101;
    check(client.finalise_listing_proposal(proposal_id, env.sequence));

    let proposal = client.get_listing_proposal(proposal_id).unwrap();
    assert_eq!(proposal.status, ProposalStatus::Failed);
}

#[test]
fn test_admin_veto_blocks_enactment() {
    let (mut env, admin, mut client, gov_token) = setup_governance();
    let proposer = env.generate();
    let voter = env.generate();
    let new_token = env.generate();

    mint_gov_tokens(&mut env, &gov_token, &admin, &proposer, 200);
    mint_gov_tokens(&mut env, &gov_token, &admin, &voter, 600);

    let proposal_id = propose_listing(&env, &mut client, proposer, new_token, [3u8; 32]);
    vote_listing(&env, &mut client, voter, proposal_id, true, 600);
    env.sequence += 101;
    check(client.finalise_listing_proposal(proposal_id, env.sequence));

    check(client.veto_listing_proposal(admin, proposal_id, [0xFFu8; 32]));

    let proposal = client.get_listing_proposal(proposal_id).unwrap();
    assert_eq!(proposal.status, ProposalStatus::Vetoed);

    assert!(!client.is_token_allowed(new_token, env.sequence));
}

#[test]
#[should_panic(expected = "InsufficientProposerStake")]
fn test_insufficient_proposer_stake_rejected() {
    let (mut env, admin, mut client, gov_token) = setup_governance();
    let poor_proposer = env.generate();
    mint_gov_tokens(&mut env, &gov_token, &admin, &poor_proposer, 50);

    let new_token = env.generate();
    propose_listing(&env, &mut client, poor_proposer, new_token, [4u8; 32]);
}

#[test]
fn test_duplicate_vote_overwrite_last_write_wins() {
    let (mut env, admin, mut client, gov_token) = setup_governance();
    let proposer = env.generate();
    let voter = env.generate();
    let new_token = env.generate();

    mint_gov_tokens(&mut env, &gov_token, &admin, &proposer, 200);
    mint_gov_tokens(&mut env, &gov_token, &admin, &voter, 800);

    let proposal_id = propose_listing(&env, &mut client, proposer, new_token, [5u8; 32]);

    vote_listing(&env, &mut client, voter, proposal_id, true, 800);
    let p = client.get_listing_proposal(proposal_id).unwrap();
    assert_eq!(p.approve_weight, 800);

    vote_listing(&env, &mut client, voter, proposal_id, false, 800);
    let p = client.get_listing_proposal(proposal_id).unwrap();
    assert_eq!(p.approve_weight, 0);
    assert_eq!(p.reject_weight, 800);
}

#[test]
#[should_panic(expected = "VotingWindowClosed")]
fn test_cannot_vote_after_window_closes() {
    let (mut env, admin, mut client, gov_token) = setup_governance();
    let proposer = env.generate();
    let voter = env.generate();
    let new_token = env.generate();

    mint_gov_tokens(&mut env, &gov_token, &admin, &proposer, 200);
    mint_gov_tokens(&mut env, &gov_token, &admin, &voter, 500);

    let proposal_id = propose_listing(&env, &mut client, proposer, new_token, [6u8; 32]);
    env.sequence += 101;
    vote_listing(&env, &mut client, voter, proposal_id, true, 500);
}

#[test]
#[should_panic(expected = "VoteWeightExceedsBalance")]
fn test_vote_weight_exceeds_balance_rejected() {
    let (mut env, admin, mut client, gov_token) = setup_governance();
    let proposer = env.generate();
    let voter = env.generate();
    let new_token = env.generate();

    mint_gov_tokens(&mut env, &gov_token, &admin, &proposer, 200);
    mint_gov_tokens(&mut env, &gov_token, &admin, &voter, 300);

    let proposal_id = propose_listing(&env, &mut client, proposer, new_token, [7u8; 32]);
    vote_listing(&env, &mut client, voter, proposal_id, true, 1000);
}

#[test]
#[should_panic(expected = "EnactmentDelayNotElapsed")]
fn test_cannot_enact_before_delay() {
    let (mut env, admin, mut client, gov_token) = setup_governance();
    let proposer = env.generate();
    let voter = env.generate();
    let new_token = env.generate();

    mint_gov_tokens(&mut env, &gov_token, &admin, &proposer, 200);
    mint_gov_tokens(&mut env, &gov_token, &admin, &voter, 600);

    let proposal_id = propose_listing(&env, &mut client, proposer, new_token, [8u8; 32]);
    vote_listing(&env, &mut client, voter, proposal_id, true, 600);

    env.sequence += 101;
    check(client.finalise_listing_proposal(proposal_id, env.sequence));
    check(client.enact_listing(proposal_id, env.sequence));
}

#[test]
fn test_full_delisting_proposal_vote_enact_lifecycle() {
    let (mut env, admin, mut client, gov_token) = setup_governance();
    let listed_token = env.generate();
    check(client.add_token(admin, listed_token));
    assert!(client.is_token_allowed(listed_token, env.sequence));

    let proposer = env.generate();
    let voter1 = env.generate();
    let voter2 = env.generate();
    mint_gov_tokens(&mut env, &gov_token, &admin, &proposer, 200);
    mint_gov_tokens(&mut env, &gov_token, &admin, &voter1, 600);
    mint_gov_tokens(&mut env, &gov_token, &admin, &voter2, 400);

    let proposal_id = propose_delisting(&env, &mut client, proposer, listed_token, [10u8; 32]);
    vote_delisting(&env, &mut client, voter1, proposal_id, true, 600);
    vote_delisting(&env, &mut client, voter2, proposal_id, false, 400);

    env.sequence += 101;
    check(client.finalise_delisting_proposal(proposal_id, env.sequence));
    let proposal = client.get_delisting_proposal(proposal_id).unwrap();
    assert_eq!(proposal.status, ProposalStatus::PendingEnactment);

    env.sequence += 51;
    check(client.enact_delisting(proposal_id, env.sequence));
    let proposal = client.get_delisting_proposal(proposal_id).unwrap();
    assert_eq!(proposal.status, ProposalStatus::Enacted);

    assert!(!client.is_token_allowed(listed_token, env.sequence));
}

#[test]
fn test_delisting_quorum_failure_marks_proposal_failed() {
    let (mut env, admin, mut client, gov_token) = setup_governance();
    let listed_token = env.generate();
    check(client.add_token(admin, listed_token));

    let proposer = env.generate();
    let voter = env.generate();
    let rejecter = env.generate();
    mint_gov_tokens(&mut env, &gov_token, &admin, &proposer, 200);
    mint_gov_tokens(&mut env, &gov_token, &admin, &voter, 400);
    mint_gov_tokens(&mut env, &gov_token, &admin, &rejecter, 700);

    let proposal_id = propose_delisting(&env, &mut client, proposer, listed_token, [11u8; 32]);
    vote_delisting(&env, &mut client, voter, proposal_id, true, 400);
    vote_delisting(&env, &mut client, rejecter, proposal_id, false, 700);

    env.sequence += 101;
    check(client.finalise_delisting_proposal(proposal_id, env.sequence));
    let proposal = client.get_delisting_proposal(proposal_id).unwrap();
    assert_eq!(proposal.status, ProposalStatus::Failed);

    assert!(client.is_token_allowed(listed_token, env.sequence));
}

#[test]
fn test_admin_veto_blocks_delisting_enactment() {
    let (mut env, admin, mut client, gov_token) = setup_governance();
    let listed_token = env.generate();
    check(client.add_token(admin, listed_token));

    let proposer = env.generate();
    let voter = env.generate();
    mint_gov_tokens(&mut env, &gov_token, &admin, &proposer, 200);
    mint_gov_tokens(&mut env, &gov_token, &admin, &voter, 600);

    let proposal_id = propose_delisting(&env, &mut client, proposer, listed_token, [12u8; 32]);
    vote_delisting(&env, &mut client, voter, proposal_id, true, 600);
    env.sequence += 101;
    check(client.finalise_delisting_proposal(proposal_id, env.sequence));

    check(client.veto_delisting_proposal(admin, proposal_id, [0xEEu8; 32]));
    let proposal = client.get_delisting_proposal(proposal_id).unwrap();
    assert_eq!(proposal.status, ProposalStatus::Vetoed);

    assert!(client.is_token_allowed(listed_token, env.sequence));
}

#[test]
#[should_panic(expected = "TokenNotWhitelisted")]
fn test_cannot_propose_delisting_for_non_whitelisted_token() {
    let (mut env, admin, mut client, gov_token) = setup_governance();
    let proposer = env.generate();
    mint_gov_tokens(&mut env, &gov_token, &admin, &proposer, 200);

    let never_listed = env.generate();
    propose_delisting(&env, &mut client, proposer, never_listed, [13u8; 32]);
}

#[test]
#[should_panic(expected = "InsufficientProposerStake")]
fn test_delisting_insufficient_proposer_stake_rejected() {
    let (mut env, admin, mut client, gov_token) = setup_governance();
    let listed_token = env.generate();
    check(client.add_token(admin, listed_token));

    let poor_proposer = env.generate();
    mint_gov_tokens(&mut env, &gov_token, &admin, &poor_proposer, 50);
    propose_delisting(&env, &mut client, poor_proposer, listed_token, [14u8; 32]);
}

#[test]
#[should_panic(expected = "VotingWindowClosed")]
fn test_cannot_vote_delisting_after_window_closes() {
    let (mut env, admin, mut client, gov_token) = setup_governance();
    let listed_token = env.generate();
    check(client.add_token(admin, listed_token));

    let proposer = env.generate();
    let voter = env.generate();
    mint_gov_tokens(&mut env, &gov_token, &admin, &proposer, 200);
    mint_gov_tokens(&mut env, &gov_token, &admin, &voter, 500);

    let proposal_id = propose_delisting(&env, &mut client, proposer, listed_token, [15u8; 32]);
    env.sequence += 101;
    vote_delisting(&env, &mut client, voter, proposal_id, true, 500);
}

#[test]
#[should_panic(expected = "EnactmentDelayNotElapsed")]
fn test_cannot_enact_delisting_before_delay() {
    let (mut env, admin, mut client, gov_token) = setup_governance();
    let listed_token = env.generate();
    check(client.add_token(admin, listed_token));

    let proposer = env.generate();
    let voter = env.generate();
    mint_gov_tokens(&mut env, &gov_token, &admin, &proposer, 200);
    mint_gov_tokens(&mut env, &gov_token, &admin, &voter, 600);

    let proposal_id = propose_delisting(&env, &mut client, proposer, listed_token, [16u8; 32]);
    vote_delisting(&env, &mut client, voter, proposal_id, true, 600);

    env.sequence += 101;
    check(client.finalise_delisting_proposal(proposal_id, env.sequence));
    check(client.enact_delisting(proposal_id, env.sequence));
}

#[test]
fn test_delisting_and_listing_proposal_ids_are_independent() {
    let (mut env, admin, mut client, gov_token) = setup_governance();
    let listed_token = env.generate();
    check(client.add_token(admin, listed_token));
    let new_token = env.generate();

    let proposer = env.generate();
    mint_gov_tokens(&mut env, &gov_token, &admin, &proposer, 200);

    let listing_id = propose_listing(&env, &mut client, proposer, new_token, [17u8; 32]);
    let delisting_id = propose_delisting(&env, &mut client, proposer, listed_token, [18u8; 32]);

    assert_eq!(listing_id, 0);
    assert_eq!(delisting_id, 0);

    assert_eq!(client.get_listing_proposal(listing_id).unwrap().token, new_token);
    assert_eq!(client.get_delisting_proposal(delisting_id).unwrap().token, listed_token);
}

#[test]
fn test_enact_delisting_clears_active_suspension() {
    let (mut env, admin, mut client, gov_token) = setup_governance();
    let listed_token = env.generate();
    check(client.add_token(admin, listed_token));
    check(client.suspend_token_timed(admin, listed_token, 1000u32, [19u8; 32], env.sequence));
    assert!(client.get_token_suspension(listed_token, env.sequence).is_some());

    let proposer = env.generate();
    let voter = env.generate();
    mint_gov_tokens(&mut env, &gov_token, &admin, &proposer, 200);
    mint_gov_tokens(&mut env, &gov_token, &admin, &voter, 600);

    let proposal_id = propose_delisting(&env, &mut client, proposer, listed_token, [20u8; 32]);
    vote_delisting(&env, &mut client, voter, proposal_id, true, 600);

    env.sequence += 101;
    check(client.finalise_delisting_proposal(proposal_id, env.sequence));
    env.sequence += 51;
    check(client.enact_delisting(proposal_id, env.sequence));

    assert!(client.get_token_suspension(listed_token, env.sequence).is_none());
}
