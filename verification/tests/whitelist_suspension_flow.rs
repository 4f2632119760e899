//! Token whitelist + escrow + savings circle: after the admin suspends a
//! token, new escrows and contributions in it are refused; lifting the
//! suspension restores them; an escrow funded before still completes.

use std::collections::HashMap;

use ahjoor::escrow::{EscrowBook, EscrowCreateRequest};
use ahjoor::keys::Address;
use ahjoor::rosca::RoscaGroup;
use ahjoor::whitelist::TokenWhitelist;

/// Ledger sequence and time, address generation, and token balances.
#[allow(dead_code)]
struct LedgerInfo {
    sequence_number: u32,
    timestamp: u64,
    next_address: Address,
    balances: HashMap<Address, i128>,
}

impl LedgerInfo {
    fn generate(&mut self) -> Address {
        self.next_address += 1;
        self.next_address
    }

    fn balance(&self, who: Address) -> i128 {
        *self.balances.get(&who).unwrap_or(&0)
    }

    fn mint(&mut self, to: Address, amount: i128) {
        *self.balances.entry(to).or_insert(0) += amount;
    }

    fn transfer(&mut self, from: Address, to: Address, amount: i128) {
        assert!(self.balance(from) >= amount, "insufficient balance");
        *self.balances.entry(from).or_insert(0) -= amount;
        *self.balances.entry(to).or_insert(0) += amount;
    }
}

fn make_ledger_info() -> LedgerInfo {
    LedgerInfo { sequence_number: 100, timestamp: 1_000_000, next_address: 0, balances: HashMap::new() }
}

fn reason_hash() -> [u8; 32] {
    [0xdeu8; 32]
}

fn make_escrow_request(seller: &Address, arbiter: &Address, token: &Address, amount: i128) -> EscrowCreateRequest {
    EscrowCreateRequest {
        seller: *seller,
        arbiter: *arbiter,
        amount,
        token: *token,
        deadline: 1_000_000 + 86_400,
        arbiter_fee_bps: None,
        dispute_default_winner: None,
        dispute_timeout_seconds: None,
    }
}

/// A whitelist listing `token` and an escrow book holding a permanent
/// per-contract entry for it.
fn deploy(env: &mut LedgerInfo, admin: Address, token: Address) -> (TokenWhitelist, EscrowBook, Address) {
    let mut whitelist = TokenWhitelist::initialize(admin);
    whitelist.add_token(admin, token).unwrap();
    let wl_id = env.generate();
    let escrow_addr = env.generate();
    let mut escrow = EscrowBook::initialize(admin, escrow_addr);
    escrow.set_token_whitelist_contract(admin, wl_id).unwrap();
    whitelist.set_contract_token(admin, escrow_addr, token, None).unwrap();
    (whitelist, escrow, escrow_addr)
}

#[test]
fn test_suspended_token_blocks_escrow_creation() {
    let mut env = make_ledger_info();
    let admin = env.generate();
    let buyer = env.generate();
    let seller = env.generate();
    let arbiter = env.generate();
    let token_addr = env.generate();
    env.mint(buyer, 20_000);

    let (mut whitelist, mut escrow, escrow_addr) = deploy(&mut env, admin, token_addr);

    let req = make_escrow_request(&seller, &arbiter, &token_addr, 1_000);
    escrow.create_escrow_v2(buyer, req, Some(&whitelist), env.sequence_number).unwrap();
    env.transfer(buyer, escrow_addr, req.amount);

    whitelist
        .suspend_token_timed(admin, token_addr, 10_000u32, reason_hash(), env.sequence_number)
        .unwrap();

    let suspension = whitelist.get_token_suspension(token_addr, env.sequence_number);
    assert!(suspension.is_some(), "token should now have an active suspension");

    let result = escrow.create_escrow_v2(buyer, req, Some(&whitelist), env.sequence_number);
    assert!(result.is_err(), "escrow creation must fail when token is suspended");
}

#[test]
fn test_suspended_token_blocks_rosca_contribution() {
    let mut env = make_ledger_info();
    let admin = env.generate();
    let contribution: i128 = 500;
    let token_addr = env.generate();

    let wl_id = env.generate();
    let mut whitelist = TokenWhitelist::initialize(admin);
    whitelist.add_token(admin, token_addr).unwrap();

    let rosca_addr = env.generate();
    let mut members = Vec::new();
    for _ in 0..3 {
        let m = env.generate();
        env.mint(m, contribution * 10);
        members.push(m);
    }

    // No whitelist is wired yet, so the group is set up without consulting one.
    let mut rosca = RoscaGroup::init(admin, rosca_addr, members.clone(), contribution, token_addr).unwrap();

    // Now wire the whitelist so subsequent operations check it.
    rosca.set_token_whitelist_contract(admin, wl_id).unwrap();

    let member0 = members[0];
    rosca.contribute(member0, token_addr, contribution, Some(&whitelist), env.sequence_number).unwrap();
    env.transfer(member0, rosca_addr, contribution);

    whitelist
        .suspend_token_timed(admin, token_addr, 10_000u32, reason_hash(), env.sequence_number)
        .unwrap();

    let member1 = members[1];
    let result = rosca.contribute(member1, token_addr, contribution, Some(&whitelist), env.sequence_number);
    assert!(result.is_err(), "ROSCA contribution must fail when token is suspended");
}

#[test]
fn test_lifting_suspension_restores_operations() {
    let mut env = make_ledger_info();
    let admin = env.generate();
    let buyer = env.generate();
    let seller = env.generate();
    let arbiter = env.generate();
    let token_addr = env.generate();
    env.mint(buyer, 20_000);

    let (mut whitelist, mut escrow, _) = deploy(&mut env, admin, token_addr);
    let req = make_escrow_request(&seller, &arbiter, &token_addr, 1_000);

    escrow.create_escrow_v2(buyer, req, Some(&whitelist), env.sequence_number).unwrap();

    whitelist
        .suspend_token_timed(admin, token_addr, 10_000u32, reason_hash(), env.sequence_number)
        .unwrap();
    let mid_suspension_result = escrow.create_escrow_v2(buyer, req, Some(&whitelist), env.sequence_number);
    assert!(mid_suspension_result.is_err(), "must fail during suspension");

    whitelist.lift_token_suspension(admin, token_addr).unwrap();
    let post_lift = whitelist.get_token_suspension(token_addr, env.sequence_number);
    assert!(post_lift.is_none(), "suspension should be gone after lifting");

    let post_lift_result = escrow.create_escrow_v2(buyer, req, Some(&whitelist), env.sequence_number);
    assert!(post_lift_result.is_ok(), "escrow creation must succeed after suspension is lifted");
}

#[test]
fn test_existing_escrow_completes_after_token_suspended() {
    let mut env = make_ledger_info();
    let admin = env.generate();
    let buyer = env.generate();
    let seller = env.generate();
    let arbiter = env.generate();
    let token_addr = env.generate();
    env.mint(buyer, 10_000);

    let (mut whitelist, mut escrow, escrow_addr) = deploy(&mut env, admin, token_addr);

    let req = make_escrow_request(&seller, &arbiter, &token_addr, 3_000);
    let eid = escrow.create_escrow_v2(buyer, req, Some(&whitelist), env.sequence_number).unwrap();
    env.transfer(buyer, escrow_addr, req.amount);

    whitelist
        .suspend_token_timed(admin, token_addr, 10_000u32, reason_hash(), env.sequence_number)
        .unwrap();

    let seller_balance_before = env.balance(seller);
    let s = escrow.release_escrow(buyer, eid).unwrap();
    env.transfer(escrow_addr, seller, s.seller);
    let seller_balance_after = env.balance(seller);
    assert_eq!(
        seller_balance_after - seller_balance_before,
        3_000,
        "seller should receive funds from an escrow opened before suspension"
    );
}
