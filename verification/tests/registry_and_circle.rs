//! Refund-registry paging and refusals; savings-circle contributions.

use ahjoor::refund::{RefundError, RefundRegistry};
use ahjoor::rosca::{RoscaError, RoscaGroup};
use ahjoor::whitelist::TokenWhitelist;

const ADMIN: u64 = 1;
const ORIGIN: u64 = 2;
const ALICE: u64 = 3;
const BOB: u64 = 4;
const SHOP: u64 = 5;
const TOKEN: u64 = 6;

#[test]
fn registry_refusals() {
    let mut reg = RefundRegistry::initialize(ADMIN);
    assert_eq!(reg.add_refund_origin_contract(ALICE, ORIGIN), Err(RefundError::Unauthorized));
    assert_eq!(
        reg.register_cross_contract_refund(ORIGIN, 0, ALICE, SHOP, TOKEN, 10, 0),
        Err(RefundError::OriginNotAuthorized)
    );
    reg.add_refund_origin_contract(ADMIN, ORIGIN).unwrap();
    assert!(reg.is_refund_origin_contract(ORIGIN));
    assert_eq!(
        reg.register_cross_contract_refund(ORIGIN, 0, ALICE, SHOP, TOKEN, 0, 0),
        Err(RefundError::InvalidAmount)
    );
    reg.remove_refund_origin_contract(ADMIN, ORIGIN).unwrap();
    assert_eq!(
        reg.register_cross_contract_refund(ORIGIN, 0, ALICE, SHOP, TOKEN, 10, 0),
        Err(RefundError::OriginNotAuthorized)
    );
    assert_eq!(reg.get_refund(0), None);
}

#[test]
fn registry_pages_and_customer_index() {
    let mut reg = RefundRegistry::initialize(ADMIN);
    reg.add_refund_origin_contract(ADMIN, ORIGIN).unwrap();
    for i in 0..5u32 {
        let customer = if i % 2 == 0 { ALICE } else { BOB };
        let id = reg.register_cross_contract_refund(ORIGIN, i, customer, SHOP, TOKEN, 100 + i as i128, 7).unwrap();
        assert_eq!(id, i as u64);
    }
    let (page, total, more) = reg.get_cross_contract_refund_queue(2, 2);
    assert_eq!(total, 5);
    assert_eq!(page.iter().map(|r| r.id).collect::<Vec<_>>(), vec![2, 3]);
    assert!(more);
    let (page, _, more) = reg.get_cross_contract_refund_queue(4, 10);
    assert_eq!(page.len(), 1);
    assert!(!more);
    let (page, _, more) = reg.get_cross_contract_refund_queue(9, 10);
    assert!(page.is_empty());
    assert!(!more);

    assert_eq!(reg.get_refunds_by_customer(ALICE, 10, 0), vec![0, 2, 4]);
    assert_eq!(reg.get_refunds_by_customer(BOB, 10, 0), vec![1, 3]);
    assert_eq!(reg.get_refunds_by_customer(ALICE, 1, 1), vec![2]);
    assert_eq!(reg.get_refunds_by_customer(SHOP, 10, 0), Vec::<u64>::new());
}

#[test]
fn circle_refusals_and_single_payment_per_round() {
    assert_eq!(RoscaGroup::init(ADMIN, 9, vec![], 10, TOKEN).err(), Some(RoscaError::NoMembers));
    assert_eq!(RoscaGroup::init(ADMIN, 9, vec![ALICE], 0, TOKEN).err(), Some(RoscaError::InvalidAmount));

    let mut g = RoscaGroup::init(ADMIN, 9, vec![ALICE, BOB], 50, TOKEN).unwrap();
    assert_eq!(g.contribute(SHOP, TOKEN, 50, None, 1), Err(RoscaError::NotMember));
    assert_eq!(g.contribute(ALICE, SHOP, 50, None, 1), Err(RoscaError::WrongToken));
    assert_eq!(g.contribute(ALICE, TOKEN, 49, None, 1), Err(RoscaError::InvalidAmount));
    assert_eq!(g.contribute(ALICE, TOKEN, 50, None, 1), Ok(()));
    assert!(g.has_contributed(ALICE));
    assert!(!g.has_contributed(BOB));
    assert_eq!(g.contribute(ALICE, TOKEN, 50, None, 1), Err(RoscaError::AlreadyContributed));

    let mut whitelist = TokenWhitelist::initialize(ADMIN);
    assert_eq!(g.set_token_whitelist_contract(BOB, 8), Err(RoscaError::Unauthorized));
    g.set_token_whitelist_contract(ADMIN, 8).unwrap();
    assert_eq!(g.contribute(BOB, TOKEN, 50, None, 1), Err(RoscaError::WhitelistNotSupplied));
    assert_eq!(g.contribute(BOB, TOKEN, 50, Some(&whitelist), 1), Err(RoscaError::TokenNotAllowed));
    whitelist.add_token(ADMIN, TOKEN).unwrap();
    assert_eq!(g.contribute(BOB, TOKEN, 50, Some(&whitelist), 1), Ok(()));
    assert!(g.is_member(BOB));
}
