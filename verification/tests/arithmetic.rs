//! Exact values of the quorum test, shares and packed keys.

use ahjoor::keys::pair_key;
use ahjoor::shares::portion;
use ahjoor::tally::meets_quorum;

#[test]
fn quorum_boundary_is_inclusive() {
    assert!(meets_quorum(5_000, 10_000, 5_000));
    assert!(!meets_quorum(4_999, 10_000, 5_000));
    assert!(meets_quorum(600, 1_000, 5_000));
    assert!(!meets_quorum(400, 1_100, 5_000));
}

#[test]
fn quorum_needs_cast_votes() {
    assert!(!meets_quorum(0, 0, 0));
    assert!(meets_quorum(0, 5, 0));
}

#[test]
fn quorum_of_huge_tallies_does_not_overflow() {
    let total = u128::MAX / 2;
    assert!(meets_quorum(total, total, 10_000));
    assert!(meets_quorum(total / 2 + 1, total, 5_000));
    assert!(!meets_quorum(total / 2 - 1, total, 5_000));
}

#[test]
fn portion_rounds_down() {
    assert_eq!(portion(2_000, 250, 10_000), 50);
    assert_eq!(portion(7, 1, 2), 3);
    assert_eq!(portion(986, 60, 100), 591);
    assert_eq!(portion(0, 60, 100), 0);
}

#[test]
fn portion_of_largest_amount() {
    assert_eq!(portion(i128::MAX, 10_000, 10_000), i128::MAX);
    assert_eq!(portion(i128::MAX, 5_000, 10_000), i128::MAX / 2);
}

#[test]
fn pair_key_packs_high_and_low_halves() {
    assert_eq!(pair_key(1, 2), (1u128 << 64) + 2);
    assert_ne!(pair_key(1, 2), pair_key(2, 1));
    assert_eq!(pair_key(u64::MAX, u64::MAX), u128::MAX);
}
