//! Laws of escrow settlement: verdicts conserve the disputed amount, and a
//! settled escrow pays nothing more.

use vstd::prelude::*;

use crate::escrow::{
    pay_buyer, pay_seller, verdict_settlement, verdict_status, DisputeDefaultWinner, EscrowBookView,
    EscrowStatus,
};
use crate::keys::Address;
use crate::shares::{lemma_portion_bounds, lemma_portion_floor, spec_portion};

verus! {

/// A verdict pays out exactly the held amount, in non-negative parts: the
/// arbiter fee, the protocol fee, the buyer's share and the seller's share.
pub proof fn law_verdict_conserves_amount(amount: i128, arbiter_fee_bps: u32, protocol_fee_bps: u32, buyer_percent: u32)
    requires
        amount >= 0,
        arbiter_fee_bps <= 10_000,
        protocol_fee_bps <= 10_000,
        buyer_percent <= 100,
    ensures
        ({
            let s = verdict_settlement(amount, arbiter_fee_bps, protocol_fee_bps, buyer_percent);
            &&& s.buyer + s.seller + s.arbiter + s.protocol == amount
            &&& s.buyer >= 0 && s.seller >= 0 && s.arbiter >= 0 && s.protocol >= 0
        }),
{
    let a = spec_portion(amount as int, arbiter_fee_bps as int, 10_000);
    lemma_portion_bounds(amount as int, arbiter_fee_bps as int, 10_000);
    let p = spec_portion(amount - a, protocol_fee_bps as int, 10_000);
    lemma_portion_bounds(amount - a, protocol_fee_bps as int, 10_000);
    let rest = amount - a - p;
    lemma_portion_bounds(rest, buyer_percent as int, 100);
}

/// Each share of a verdict is its rounded-down proportion: the arbiter's fee
/// of the held amount (whatever the buyer's percent), the protocol fee of what
/// the arbiter fee leaves, and the buyer's percent of what both fees leave;
/// the seller receives the rest.
pub proof fn law_verdict_shares_are_proportions(
    amount: i128,
    arbiter_fee_bps: u32,
    protocol_fee_bps: u32,
    buyer_percent: u32,
    other_percent: u32,
)
    requires
        amount >= 0,
        arbiter_fee_bps <= 10_000,
        protocol_fee_bps <= 10_000,
        buyer_percent <= 100,
        other_percent <= 100,
    ensures
        ({
            let s = verdict_settlement(amount, arbiter_fee_bps, protocol_fee_bps, buyer_percent);
            let rest = amount - s.arbiter - s.protocol;
            &&& s.arbiter * 10_000 <= amount * arbiter_fee_bps < (s.arbiter + 1) * 10_000
            &&& s.protocol * 10_000 <= (amount - s.arbiter) * protocol_fee_bps < (s.protocol + 1)
                * 10_000
            &&& s.buyer * 100 <= rest * buyer_percent < (s.buyer + 1) * 100
            &&& s.seller == rest - s.buyer
            &&& s.arbiter == verdict_settlement(amount, arbiter_fee_bps, protocol_fee_bps, other_percent).arbiter
            &&& s.protocol == verdict_settlement(amount, arbiter_fee_bps, protocol_fee_bps, other_percent).protocol
        }),
{
    let a = spec_portion(amount as int, arbiter_fee_bps as int, 10_000);
    lemma_portion_bounds(amount as int, arbiter_fee_bps as int, 10_000);
    lemma_portion_floor(amount as int, arbiter_fee_bps as int, 10_000);
    let p = spec_portion(amount - a, protocol_fee_bps as int, 10_000);
    lemma_portion_bounds(amount - a, protocol_fee_bps as int, 10_000);
    lemma_portion_floor(amount - a, protocol_fee_bps as int, 10_000);
    let rest = amount - a - p;
    lemma_portion_bounds(rest, buyer_percent as int, 100);
    lemma_portion_floor(rest, buyer_percent as int, 100);
}

/// When the arbiter never rules, an escrow's own choice of winner decides who
/// is paid, whatever the book-wide default is; without its own choice the
/// book-wide default decides. The winner receives the whole held amount.
pub proof fn law_timeout_pays_own_winner(v: EscrowBookView, id: u32)
    requires
        v.contains(id),
    ensures
        ({
            let e = v.escrow(id);
            let s = if v.winner(id) == DisputeDefaultWinner::Buyer {
                pay_buyer(e.amount)
            } else {
                pay_seller(e.amount)
            };
            &&& e.dispute_default_winner == Some(DisputeDefaultWinner::Seller) ==> s.seller == e.amount
                && s.buyer == 0
            &&& e.dispute_default_winner == Some(DisputeDefaultWinner::Buyer) ==> s.buyer == e.amount
                && s.seller == 0
            &&& e.dispute_default_winner is None ==> (v.winner(id) == v.default_winner)
            &&& s.buyer + s.seller + s.arbiter + s.protocol == e.amount
        }),
{
}

/// An escrow's own dispute timeout, when it has one, is the time its arbiter
/// gets, whatever the book-wide timeout; otherwise the book-wide one applies.
pub proof fn law_own_timeout_sets_deadline(v: EscrowBookView, id: u32, now: u64)
    requires
        v.contains(id),
    ensures
        v.escrow(id).dispute_timeout_seconds matches Some(t) ==> now + v.timeout_of(id) == now + t,
        v.escrow(id).dispute_timeout_seconds is None ==> now + v.timeout_of(id) == now
            + v.dispute_timeout_seconds,
{
}

/// Without fees, a full buyer win returns the whole amount to the buyer and
/// a full seller win pays it all to the seller.
pub proof fn law_full_verdicts_without_fees(amount: i128)
    requires
        amount >= 0,
    ensures
        verdict_settlement(amount, 0, 0, 100).buyer == amount,
        verdict_settlement(amount, 0, 0, 100).seller == 0,
        verdict_settlement(amount, 0, 0, 0).seller == amount,
        verdict_settlement(amount, 0, 0, 0).buyer == 0,
        verdict_status(100) == EscrowStatus::Refunded,
        verdict_status(0) == EscrowStatus::Released,
{
    assert(amount * 0 == 0) by (nonlinear_arith);
    assert((amount * 100) / 100 == amount) by (nonlinear_arith);
    assert((0 * 10_000int) / 10_000 == 0);
}

/// A settled (resolved, refunded or released) escrow refuses every further
/// step, so it can pay out only once.
pub proof fn law_settled_escrow_is_final(
    v: EscrowBookView,
    id: u32,
    caller: Address,
    amount: i128,
    buyer_percent: u32,
    now: u64,
)
    requires
        v.contains(id),
        v.escrow(id).status == EscrowStatus::Resolved || v.escrow(id).status == EscrowStatus::Refunded
            || v.escrow(id).status == EscrowStatus::Released,
    ensures
        v.dispute_error(caller, id, amount) is Some,
        v.resolve_error(caller, id, buyer_percent, now) is Some,
        v.timeout_error(id, now) is Some,
        v.release_error(caller, id) is Some,
{
}

/// Disputing part of an escrow pays the seller the undisputed part and keeps
/// the disputed part held: together they are the amount held before.
pub proof fn law_partial_dispute_conserves(v: EscrowBookView, caller: Address, id: u32, disputed: i128)
    requires
        v.wf(),
        v.dispute_error(caller, id, disputed) is None,
    ensures
        crate::escrow::pay_seller((v.escrow(id).amount - disputed) as i128).seller + disputed == v.escrow(id).amount,
        crate::escrow::pay_seller((v.escrow(id).amount - disputed) as i128).seller >= 0,
{
}

} // verus!
