//! Laws of the whitelist as a gate for dependent contracts: once wired, a
//! token the whitelist denies cannot enter them, whatever the caller
//! supplies, while funds already inside move on.

use vstd::prelude::*;

use crate::escrow::{EscrowBookView, EscrowCreateRequest, EscrowError};
use crate::keys::Address;
use crate::rosca::{RoscaError, RoscaView};
use crate::whitelist::WhitelistView;

verus! {

/// With a whitelist wired, an escrow is created only when a whitelist was
/// supplied and it allows the token to the escrow contract; so while the
/// token is suspended in the supplied whitelist, and whenever none is
/// supplied, creation is refused.
pub proof fn law_wired_whitelist_gates_escrow_creation(
    v: EscrowBookView,
    req: EscrowCreateRequest,
    whitelist: Option<WhitelistView>,
    ledger: u32,
)
    requires
        v.whitelist is Some,
    ensures
        v.create_error(req, whitelist, ledger) is None ==> (whitelist matches Some(w)
            && w.allowed_for_contract(v.address, req.token, ledger)),
        whitelist is None ==> v.create_error(req, whitelist, ledger) is Some,
        whitelist matches Some(w) && w.suspended(req.token, ledger) ==> v.create_error(
            req,
            whitelist,
            ledger,
        ) is Some,
{
}

/// With a whitelist wired, a contribution is accepted only when a whitelist
/// was supplied and it allows the token to the group's contract; so while the
/// token is suspended, and whenever none is supplied, it is refused.
pub proof fn law_wired_whitelist_gates_contributions(
    g: RoscaView,
    member: Address,
    token: Address,
    amount: i128,
    whitelist: Option<WhitelistView>,
    ledger: u32,
)
    requires
        g.whitelist is Some,
    ensures
        g.contribute_error(member, token, amount, whitelist, ledger) is None ==> (whitelist matches Some(
            w,
        ) && w.allowed_for_contract(g.address, token, ledger)),
        whitelist is None ==> g.contribute_error(member, token, amount, whitelist, ledger) is Some,
        whitelist matches Some(w) && w.suspended(token, ledger) ==> g.contribute_error(
            member,
            token,
            amount,
            whitelist,
            ledger,
        ) is Some,
{
}

/// When the wired whitelist allows the token to the escrow contract, only the
/// request itself (amount, fee) or a full book can stop creation.
pub proof fn law_allowed_token_admits_valid_requests(
    v: EscrowBookView,
    w: WhitelistView,
    req: EscrowCreateRequest,
    ledger: u32,
)
    requires
        w.allowed_for_contract(v.address, req.token, ledger),
        req.amount > 0,
        req.arbiter_fee_bps matches Some(f) ==> f <= 10_000,
        v.escrows.len() < u32::MAX,
    ensures
        v.create_error(req, Some(w), ledger) is None,
{
}

/// A refusal for a missing whitelist is reported as such.
pub proof fn law_missing_whitelist_is_reported(v: EscrowBookView, req: EscrowCreateRequest, ledger: u32)
    requires
        v.whitelist is Some,
        req.amount > 0,
        req.arbiter_fee_bps matches Some(f) ==> f <= 10_000,
    ensures
        v.create_error(req, None, ledger) == Some(EscrowError::WhitelistNotSupplied),
{
}

/// Once paid, a member's second payment in the same round is refused as a
/// repeat.
pub proof fn law_one_contribution_per_round(
    g: RoscaView,
    member: Address,
    token: Address,
    amount: i128,
    whitelist: Option<WhitelistView>,
    ledger: u32,
    again_whitelist: Option<WhitelistView>,
    again_ledger: u32,
)
    requires
        g.contribute_error(member, token, amount, whitelist, ledger) is None,
    ensures
        (RoscaView { paid: g.paid.insert(member), ..g }).contribute_error(
            member,
            token,
            amount,
            again_whitelist,
            again_ledger,
        ) == Some(RoscaError::AlreadyContributed),
{
}

} // verus!
