//! Laws of token access: how suspensions, per-contract entries and the
//! global whitelist combine, and what each kind of change leaves alone.

use vstd::prelude::*;

use crate::keys::Address;
use crate::whitelist::{ContractAllowlistEntry, TokenSuspension, WhitelistView};

verus! {

/// An active suspension denies a token to every contract, whatever entry the
/// contract holds, and denies it globally.
pub proof fn law_suspension_overrides_every_entry(v: WhitelistView, contract: Address, token: Address, now: u32)
    requires
        v.suspended(token, now),
    ensures
        !v.allowed_for_contract(contract, token, now),
        !v.allowed(token, now),
{
}

/// Absent a suspension, a live per-contract entry allows the token for that
/// contract even when the token is not globally whitelisted.
pub proof fn law_live_entry_allows(v: WhitelistView, contract: Address, token: Address, now: u32)
    requires
        v.has_live_entry(contract, token, now),
        !v.suspended(token, now),
    ensures
        v.allowed_for_contract(contract, token, now),
{
}

/// Without a live entry (none stored, or expired), the per-contract check
/// falls back to the global check.
pub proof fn law_fallback_to_global(v: WhitelistView, contract: Address, token: Address, now: u32)
    requires
        !v.has_live_entry(contract, token, now),
    ensures
        v.allowed_for_contract(contract, token, now) == v.allowed(token, now),
{
}

/// A permanent entry is live at every ledger.
pub proof fn law_permanent_entry_never_expires(v: WhitelistView, contract: Address, token: Address, now: u32)
    requires
        v.entries.contains_key((contract, token)),
        v.entries[(contract, token)].expiry_ledger is None,
    ensures
        v.has_live_entry(contract, token, now),
{
}

/// A time-bounded entry applies up to its expiry ledger and not after it.
pub proof fn law_bounded_entry_expires(v: WhitelistView, contract: Address, token: Address, expiry: u32, now: u32)
    requires
        v.entries.contains_key((contract, token)),
        v.entries[(contract, token)].expiry_ledger == Some(expiry),
    ensures
        v.has_live_entry(contract, token, now) <==> now <= expiry,
{
}

/// The per-contract rule in full: a token is allowed to a contract exactly
/// when it has no active suspension and either the contract holds an entry
/// for it that is permanent or whose expiry ledger has not yet passed, or the
/// token is globally whitelisted.
pub proof fn law_contract_access_rule(v: WhitelistView, contract: Address, token: Address, now: u32)
    ensures
        v.allowed_for_contract(contract, token, now) == (!v.suspended(token, now) && ((
        v.entries.contains_key((contract, token)) && (v.entries[(contract, token)].expiry_ledger is None
            || now <= v.entries[(contract, token)].expiry_ledger->0)) || v.allowed(token, now))),
{
}

/// Setting or replacing one contract's entry for one token changes the access
/// of no other (contract, token) pair, and never the global check.
pub proof fn law_entry_change_is_isolated(
    v: WhitelistView,
    contract: Address,
    token: Address,
    e: ContractAllowlistEntry,
    other_contract: Address,
    other_token: Address,
    now: u32,
)
    requires
        (other_contract, other_token) != (contract, token),
    ensures
        ({
            let w = WhitelistView { entries: v.entries.insert((contract, token), e), ..v };
            &&& w.allowed_for_contract(other_contract, other_token, now) == v.allowed_for_contract(
                other_contract,
                other_token,
                now,
            )
            &&& w.allowed(other_token, now) == v.allowed(other_token, now)
            &&& w.allowed(token, now) == v.allowed(token, now)
        }),
{
}

/// Removing a contract's entry leaves the global whitelist, and every other
/// pair's access, as it was; the contract then gets the global answer.
pub proof fn law_entry_removal_falls_back(
    v: WhitelistView,
    contract: Address,
    token: Address,
    other_contract: Address,
    other_token: Address,
    now: u32,
)
    requires
        (other_contract, other_token) != (contract, token),
    ensures
        ({
            let w = WhitelistView { entries: v.entries.remove((contract, token)), ..v };
            &&& w.tokens == v.tokens
            &&& w.allowed_for_contract(contract, token, now) == v.allowed(token, now)
            &&& w.allowed_for_contract(other_contract, other_token, now) == v.allowed_for_contract(
                other_contract,
                other_token,
                now,
            )
        }),
{
}

/// Removing a token from the global whitelist leaves every live per-contract
/// entry for it in force.
pub proof fn law_global_removal_keeps_entries(v: WhitelistView, contract: Address, token: Address, now: u32)
    requires
        v.has_live_entry(contract, token, now),
        !v.suspended(token, now),
    ensures
        ({
            let w = WhitelistView { tokens: v.tokens.remove(token), ..v };
            &&& w.allowed_for_contract(contract, token, now)
            &&& !w.allowed(token, now)
        }),
{
}

/// Lifting a suspension restores whatever access the entries and the global
/// whitelist give.
pub proof fn law_lifting_restores_access(v: WhitelistView, contract: Address, token: Address, now: u32)
    ensures
        ({
            let w = WhitelistView { suspensions: v.suspensions.remove(token), ..v };
            &&& w.allowed_for_contract(contract, token, now) == (v.has_live_entry(contract, token, now)
                || v.tokens.contains(token))
            &&& w.allowed(token, now) == v.tokens.contains(token)
        }),
{
}

/// A suspension of `duration` ledgers set at `now` is in force for exactly
/// the ledgers `now .. now + duration`.
pub proof fn law_timed_suspension_window(
    v: WhitelistView,
    token: Address,
    duration: u32,
    reason_hash: [u8; 32],
    now: u32,
    later: u32,
)
    ensures
        ({
            let w = WhitelistView {
                suspensions: v.suspensions.insert(
                    token,
                    TokenSuspension { suspended_at: now, expires_at: (now + duration) as u64, reason_hash },
                ),
                ..v
            };
            w.suspended(token, later) <==> later < now + duration
        }),
{
}

/// After a two-step hand-over to a different account, the former admin fails
/// every admin check and the new admin passes it.
pub proof fn law_handover_replaces_admin(v: WhitelistView, new_admin: Address)
    requires
        new_admin != v.admin,
    ensures
        ({
            let proposed = WhitelistView { pending_admin: Some(new_admin), ..v };
            let accepted = WhitelistView { admin: new_admin, pending_admin: None, ..proposed };
            &&& crate::whitelist::admin_outcome(accepted, v.admin) is Err
            &&& crate::whitelist::admin_outcome(accepted, new_admin) is Ok
        }),
{
}

} // verus!
