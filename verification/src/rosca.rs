//! Contributions to a rotating savings circle, gated by the token whitelist.
//!
//! Each member pays the fixed contribution once per round in the group's
//! token. Once the admin has wired a token whitelist, a contribution is
//! refused unless that whitelist is supplied and allows the token to the
//! group's contract. The transfer itself is made by the caller. The
//! group tracks the current round only; payouts and round changes are not
//! part of this module.

use std::collections::HashSet;

use vstd::prelude::*;

use crate::keys::Address;
use crate::whitelist::{check_gate, gate, whitelist_view, TokenGate, TokenWhitelist, WhitelistView};

verus! {

broadcast use vstd::std_specs::hash::group_hash_axioms;

/// Why a savings-circle call was refused; a refused call changes nothing.
#[derive(Clone, Copy, Debug, PartialEq, Eq, Structural)]
pub enum RoscaError {
    /// A group needs at least one member.
    NoMembers,
    /// Contributions must be positive and equal to the group's contribution.
    InvalidAmount,
    NotMember,
    /// The payment is not in the group's token.
    WrongToken,
    AlreadyContributed,
    /// The whitelist denies the token to the group's contract.
    TokenNotAllowed,
    /// A whitelist is wired but was not supplied to be consulted.
    WhitelistNotSupplied,
    /// The caller is not the group's admin.
    Unauthorized,
}

/// The abstract state of a group.
pub struct RoscaView {
    pub admin: Address,
    pub address: Address,
    pub members: Seq<Address>,
    pub contribution: i128,
    pub token: Address,
    /// The token whitelist wired by the admin, if any.
    pub whitelist: Option<Address>,
    /// Members who have paid in the current round.
    pub paid: Set<Address>,
}

impl RoscaView {
    /// Why `member` may not pay `amount` of `token` at `ledger`, `whitelist`
    /// being the whitelist supplied to consult, if any.
    pub open spec fn contribute_error(
        self,
        member: Address,
        token: Address,
        amount: i128,
        whitelist: Option<WhitelistView>,
        ledger: u32,
    ) -> Option<RoscaError> {
        let g = gate(self.whitelist, whitelist, self.address, token, ledger);
        if !self.members.contains(member) {
            Some(RoscaError::NotMember)
        } else if token != self.token {
            Some(RoscaError::WrongToken)
        } else if amount != self.contribution {
            Some(RoscaError::InvalidAmount)
        } else if self.paid.contains(member) {
            Some(RoscaError::AlreadyContributed)
        } else if g == TokenGate::NotSupplied {
            Some(RoscaError::WhitelistNotSupplied)
        } else if g == TokenGate::Denied {
            Some(RoscaError::TokenNotAllowed)
        } else {
            None
        }
    }
}

/// A rotating savings circle.
pub struct RoscaGroup {
    admin: Address,
    address: Address,
    members: Vec<Address>,
    contribution: i128,
    token: Address,
    whitelist: Option<Address>,
    paid: HashSet<Address>,
}

impl View for RoscaGroup {
    type V = RoscaView;

    closed spec fn view(&self) -> RoscaView {
        RoscaView {
            admin: self.admin,
            address: self.address,
            members: self.members@,
            contribution: self.contribution,
            token: self.token,
            whitelist: self.whitelist,
            paid: self.paid@,
        }
    }
}

impl RoscaGroup {
    /// A group at contract `address` of `members` paying `contribution` of
    /// `token` each round, with nobody paid yet and no whitelist wired.
    pub fn init(
        admin: Address,
        address: Address,
        members: Vec<Address>,
        contribution: i128,
        token: Address,
    ) -> (r: Result<RoscaGroup, RoscaError>)
        ensures
            match r {
                Ok(g) => {
                    &&& members@.len() > 0 && contribution > 0
                    &&& g@ == (RoscaView {
                        admin,
                        address,
                        members: members@,
                        contribution,
                        token,
                        whitelist: None,
                        paid: Set::empty(),
                    })
                },
                Err(e) => if members@.len() == 0 {
                    e == RoscaError::NoMembers
                } else {
                    contribution <= 0 && e == RoscaError::InvalidAmount
                },
            },
    {
        if members.len() == 0 {
            return Err(RoscaError::NoMembers);
        }
        if contribution <= 0 {
            return Err(RoscaError::InvalidAmount);
        }
        Ok(RoscaGroup { admin, address, members, contribution, token, whitelist: None, paid: HashSet::new() })
    }

    /// Wires the token whitelist at `whitelist` (admin only); from then on
    /// every contribution must be allowed by it.
    pub fn set_token_whitelist_contract(&mut self, caller: Address, whitelist: Address) -> (r: Result<(), RoscaError>)
        ensures
            r is Ok <==> caller == old(self)@.admin,
            r is Ok ==> final(self)@ == (RoscaView { whitelist: Some(whitelist), ..old(self)@ }),
            r is Err ==> r == Err::<(), RoscaError>(RoscaError::Unauthorized) && final(self)@ == old(self)@,
    {
        if caller != self.admin {
            return Err(RoscaError::Unauthorized);
        }
        self.whitelist = Some(whitelist);
        Ok(())
    }

    /// Whether `who` is a member.
    pub fn is_member(&self, who: Address) -> (b: bool)
        ensures
            b == self@.members.contains(who),
    {
        let n = self.members.len();
        let mut i: usize = 0;
        while i < n
            invariant
                n == self.members@.len(),
                i <= n,
                forall|j: int| 0 <= j < i ==> self.members@[j] != who,
            decreases n - i,
        {
            if self.members[i] == who {
                assert(self.members@[i as int] == who);
                return true;
            }
            i += 1;
        }
        false
    }

    /// `member` pays `amount` of `token` for the current round. When a
    /// whitelist is wired, `whitelist` must be it and must allow the token to
    /// the group's contract at `ledger`; when none is wired, `whitelist` is
    /// not consulted.
    pub fn contribute(
        &mut self,
        member: Address,
        token: Address,
        amount: i128,
        whitelist: Option<&TokenWhitelist>,
        ledger: u32,
    ) -> (r: Result<(), RoscaError>)
        ensures
            ({
                let wl = whitelist_view(whitelist);
                match r {
                    Ok(()) => old(self)@.contribute_error(member, token, amount, wl, ledger) is None
                        && final(self)@ == (RoscaView { paid: old(self)@.paid.insert(member), ..old(self)@ }),
                    Err(e) => old(self)@.contribute_error(member, token, amount, wl, ledger) == Some(e)
                        && final(self)@ == old(self)@,
                }
            }),
    {
        if !self.is_member(member) {
            return Err(RoscaError::NotMember);
        }
        if token != self.token {
            return Err(RoscaError::WrongToken);
        }
        if amount != self.contribution {
            return Err(RoscaError::InvalidAmount);
        }
        if self.paid.contains(&member) {
            return Err(RoscaError::AlreadyContributed);
        }
        match check_gate(self.whitelist, whitelist, self.address, token, ledger) {
            TokenGate::Open => {},
            TokenGate::NotSupplied => {
                return Err(RoscaError::WhitelistNotSupplied);
            },
            TokenGate::Denied => {
                return Err(RoscaError::TokenNotAllowed);
            },
        }
        self.paid.insert(member);
        Ok(())
    }

    /// Whether `member` has paid in the current round.
    pub fn has_contributed(&self, member: Address) -> (b: bool)
        ensures
            b == self@.paid.contains(member),
    {
        self.paid.contains(&member)
    }
}

} // verus!
