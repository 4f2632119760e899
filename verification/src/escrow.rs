//! Escrows held for a buyer until release or a dispute verdict.
//!
//! The book records escrows and decides who is paid what; moving the tokens
//! is left to the caller, which pays out the returned `Settlement` (and, on
//! creation, takes the deposit from the buyer). Once the admin has wired a
//! token whitelist, new escrows are refused unless that whitelist is supplied
//! and allows the token to this escrow contract; release and dispute
//! settlement of existing escrows never consult the whitelist.

use std::collections::HashMap;

use vstd::prelude::*;

use crate::keys::Address;
use crate::shares::{portion, spec_portion};
use crate::whitelist::{check_gate, gate, whitelist_view, TokenGate, TokenWhitelist, WhitelistView};

verus! {

broadcast use vstd::std_specs::hash::group_hash_axioms;

/// Seconds an arbiter has to rule on a dispute unless configured otherwise.
pub const DEFAULT_DISPUTE_TIMEOUT_SECONDS: u64 = 604_800;

/// Where an escrow stands.
#[derive(Clone, Copy, Debug, PartialEq, Eq, Structural)]
pub enum EscrowStatus {
    Active,
    /// The whole amount is in dispute.
    Disputed,
    /// Part of the amount is in dispute; the rest went to the seller.
    PartiallyDisputed,
    /// A split verdict was executed.
    Resolved,
    /// The buyer got everything back.
    Refunded,
    /// The seller got everything.
    Released,
}

/// Who receives a disputed amount when the arbiter never rules.
#[derive(Clone, Copy, Debug, PartialEq, Eq, Structural)]
pub enum DisputeDefaultWinner {
    Buyer,
    Seller,
}

/// The terms of a new escrow.
#[derive(Clone, Copy, Debug)]
pub struct EscrowCreateRequest {
    pub seller: Address,
    pub arbiter: Address,
    pub amount: i128,
    pub token: Address,
    pub deadline: u64,
    /// The arbiter's fee on a verdict, in basis points (none: no fee).
    pub arbiter_fee_bps: Option<u32>,
    /// Overrides the book-wide default winner for this escrow.
    pub dispute_default_winner: Option<DisputeDefaultWinner>,
    /// Overrides the book-wide time the arbiter has to rule, in seconds.
    pub dispute_timeout_seconds: Option<u64>,
}

/// One escrow.
#[derive(Clone, Copy, Debug)]
pub struct Escrow {
    pub id: u32,
    pub buyer: Address,
    pub seller: Address,
    pub arbiter: Address,
    pub token: Address,
    /// The amount still held (after a partial dispute, the disputed part).
    pub amount: i128,
    /// The deadline agreed at creation; kept for the parties' records, no
    /// step of this book reads it.
    pub deadline: u64,
    pub arbiter_fee_bps: u32,
    pub dispute_default_winner: Option<DisputeDefaultWinner>,
    pub dispute_timeout_seconds: Option<u64>,
    pub status: EscrowStatus,
    /// The last second at which the arbiter may rule (0 before any dispute).
    pub dispute_deadline: u64,
}

/// What a step pays out of the escrow, to each party.
#[derive(Clone, Copy, Debug, PartialEq, Eq, Structural)]
pub struct Settlement {
    pub buyer: i128,
    pub seller: i128,
    pub arbiter: i128,
    /// Paid to the book's fee recipient.
    pub protocol: i128,
}

/// Why an escrow call was refused; a refused call changes nothing.
#[derive(Clone, Copy, Debug, PartialEq, Eq, Structural)]
pub enum EscrowError {
    Unauthorized,
    InvalidAmount,
    InvalidFee,
    /// A verdict's buyer share must be between 0 and 100 percent.
    InvalidPercent,
    /// The whitelist denies the token to this escrow contract.
    TokenNotAllowed,
    /// A whitelist is wired but was not supplied to be consulted.
    WhitelistNotSupplied,
    EscrowNotFound,
    /// The escrow is not in a state that allows this step.
    InvalidStatus,
    DisputeDeadlinePassed,
    DisputeDeadlineNotReached,
    Overflow,
}

/// The abstract state of an escrow book.
pub struct EscrowBookView {
    pub admin: Address,
    /// This escrow contract's own address, as the whitelist knows it.
    pub address: Address,
    pub protocol_fee_bps: u32,
    pub fee_recipient: Address,
    pub default_winner: DisputeDefaultWinner,
    pub dispute_timeout_seconds: u64,
    /// The token whitelist wired by the admin, if any.
    pub whitelist: Option<Address>,
    pub escrows: Seq<Escrow>,
    /// How many disputes each arbiter let time out.
    pub arbiter_timeouts: Map<Address, u64>,
}

/// A settlement paying `amount` to one side.
pub open spec fn pay_buyer(amount: i128) -> Settlement {
    Settlement { buyer: amount, seller: 0, arbiter: 0, protocol: 0 }
}

pub open spec fn pay_seller(amount: i128) -> Settlement {
    Settlement { buyer: 0, seller: amount, arbiter: 0, protocol: 0 }
}

/// A verdict's settlement: the arbiter fee comes off first, then the protocol
/// fee off the rest, and the remainder is split `buyer_percent` to the buyer
/// (rounded down) and the rest to the seller.
pub open spec fn verdict_settlement(amount: i128, arbiter_fee_bps: u32, protocol_fee_bps: u32, buyer_percent: u32) -> Settlement {
    let arbiter = spec_portion(amount as int, arbiter_fee_bps as int, 10_000);
    let protocol = spec_portion(amount - arbiter, protocol_fee_bps as int, 10_000);
    let rest = amount - arbiter - protocol;
    let buyer = spec_portion(rest, buyer_percent as int, 100);
    Settlement {
        buyer: buyer as i128,
        seller: (rest - buyer) as i128,
        arbiter: arbiter as i128,
        protocol: protocol as i128,
    }
}

/// The status a verdict leaves.
pub open spec fn verdict_status(buyer_percent: u32) -> EscrowStatus {
    if buyer_percent == 100 {
        EscrowStatus::Refunded
    } else if buyer_percent == 0 {
        EscrowStatus::Released
    } else {
        EscrowStatus::Resolved
    }
}

/// An escrow under dispute, fully or partially.
pub open spec fn in_dispute(e: Escrow) -> bool {
    e.status == EscrowStatus::Disputed || e.status == EscrowStatus::PartiallyDisputed
}

impl EscrowBookView {
    pub open spec fn wf(self) -> bool {
        &&& self.protocol_fee_bps <= 10_000
        &&& self.escrows.len() <= u32::MAX
        &&& forall|i: int|
            0 <= i < self.escrows.len() ==> {
                &&& (#[trigger] self.escrows[i]).id == i
                &&& self.escrows[i].amount > 0
                &&& self.escrows[i].arbiter_fee_bps <= 10_000
            }
    }

    pub open spec fn contains(self, id: u32) -> bool {
        id < self.escrows.len()
    }

    pub open spec fn escrow(self, id: u32) -> Escrow {
        self.escrows[id as int]
    }

    /// The book with escrow `id` replaced by `e`.
    pub open spec fn with_escrow(self, id: u32, e: Escrow) -> EscrowBookView {
        EscrowBookView { escrows: self.escrows.update(id as int, e), ..self }
    }

    /// Why creating an escrow on `req` at `ledger` is refused, `whitelist`
    /// being the whitelist supplied to consult, if any.
    pub open spec fn create_error(self, req: EscrowCreateRequest, whitelist: Option<WhitelistView>, ledger: u32) -> Option<EscrowError> {
        let g = gate(self.whitelist, whitelist, self.address, req.token, ledger);
        if req.amount <= 0 {
            Some(EscrowError::InvalidAmount)
        } else if req.arbiter_fee_bps matches Some(f) && f > 10_000 {
            Some(EscrowError::InvalidFee)
        } else if g == TokenGate::NotSupplied {
            Some(EscrowError::WhitelistNotSupplied)
        } else if g == TokenGate::Denied {
            Some(EscrowError::TokenNotAllowed)
        } else if self.escrows.len() == u32::MAX {
            Some(EscrowError::Overflow)
        } else {
            None
        }
    }

    /// Why `caller` may not dispute `dispute_amount` of escrow `id`.
    pub open spec fn dispute_error(self, caller: Address, id: u32, dispute_amount: i128) -> Option<EscrowError> {
        if !self.contains(id) {
            Some(EscrowError::EscrowNotFound)
        } else if caller != self.escrow(id).buyer && caller != self.escrow(id).seller {
            Some(EscrowError::Unauthorized)
        } else if self.escrow(id).status != EscrowStatus::Active {
            Some(EscrowError::InvalidStatus)
        } else if dispute_amount <= 0 || dispute_amount > self.escrow(id).amount {
            Some(EscrowError::InvalidAmount)
        } else {
            None
        }
    }

    /// Why `caller` may not rule `buyer_percent` on escrow `id` at `now`.
    pub open spec fn resolve_error(self, caller: Address, id: u32, buyer_percent: u32, now: u64) -> Option<EscrowError> {
        if !self.contains(id) {
            Some(EscrowError::EscrowNotFound)
        } else if caller != self.escrow(id).arbiter {
            Some(EscrowError::Unauthorized)
        } else if !in_dispute(self.escrow(id)) {
            Some(EscrowError::InvalidStatus)
        } else if buyer_percent > 100 {
            Some(EscrowError::InvalidPercent)
        } else if now > self.escrow(id).dispute_deadline {
            Some(EscrowError::DisputeDeadlinePassed)
        } else {
            None
        }
    }

    /// Why the timeout fallback cannot run on escrow `id` at `now`.
    pub open spec fn timeout_error(self, id: u32, now: u64) -> Option<EscrowError> {
        if !self.contains(id) {
            Some(EscrowError::EscrowNotFound)
        } else if !in_dispute(self.escrow(id)) {
            Some(EscrowError::InvalidStatus)
        } else if now <= self.escrow(id).dispute_deadline {
            Some(EscrowError::DisputeDeadlineNotReached)
        } else if self.arbiter_timeouts.contains_key(self.escrow(id).arbiter)
            && self.arbiter_timeouts[self.escrow(id).arbiter] == u64::MAX {
            Some(EscrowError::Overflow)
        } else {
            None
        }
    }

    /// How long the arbiter of escrow `id` has to rule once it is disputed.
    pub open spec fn timeout_of(self, id: u32) -> u64 {
        match self.escrow(id).dispute_timeout_seconds {
            Some(t) => t,
            None => self.dispute_timeout_seconds,
        }
    }

    /// The winner of escrow `id` when its arbiter never rules.
    pub open spec fn winner(self, id: u32) -> DisputeDefaultWinner {
        match self.escrow(id).dispute_default_winner {
            Some(w) => w,
            None => self.default_winner,
        }
    }

    /// The number of timeouts recorded against `arbiter`.
    pub open spec fn timeouts(self, arbiter: Address) -> u64 {
        if self.arbiter_timeouts.contains_key(arbiter) {
            self.arbiter_timeouts[arbiter]
        } else {
            0
        }
    }

    /// Why `caller` may not release escrow `id`.
    pub open spec fn release_error(self, caller: Address, id: u32) -> Option<EscrowError> {
        if !self.contains(id) {
            Some(EscrowError::EscrowNotFound)
        } else if caller != self.escrow(id).buyer {
            Some(EscrowError::Unauthorized)
        } else if self.escrow(id).status != EscrowStatus::Active {
            Some(EscrowError::InvalidStatus)
        } else {
            None
        }
    }
}

/// The escrow contract state.
pub struct EscrowBook {
    admin: Address,
    address: Address,
    protocol_fee_bps: u32,
    fee_recipient: Address,
    default_winner: DisputeDefaultWinner,
    dispute_timeout_seconds: u64,
    whitelist: Option<Address>,
    escrows: Vec<Escrow>,
    arbiter_timeouts: HashMap<Address, u64>,
}

impl View for EscrowBook {
    type V = EscrowBookView;

    closed spec fn view(&self) -> EscrowBookView {
        EscrowBookView {
            admin: self.admin,
            address: self.address,
            protocol_fee_bps: self.protocol_fee_bps,
            fee_recipient: self.fee_recipient,
            default_winner: self.default_winner,
            dispute_timeout_seconds: self.dispute_timeout_seconds,
            whitelist: self.whitelist,
            escrows: self.escrows@,
            arbiter_timeouts: self.arbiter_timeouts@,
        }
    }
}

impl EscrowBook {
    /// An empty book for the escrow contract at `address`, administered by
    /// `admin`: no protocol fee (paid to the admin if set), buyers win
    /// unruled disputes, arbiters have the default week to rule, and no
    /// whitelist is wired.
    pub fn initialize(admin: Address, address: Address) -> (b: EscrowBook)
        ensures
            b@.wf(),
            b@.admin == admin,
            b@.address == address,
            b@.protocol_fee_bps == 0,
            b@.fee_recipient == admin,
            b@.default_winner == DisputeDefaultWinner::Buyer,
            b@.dispute_timeout_seconds == DEFAULT_DISPUTE_TIMEOUT_SECONDS,
            b@.whitelist is None,
            b@.escrows == Seq::<Escrow>::empty(),
            b@.arbiter_timeouts == Map::<Address, u64>::empty(),
    {
        EscrowBook {
            admin,
            address,
            protocol_fee_bps: 0,
            fee_recipient: admin,
            default_winner: DisputeDefaultWinner::Buyer,
            dispute_timeout_seconds: DEFAULT_DISPUTE_TIMEOUT_SECONDS,
            whitelist: None,
            escrows: Vec::new(),
            arbiter_timeouts: HashMap::new(),
        }
    }

    /// Sets the protocol fee on verdicts and who receives it (admin only).
    pub fn set_protocol_fee(&mut self, caller: Address, bps: u32, recipient: Address) -> (r: Result<(), EscrowError>)
        requires
            old(self)@.wf(),
        ensures
            final(self)@.wf(),
            r == (if caller != old(self)@.admin {
                Err(EscrowError::Unauthorized)
            } else if bps > 10_000 {
                Err(EscrowError::InvalidFee)
            } else {
                Ok(())
            }),
            r is Ok ==> final(self)@ == (EscrowBookView { protocol_fee_bps: bps, fee_recipient: recipient, ..old(self)@ }),
            r is Err ==> final(self)@ == old(self)@,
    {
        if caller != self.admin {
            return Err(EscrowError::Unauthorized);
        }
        if bps > 10_000 {
            return Err(EscrowError::InvalidFee);
        }
        self.protocol_fee_bps = bps;
        self.fee_recipient = recipient;
        Ok(())
    }

    /// Sets who wins disputes that time out, for escrows without their own
    /// choice (admin only).
    pub fn set_default_dispute_winner(&mut self, caller: Address, winner: DisputeDefaultWinner) -> (r: Result<(), EscrowError>)
        requires
            old(self)@.wf(),
        ensures
            final(self)@.wf(),
            r is Ok <==> caller == old(self)@.admin,
            r is Ok ==> final(self)@ == (EscrowBookView { default_winner: winner, ..old(self)@ }),
            r is Err ==> r == Err::<(), EscrowError>(EscrowError::Unauthorized) && final(self)@ == old(self)@,
    {
        if caller != self.admin {
            return Err(EscrowError::Unauthorized);
        }
        self.default_winner = winner;
        Ok(())
    }

    /// Sets how long arbiters have to rule on new disputes (admin only).
    pub fn update_default_dispute_timeout(&mut self, caller: Address, seconds: u64) -> (r: Result<(), EscrowError>)
        requires
            old(self)@.wf(),
        ensures
            final(self)@.wf(),
            r is Ok <==> caller == old(self)@.admin,
            r is Ok ==> final(self)@ == (EscrowBookView { dispute_timeout_seconds: seconds, ..old(self)@ }),
            r is Err ==> r == Err::<(), EscrowError>(EscrowError::Unauthorized) && final(self)@ == old(self)@,
    {
        if caller != self.admin {
            return Err(EscrowError::Unauthorized);
        }
        self.dispute_timeout_seconds = seconds;
        Ok(())
    }

    /// Wires the token whitelist at `whitelist` (admin only); from then on
    /// every new escrow must be allowed by it.
    pub fn set_token_whitelist_contract(&mut self, caller: Address, whitelist: Address) -> (r: Result<(), EscrowError>)
        requires
            old(self)@.wf(),
        ensures
            final(self)@.wf(),
            r is Ok <==> caller == old(self)@.admin,
            r is Ok ==> final(self)@ == (EscrowBookView { whitelist: Some(whitelist), ..old(self)@ }),
            r is Err ==> r == Err::<(), EscrowError>(EscrowError::Unauthorized) && final(self)@ == old(self)@,
    {
        if caller != self.admin {
            return Err(EscrowError::Unauthorized);
        }
        self.whitelist = Some(whitelist);
        Ok(())
    }

    /// The wired token whitelist, if any.
    pub fn token_whitelist_contract(&self) -> (w: Option<Address>)
        ensures
            w == self@.whitelist,
    {
        self.whitelist
    }

    /// Escrow `id`, if it exists.
    pub fn get_escrow(&self, id: u32) -> (e: Option<Escrow>)
        ensures
            e == (if self@.contains(id) {
                Some(self@.escrow(id))
            } else {
                None
            }),
    {
        if (id as usize) < self.escrows.len() {
            Some(self.escrows[id as usize])
        } else {
            None
        }
    }

    /// The number of disputes `arbiter` let time out.
    pub fn get_arbiter_timeout_count(&self, arbiter: Address) -> (n: u64)
        ensures
            n == self@.timeouts(arbiter),
    {
        match self.arbiter_timeouts.get(&arbiter) {
            Some(n) => *n,
            None => 0,
        }
    }

    /// Opens an escrow of `req.amount` for `buyer`, whose deposit the caller
    /// collects on success. When a whitelist is wired, `whitelist` must be
    /// it and must allow the token to this escrow contract at ledger
    /// `ledger`; when none is wired, `whitelist` is not consulted. Returns the
    /// escrow id.
    pub fn create_escrow_v2(
        &mut self,
        buyer: Address,
        req: EscrowCreateRequest,
        whitelist: Option<&TokenWhitelist>,
        ledger: u32,
    ) -> (r: Result<u32, EscrowError>)
        requires
            old(self)@.wf(),
        ensures
            final(self)@.wf(),
            ({
                let wl = whitelist_view(whitelist);
                match r {
                    Ok(id) => {
                        &&& old(self)@.create_error(req, wl, ledger) is None
                        &&& id == old(self)@.escrows.len()
                        &&& final(self)@ == (EscrowBookView {
                            escrows: old(self)@.escrows.push(
                                Escrow {
                                    id,
                                    buyer,
                                    seller: req.seller,
                                    arbiter: req.arbiter,
                                    token: req.token,
                                    amount: req.amount,
                                    deadline: req.deadline,
                                    arbiter_fee_bps: match req.arbiter_fee_bps {
                                        Some(f) => f,
                                        None => 0,
                                    },
                                    dispute_default_winner: req.dispute_default_winner,
                                    dispute_timeout_seconds: req.dispute_timeout_seconds,
                                    status: EscrowStatus::Active,
                                    dispute_deadline: 0,
                                },
                            ),
                            ..old(self)@
                        })
                    },
                    Err(e) => old(self)@.create_error(req, wl, ledger) == Some(e) && final(self)@ == old(self)@,
                }
            }),
    {
        if req.amount <= 0 {
            return Err(EscrowError::InvalidAmount);
        }
        let fee = match req.arbiter_fee_bps {
            Some(f) => f,
            None => 0,
        };
        if fee > 10_000 {
            return Err(EscrowError::InvalidFee);
        }
        match check_gate(self.whitelist, whitelist, self.address, req.token, ledger) {
            TokenGate::Open => {},
            TokenGate::NotSupplied => {
                return Err(EscrowError::WhitelistNotSupplied);
            },
            TokenGate::Denied => {
                return Err(EscrowError::TokenNotAllowed);
            },
        }
        let n = self.escrows.len();
        if n >= 0xffff_ffffusize {
            return Err(EscrowError::Overflow);
        }
        let id = n as u32;
        let e = Escrow {
            id,
            buyer,
            seller: req.seller,
            arbiter: req.arbiter,
            token: req.token,
            amount: req.amount,
            deadline: req.deadline,
            arbiter_fee_bps: fee,
            dispute_default_winner: req.dispute_default_winner,
            dispute_timeout_seconds: req.dispute_timeout_seconds,
            status: EscrowStatus::Active,
            dispute_deadline: 0,
        };
        let ghost before = self@;
        self.escrows.push(e);
        proof {
            assert forall|i: int| 0 <= i < self@.escrows.len() implies (#[trigger] self@.escrows[i]).id
                == i && self@.escrows[i].amount > 0 && self@.escrows[i].arbiter_fee_bps <= 10_000 by {
                if i < before.escrows.len() {
                    assert(self@.escrows[i] == before.escrows[i]);
                }
            }
        }
        Ok(id)
    }

    fn replace(&mut self, id: u32, e: Escrow)
        requires
            old(self)@.wf(),
            old(self)@.contains(id),
            e.id == id,
            e.amount > 0,
            e.arbiter_fee_bps <= 10_000,
        ensures
            final(self)@.wf(),
            final(self)@ == old(self)@.with_escrow(id, e),
    {
        let ghost before = self@;
        self.escrows.set(id as usize, e);
        proof {
            assert forall|i: int| 0 <= i < self@.escrows.len() implies (#[trigger] self@.escrows[i]).id
                == i && self@.escrows[i].amount > 0 && self@.escrows[i].arbiter_fee_bps <= 10_000 by {
                if i != id {
                    assert(self@.escrows[i] == before.escrows[i]);
                }
            }
            assert(self@.escrows =~= before.with_escrow(id, e).escrows);
        }
    }

    /// The buyer or seller disputes `dispute_amount` of active escrow `id` at
    /// time `now`. Disputing everything moves it to `Disputed`; disputing
    /// less pays the undisputed rest to the seller at once and moves it to
    /// `PartiallyDisputed`. Either way the arbiter may rule until `now` plus
    /// the escrow's own dispute timeout, or the book's when it has none.
    pub fn dispute_escrow(
        &mut self,
        caller: Address,
        id: u32,
        _reason: &str,
        dispute_amount: i128,
        now: u64,
    ) -> (r: Result<Settlement, EscrowError>)
        requires
            old(self)@.wf(),
        ensures
            final(self)@.wf(),
            match r {
                Ok(s) => {
                    let e = old(self)@.escrow(id);
                    let full = dispute_amount == e.amount;
                    &&& old(self)@.dispute_error(caller, id, dispute_amount) is None
                    &&& s == pay_seller((e.amount - dispute_amount) as i128)
                    &&& final(self)@ == old(self)@.with_escrow(
                        id,
                        Escrow {
                            amount: dispute_amount,
                            status: if full {
                                EscrowStatus::Disputed
                            } else {
                                EscrowStatus::PartiallyDisputed
                            },
                            dispute_deadline: (now + old(self)@.timeout_of(id)) as u64,
                            ..e
                        },
                    )
                    &&& now + old(self)@.timeout_of(id) <= u64::MAX
                },
                Err(err) => final(self)@ == old(self)@ && if old(self)@.dispute_error(caller, id, dispute_amount) is Some {
                    old(self)@.dispute_error(caller, id, dispute_amount) == Some(err)
                } else {
                    err == EscrowError::Overflow && now + old(self)@.timeout_of(id) > u64::MAX
                },
            },
            // The deadline is `now` plus the escrow's own timeout, or the
            // book-wide one when the escrow has none.
            r is Ok ==> final(self)@.escrows[id as int].dispute_deadline == now + match old(
                self,
            )@.escrows[id as int].dispute_timeout_seconds {
                Some(t) => t,
                None => old(self)@.dispute_timeout_seconds,
            },
    {
        if id as usize >= self.escrows.len() {
            return Err(EscrowError::EscrowNotFound);
        }
        let e = self.escrows[id as usize];
        if caller != e.buyer && caller != e.seller {
            return Err(EscrowError::Unauthorized);
        }
        match e.status {
            EscrowStatus::Active => {},
            _ => {
                return Err(EscrowError::InvalidStatus);
            },
        }
        if dispute_amount <= 0 || dispute_amount > e.amount {
            return Err(EscrowError::InvalidAmount);
        }
        let timeout = match e.dispute_timeout_seconds {
            Some(t) => t,
            None => self.dispute_timeout_seconds,
        };
        if now > u64::MAX - timeout {
            return Err(EscrowError::Overflow);
        }
        let full = dispute_amount == e.amount;
        let status = if full {
            EscrowStatus::Disputed
        } else {
            EscrowStatus::PartiallyDisputed
        };
        let ne = Escrow {
            amount: dispute_amount,
            status,
            dispute_deadline: now + timeout,
            ..e
        };
        self.replace(id, ne);
        Ok(Settlement { buyer: 0, seller: e.amount - dispute_amount, arbiter: 0, protocol: 0 })
    }

    /// The arbiter rules on disputed escrow `id` before its deadline, giving
    /// the buyer `buyer_percent` of what remains after fees (see
    /// `verdict_settlement`).
    pub fn resolve_dispute(&mut self, caller: Address, id: u32, buyer_percent: u32, now: u64) -> (r: Result<
        Settlement,
        EscrowError,
    >)
        requires
            old(self)@.wf(),
        ensures
            final(self)@.wf(),
            match r {
                Ok(s) => {
                    let e = old(self)@.escrow(id);
                    &&& old(self)@.resolve_error(caller, id, buyer_percent, now) is None
                    &&& s == verdict_settlement(e.amount, e.arbiter_fee_bps, old(self)@.protocol_fee_bps, buyer_percent)
                    &&& final(self)@ == old(self)@.with_escrow(id, Escrow { status: verdict_status(buyer_percent), ..e })
                },
                Err(err) => old(self)@.resolve_error(caller, id, buyer_percent, now) == Some(err) && final(self)@ == old(self)@,
            },
            // Each share is its rounded-down proportion: the arbiter's of the
            // held amount, the protocol's of what the arbiter leaves, the
            // buyer's of what both fees leave; the seller gets the rest.
            r matches Ok(s) ==> {
                let amount = old(self)@.escrow(id).amount;
                let rest = amount - s.arbiter - s.protocol;
                &&& s.arbiter * 10_000 <= amount * old(self)@.escrow(id).arbiter_fee_bps
                    < (s.arbiter + 1) * 10_000
                &&& s.protocol * 10_000 <= (amount - s.arbiter) * old(self)@.protocol_fee_bps
                    < (s.protocol + 1) * 10_000
                &&& s.buyer * 100 <= rest * buyer_percent < (s.buyer + 1) * 100
                &&& s.seller == rest - s.buyer
            },
    {
        if id as usize >= self.escrows.len() {
            return Err(EscrowError::EscrowNotFound);
        }
        let e = self.escrows[id as usize];
        if caller != e.arbiter {
            return Err(EscrowError::Unauthorized);
        }
        match e.status {
            EscrowStatus::Disputed => {},
            EscrowStatus::PartiallyDisputed => {},
            _ => {
                return Err(EscrowError::InvalidStatus);
            },
        }
        if buyer_percent > 100 {
            return Err(EscrowError::InvalidPercent);
        }
        if now > e.dispute_deadline {
            return Err(EscrowError::DisputeDeadlinePassed);
        }
        proof {
            assert(self@.escrows[id as int] == e);
        }
        let arbiter = portion(e.amount, e.arbiter_fee_bps, 10_000);
        let protocol = portion(e.amount - arbiter, self.protocol_fee_bps, 10_000);
        let rest = e.amount - arbiter - protocol;
        let buyer = portion(rest, buyer_percent, 100);
        let status = if buyer_percent == 100 {
            EscrowStatus::Refunded
        } else if buyer_percent == 0 {
            EscrowStatus::Released
        } else {
            EscrowStatus::Resolved
        };
        self.replace(id, Escrow { status, ..e });
        Ok(Settlement { buyer, seller: rest - buyer, arbiter, protocol })
    }

    /// After the arbiter's deadline has passed without a ruling, pays the
    /// whole held amount of escrow `id`, without fees, to its default winner,
    /// and counts the timeout against the arbiter. Anyone may call this.
    pub fn enforce_dispute_timeout(&mut self, id: u32, now: u64) -> (r: Result<Settlement, EscrowError>)
        requires
            old(self)@.wf(),
        ensures
            final(self)@.wf(),
            match r {
                Ok(s) => {
                    let e = old(self)@.escrow(id);
                    let buyer_wins = old(self)@.winner(id) == DisputeDefaultWinner::Buyer;
                    &&& old(self)@.timeout_error(id, now) is None
                    &&& s == if buyer_wins { pay_buyer(e.amount) } else { pay_seller(e.amount) }
                    &&& final(self)@ == (EscrowBookView {
                        arbiter_timeouts: old(self)@.arbiter_timeouts.insert(
                            e.arbiter,
                            (old(self)@.timeouts(e.arbiter) + 1) as u64,
                        ),
                        ..old(self)@.with_escrow(
                            id,
                            Escrow {
                                status: if buyer_wins {
                                    EscrowStatus::Refunded
                                } else {
                                    EscrowStatus::Released
                                },
                                ..e
                            },
                        )
                    })
                },
                Err(err) => old(self)@.timeout_error(id, now) == Some(err) && final(self)@ == old(self)@,
            },
            // The escrow's own choice of winner prevails over the book-wide one.
            r matches Ok(s) ==> (old(self)@.escrow(id).dispute_default_winner == Some(DisputeDefaultWinner::Seller)
                ==> s.seller == old(self)@.escrow(id).amount && s.buyer == 0),
            r matches Ok(s) ==> (old(self)@.escrow(id).dispute_default_winner == Some(DisputeDefaultWinner::Buyer)
                ==> s.buyer == old(self)@.escrow(id).amount && s.seller == 0),
            r matches Ok(s) ==> (old(self)@.escrow(id).dispute_default_winner is None
                ==> (s.buyer == old(self)@.escrow(id).amount) == (old(self)@.default_winner == DisputeDefaultWinner::Buyer)),
    {
        if id as usize >= self.escrows.len() {
            return Err(EscrowError::EscrowNotFound);
        }
        let e = self.escrows[id as usize];
        match e.status {
            EscrowStatus::Disputed => {},
            EscrowStatus::PartiallyDisputed => {},
            _ => {
                return Err(EscrowError::InvalidStatus);
            },
        }
        if now <= e.dispute_deadline {
            return Err(EscrowError::DisputeDeadlineNotReached);
        }
        let count = self.get_arbiter_timeout_count(e.arbiter);
        if count == u64::MAX {
            return Err(EscrowError::Overflow);
        }
        let winner = match e.dispute_default_winner {
            Some(w) => w,
            None => self.default_winner,
        };
        let (status, s) = match winner {
            DisputeDefaultWinner::Buyer => (
                EscrowStatus::Refunded,
                Settlement { buyer: e.amount, seller: 0, arbiter: 0, protocol: 0 },
            ),
            DisputeDefaultWinner::Seller => (
                EscrowStatus::Released,
                Settlement { buyer: 0, seller: e.amount, arbiter: 0, protocol: 0 },
            ),
        };
        self.replace(id, Escrow { status, ..e });
        self.arbiter_timeouts.insert(e.arbiter, count + 1);
        Ok(s)
    }

    /// The buyer releases active escrow `id`: the whole amount goes to the
    /// seller. The token's whitelist standing is not consulted.
    pub fn release_escrow(&mut self, caller: Address, id: u32) -> (r: Result<Settlement, EscrowError>)
        requires
            old(self)@.wf(),
        ensures
            final(self)@.wf(),
            match r {
                Ok(s) => {
                    let e = old(self)@.escrow(id);
                    &&& old(self)@.release_error(caller, id) is None
                    &&& s == pay_seller(e.amount)
                    &&& final(self)@ == old(self)@.with_escrow(id, Escrow { status: EscrowStatus::Released, ..e })
                },
                Err(err) => old(self)@.release_error(caller, id) == Some(err) && final(self)@ == old(self)@,
            },
    {
        if id as usize >= self.escrows.len() {
            return Err(EscrowError::EscrowNotFound);
        }
        let e = self.escrows[id as usize];
        if caller != e.buyer {
            return Err(EscrowError::Unauthorized);
        }
        match e.status {
            EscrowStatus::Active => {},
            _ => {
                return Err(EscrowError::InvalidStatus);
            },
        }
        self.replace(id, Escrow { status: EscrowStatus::Released, ..e });
        Ok(Settlement { buyer: 0, seller: e.amount, arbiter: 0, protocol: 0 })
    }
}

} // verus!
