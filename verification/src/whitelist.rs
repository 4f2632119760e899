//! The token whitelist: a global list of allowed tokens, timed suspensions,
//! per-contract allowlist entries, a two-step admin hand-over, and
//! governance-gated listing and delisting.
//!
//! Precedence when a consumer contract asks whether it may use a token:
//! an active suspension always denies; otherwise a live per-contract entry
//! allows; otherwise the global whitelist decides.

use std::collections::{HashMap, HashSet};

use vstd::prelude::*;

use crate::error::WhitelistError;
use crate::governance::{BookView, Hash32, Proposal, ProposalBook, ProposalStatus};
use crate::keys::{lemma_pair_key_injective, pair_key, spec_pair_key, Address};

verus! {

broadcast use vstd::std_specs::hash::group_hash_axioms;

/// A per-contract allowance for one token; `None` never expires, `Some(n)`
/// applies until ledger `n` has passed, that is while the ledger sequence is
/// at most `n`.
#[derive(Clone, Copy, Debug, PartialEq, Eq, Structural)]
pub struct ContractAllowlistEntry {
    pub expiry_ledger: Option<u32>,
}

/// A timed suspension of a token; it is active while the ledger sequence is
/// below `expires_at`.
#[derive(Clone, Copy, Debug)]
pub struct TokenSuspension {
    pub suspended_at: u32,
    pub expires_at: u64,
    pub reason_hash: Hash32,
}

/// Parameters of token-weighted governance.
#[derive(Clone, Copy, Debug)]
pub struct GovernanceConfig {
    /// The token whose balances weigh proposals and votes.
    pub token: Option<Address>,
    pub min_proposal_stake: i128,
    pub voting_window_ledgers: u32,
    pub enactment_delay_ledgers: u32,
    /// Approving share, in basis points of all cast weight, a proposal needs.
    pub quorum_bps: u32,
}

/// The abstract state of a whitelist.
pub struct WhitelistView {
    pub admin: Address,
    pub pending_admin: Option<Address>,
    pub tokens: Set<Address>,
    pub suspensions: Map<Address, TokenSuspension>,
    /// Per-contract entries, keyed by (consumer contract, token).
    pub entries: Map<(Address, Address), ContractAllowlistEntry>,
    pub governance: GovernanceConfig,
    pub listing: BookView,
    pub delisting: BookView,
}

/// An entry applies at ledger `now`.
pub open spec fn entry_live(e: ContractAllowlistEntry, now: u32) -> bool {
    match e.expiry_ledger {
        None => true,
        Some(expiry) => now <= expiry,
    }
}

/// A suspension is in force at ledger `now`.
pub open spec fn suspension_active(s: TokenSuspension, now: u32) -> bool {
    now < s.expires_at
}

impl WhitelistView {
    pub open spec fn wf(self) -> bool {
        &&& self.listing.wf()
        &&& self.delisting.wf()
        &&& self.governance.quorum_bps <= 10_000
    }

    /// `token` is under an active suspension at `now`.
    pub open spec fn suspended(self, token: Address, now: u32) -> bool {
        self.suspensions.contains_key(token) && suspension_active(self.suspensions[token], now)
    }

    /// `contract` holds a live entry for `token` at `now`.
    pub open spec fn has_live_entry(self, contract: Address, token: Address, now: u32) -> bool {
        self.entries.contains_key((contract, token)) && entry_live(
            self.entries[(contract, token)],
            now,
        )
    }

    /// Global check: listed and not suspended.
    pub open spec fn allowed(self, token: Address, now: u32) -> bool {
        self.tokens.contains(token) && !self.suspended(token, now)
    }

    /// Per-contract check: never while suspended; otherwise a live entry, or
    /// failing that the global list.
    pub open spec fn allowed_for_contract(self, contract: Address, token: Address, now: u32) -> bool {
        !self.suspended(token, now) && (self.has_live_entry(contract, token, now)
            || self.tokens.contains(token))
    }

    /// The active suspension of `token` at `now`, if any.
    pub open spec fn active_suspension(self, token: Address, now: u32) -> Option<TokenSuspension> {
        if self.suspended(token, now) {
            Some(self.suspensions[token])
        } else {
            None
        }
    }

    /// Why a proposal by someone holding `balance` governance tokens is refused.
    pub open spec fn proposal_error(self, balance: i128) -> Option<WhitelistError> {
        if self.governance.token is None {
            Some(WhitelistError::GovernanceNotConfigured)
        } else if balance < self.governance.min_proposal_stake {
            Some(WhitelistError::InsufficientProposerStake)
        } else {
            None
        }
    }
}

/// What a dependent contract's whitelist gate decides for one token.
#[derive(Clone, Copy, Debug, PartialEq, Eq, Structural)]
pub enum TokenGate {
    /// No whitelist is wired, or the wired whitelist allows the token.
    Open,
    /// A whitelist is wired but none was supplied to consult.
    NotSupplied,
    /// The whitelist denies the token to the contract.
    Denied,
}

/// The abstract state of an optional whitelist reference.
pub open spec fn whitelist_view(w: Option<&TokenWhitelist>) -> Option<WhitelistView> {
    match w {
        Some(w) => Some(w@),
        None => None,
    }
}

/// Whether `contract` may take `token` at `ledger`. With no whitelist
/// configured (`wired` is `None`) it may; otherwise the whitelist handed in
/// must allow the token to the contract.
pub open spec fn gate(
    wired: Option<Address>,
    whitelist: Option<WhitelistView>,
    contract: Address,
    token: Address,
    ledger: u32,
) -> TokenGate {
    if wired is None {
        TokenGate::Open
    } else {
        match whitelist {
            None => TokenGate::NotSupplied,
            Some(w) => if w.allowed_for_contract(contract, token, ledger) {
                TokenGate::Open
            } else {
                TokenGate::Denied
            },
        }
    }
}

/// Decides `gate` for a dependent contract.
pub fn check_gate(
    wired: Option<Address>,
    whitelist: Option<&TokenWhitelist>,
    contract: Address,
    token: Address,
    ledger: u32,
) -> (g: TokenGate)
    ensures
        g == gate(wired, whitelist_view(whitelist), contract, token, ledger),
{
    match wired {
        None => TokenGate::Open,
        Some(_) => match whitelist {
            None => TokenGate::NotSupplied,
            Some(w) => if w.is_token_allowed_for_contract(contract, token, ledger) {
                TokenGate::Open
            } else {
                TokenGate::Denied
            },
        },
    }
}

/// The pair-keyed view of a map keyed by packed pairs.
pub open spec fn pair_view(m: Map<u128, ContractAllowlistEntry>) -> Map<
    (Address, Address),
    ContractAllowlistEntry,
> {
    Map::new(
        |k: (Address, Address)| m.contains_key(spec_pair_key(k.0, k.1)),
        |k: (Address, Address)| m[spec_pair_key(k.0, k.1)],
    )
}

proof fn lemma_pair_view_insert(
    m: Map<u128, ContractAllowlistEntry>,
    c: Address,
    t: Address,
    e: ContractAllowlistEntry,
)
    ensures
        pair_view(m.insert(spec_pair_key(c, t), e)) =~= pair_view(m).insert((c, t), e),
{
    assert forall|k: (Address, Address)| #[trigger] pair_view(m.insert(spec_pair_key(c, t), e)).contains_key(k)
        <==> pair_view(m).insert((c, t), e).contains_key(k) by {
        lemma_pair_key_injective(k.0, k.1, c, t);
    }
    assert forall|k: (Address, Address)| pair_view(m).insert((c, t), e).contains_key(k) implies #[trigger] pair_view(
        m.insert(spec_pair_key(c, t), e),
    )[k] == pair_view(m).insert((c, t), e)[k] by {
        lemma_pair_key_injective(k.0, k.1, c, t);
    }
}

proof fn lemma_pair_view_remove(m: Map<u128, ContractAllowlistEntry>, c: Address, t: Address)
    ensures
        pair_view(m.remove(spec_pair_key(c, t))) =~= pair_view(m).remove((c, t)),
{
    assert forall|k: (Address, Address)| #[trigger] pair_view(m.remove(spec_pair_key(c, t))).contains_key(k)
        <==> pair_view(m).remove((c, t)).contains_key(k) by {
        lemma_pair_key_injective(k.0, k.1, c, t);
    }
    assert forall|k: (Address, Address)| pair_view(m).remove((c, t)).contains_key(k) implies #[trigger] pair_view(
        m.remove(spec_pair_key(c, t)),
    )[k] == pair_view(m).remove((c, t))[k] by {
        lemma_pair_key_injective(k.0, k.1, c, t);
    }
}

/// The token whitelist contract state.
pub struct TokenWhitelist {
    admin: Address,
    pending_admin: Option<Address>,
    tokens: HashSet<Address>,
    suspensions: HashMap<Address, TokenSuspension>,
    entries: HashMap<u128, ContractAllowlistEntry>,
    governance: GovernanceConfig,
    listing: ProposalBook,
    delisting: ProposalBook,
}

impl View for TokenWhitelist {
    type V = WhitelistView;

    closed spec fn view(&self) -> WhitelistView {
        WhitelistView {
            admin: self.admin,
            pending_admin: self.pending_admin,
            tokens: self.tokens@,
            suspensions: self.suspensions@,
            entries: pair_view(self.entries@),
            governance: self.governance,
            listing: self.listing@,
            delisting: self.delisting@,
        }
    }
}

impl TokenWhitelist {
    /// A whitelist administered by `admin`: no tokens, suspensions, entries or
    /// proposals, and governance unconfigured.
    pub fn initialize(admin: Address) -> (w: TokenWhitelist)
        ensures
            w@.wf(),
            w@.admin == admin,
            w@.pending_admin is None,
            w@.tokens == Set::<Address>::empty(),
            w@.suspensions == Map::<Address, TokenSuspension>::empty(),
            w@.entries == Map::<(Address, Address), ContractAllowlistEntry>::empty(),
            w@.governance.token is None,
            w@.governance.min_proposal_stake == 0,
            w@.governance.voting_window_ledgers == 0,
            w@.governance.enactment_delay_ledgers == 0,
            w@.governance.quorum_bps == 0,
            w@.listing.proposals.len() == 0,
            w@.delisting.proposals.len() == 0,
    {
        let w = TokenWhitelist {
            admin,
            pending_admin: None,
            tokens: HashSet::new(),
            suspensions: HashMap::new(),
            entries: HashMap::new(),
            governance: GovernanceConfig {
                token: None,
                min_proposal_stake: 0,
                voting_window_ledgers: 0,
                enactment_delay_ledgers: 0,
                quorum_bps: 0,
            },
            listing: ProposalBook::new(),
            delisting: ProposalBook::new(),
        };
        assert(w@.entries =~= Map::<(Address, Address), ContractAllowlistEntry>::empty());
        w
    }

    /// The current admin.
    pub fn admin(&self) -> (a: Address)
        ensures
            a == self@.admin,
    {
        self.admin
    }

    /// The admin proposed by `propose_admin` and not yet accepted.
    pub fn pending_admin(&self) -> (a: Option<Address>)
        ensures
            a == self@.pending_admin,
    {
        self.pending_admin
    }

    fn check_admin(&self, caller: Address) -> (r: Result<(), WhitelistError>)
        ensures
            r is Ok <==> caller == self@.admin,
            r is Err ==> r == Err::<(), WhitelistError>(WhitelistError::Unauthorized),
    {
        if caller == self.admin {
            Ok(())
        } else {
            Err(WhitelistError::Unauthorized)
        }
    }

    /// First step of an admin hand-over: the admin names its successor.
    pub fn propose_admin(&mut self, caller: Address, new_admin: Address) -> (r: Result<(), WhitelistError>)
        requires
            old(self)@.wf(),
        ensures
            final(self)@.wf(),
            r is Ok <==> caller == old(self)@.admin,
            r is Ok ==> final(self)@ == (WhitelistView { pending_admin: Some(new_admin), ..old(self)@ }),
            r is Err ==> r == Err::<(), WhitelistError>(WhitelistError::Unauthorized) && final(self)@ == old(self)@,
    {
        self.check_admin(caller)?;
        self.pending_admin = Some(new_admin);
        Ok(())
    }

    /// Second step of an admin hand-over: the named successor takes over.
    pub fn accept_admin(&mut self, caller: Address) -> (r: Result<(), WhitelistError>)
        requires
            old(self)@.wf(),
        ensures
            final(self)@.wf(),
            r is Ok <==> old(self)@.pending_admin == Some(caller),
            r is Ok ==> final(self)@ == (WhitelistView { admin: caller, pending_admin: None, ..old(self)@ }),
            r is Err ==> r == Err::<(), WhitelistError>(WhitelistError::NotPendingAdmin) && final(self)@ == old(self)@,
    {
        match self.pending_admin {
            Some(p) => {
                if p == caller {
                    self.admin = caller;
                    self.pending_admin = None;
                    Ok(())
                } else {
                    Err(WhitelistError::NotPendingAdmin)
                }
            },
            None => Err(WhitelistError::NotPendingAdmin),
        }
    }

    /// Adds `token` to the global whitelist (admin only).
    pub fn add_token(&mut self, caller: Address, token: Address) -> (r: Result<(), WhitelistError>)
        requires
            old(self)@.wf(),
        ensures
            final(self)@.wf(),
            r is Ok <==> caller == old(self)@.admin,
            r is Ok ==> final(self)@ == (WhitelistView { tokens: old(self)@.tokens.insert(token), ..old(self)@ }),
            r is Err ==> r == Err::<(), WhitelistError>(WhitelistError::Unauthorized) && final(self)@ == old(self)@,
    {
        self.check_admin(caller)?;
        self.tokens.insert(token);
        Ok(())
    }

    /// Removes `token` from the global whitelist (admin only); per-contract
    /// entries and suspensions are kept.
    pub fn remove_token(&mut self, caller: Address, token: Address) -> (r: Result<(), WhitelistError>)
        requires
            old(self)@.wf(),
        ensures
            final(self)@.wf(),
            r is Ok <==> caller == old(self)@.admin,
            r is Ok ==> final(self)@ == (WhitelistView { tokens: old(self)@.tokens.remove(token), ..old(self)@ }),
            r is Err ==> r == Err::<(), WhitelistError>(WhitelistError::Unauthorized) && final(self)@ == old(self)@,
    {
        self.check_admin(caller)?;
        self.tokens.remove(&token);
        Ok(())
    }

    /// Whether `token` is on the global whitelist and not suspended at `now`.
    pub fn is_token_allowed(&self, token: Address, now: u32) -> (b: bool)
        ensures
            b == self@.allowed(token, now),
    {
        self.tokens.contains(&token) && !self.is_suspended(token, now)
    }

    fn is_suspended(&self, token: Address, now: u32) -> (b: bool)
        ensures
            b == self@.suspended(token, now),
    {
        match self.suspensions.get(&token) {
            Some(s) => (now as u64) < s.expires_at,
            None => false,
        }
    }

    /// Suspends whitelisted `token` for `duration_ledgers` ledgers from `now`
    /// (admin only), replacing any earlier suspension.
    pub fn suspend_token_timed(
        &mut self,
        caller: Address,
        token: Address,
        duration_ledgers: u32,
        reason_hash: Hash32,
        now: u32,
    ) -> (r: Result<(), WhitelistError>)
        requires
            old(self)@.wf(),
        ensures
            final(self)@.wf(),
            match r {
                Ok(()) => {
                    &&& caller == old(self)@.admin
                    &&& old(self)@.tokens.contains(token)
                    &&& final(self)@ == (WhitelistView {
                        suspensions: old(self)@.suspensions.insert(
                            token,
                            TokenSuspension {
                                suspended_at: now,
                                expires_at: (now + duration_ledgers) as u64,
                                reason_hash,
                            },
                        ),
                        ..old(self)@
                    })
                },
                Err(e) => final(self)@ == old(self)@ && if caller != old(self)@.admin {
                    e == WhitelistError::Unauthorized
                } else {
                    !old(self)@.tokens.contains(token) && e == WhitelistError::TokenNotWhitelisted
                },
            },
    {
        self.check_admin(caller)?;
        if !self.tokens.contains(&token) {
            return Err(WhitelistError::TokenNotWhitelisted);
        }
        let s = TokenSuspension {
            suspended_at: now,
            expires_at: now as u64 + duration_ledgers as u64,
            reason_hash,
        };
        self.suspensions.insert(token, s);
        Ok(())
    }

    /// Lifts any suspension of `token` (admin only).
    pub fn lift_token_suspension(&mut self, caller: Address, token: Address) -> (r: Result<(), WhitelistError>)
        requires
            old(self)@.wf(),
        ensures
            final(self)@.wf(),
            r is Ok <==> caller == old(self)@.admin,
            r is Ok ==> final(self)@ == (WhitelistView { suspensions: old(self)@.suspensions.remove(token), ..old(self)@ }),
            r is Err ==> r == Err::<(), WhitelistError>(WhitelistError::Unauthorized) && final(self)@ == old(self)@,
    {
        self.check_admin(caller)?;
        self.suspensions.remove(&token);
        Ok(())
    }

    /// The suspension of `token` in force at `now`, if any.
    pub fn get_token_suspension(&self, token: Address, now: u32) -> (s: Option<TokenSuspension>)
        ensures
            s == self@.active_suspension(token, now),
    {
        match self.suspensions.get(&token) {
            Some(s) => {
                if (now as u64) < s.expires_at {
                    Some(*s)
                } else {
                    None
                }
            },
            None => None,
        }
    }

    /// Grants `contract` an allowance for `token`, permanent (`None`) or up to
    /// and including ledger `expiry_ledger` (admin only); replaces an earlier
    /// entry.
    pub fn set_contract_token(
        &mut self,
        caller: Address,
        contract: Address,
        token: Address,
        expiry_ledger: Option<u32>,
    ) -> (r: Result<(), WhitelistError>)
        requires
            old(self)@.wf(),
        ensures
            final(self)@.wf(),
            r is Ok <==> caller == old(self)@.admin,
            r is Ok ==> final(self)@ == (WhitelistView {
                entries: old(self)@.entries.insert((contract, token), ContractAllowlistEntry { expiry_ledger }),
                ..old(self)@
            }),
            r is Err ==> r == Err::<(), WhitelistError>(WhitelistError::Unauthorized) && final(self)@ == old(self)@,
    {
        self.check_admin(caller)?;
        let k = pair_key(contract, token);
        let e = ContractAllowlistEntry { expiry_ledger };
        proof {
            lemma_pair_view_insert(self.entries@, contract, token, e);
        }
        self.entries.insert(k, e);
        Ok(())
    }

    /// Removes `contract`'s entry for `token` (admin only); the global
    /// whitelist is untouched.
    pub fn remove_contract_token(&mut self, caller: Address, contract: Address, token: Address) -> (r: Result<
        (),
        WhitelistError,
    >)
        requires
            old(self)@.wf(),
        ensures
            final(self)@.wf(),
            r is Ok <==> caller == old(self)@.admin,
            r is Ok ==> final(self)@ == (WhitelistView { entries: old(self)@.entries.remove((contract, token)), ..old(self)@ }),
            r is Err ==> r == Err::<(), WhitelistError>(WhitelistError::Unauthorized) && final(self)@ == old(self)@,
    {
        self.check_admin(caller)?;
        let k = pair_key(contract, token);
        proof {
            lemma_pair_view_remove(self.entries@, contract, token);
        }
        self.entries.remove(&k);
        Ok(())
    }

    /// `contract`'s entry for `token`, live or expired, if one is stored.
    pub fn get_contract_token_entry(&self, contract: Address, token: Address) -> (e: Option<
        ContractAllowlistEntry,
    >)
        ensures
            e == (if self@.entries.contains_key((contract, token)) {
                Some(self@.entries[(contract, token)])
            } else {
                None
            }),
    {
        let k = pair_key(contract, token);
        match self.entries.get(&k) {
            Some(e) => Some(*e),
            None => None,
        }
    }

    /// Whether `contract` may use `token` at `now`: never while the token is
    /// suspended; otherwise when `contract` holds a live entry for it or the
    /// token is globally whitelisted.
    pub fn is_token_allowed_for_contract(&self, contract: Address, token: Address, now: u32) -> (b: bool)
        ensures
            b == self@.allowed_for_contract(contract, token, now),
    {
        if self.is_suspended(token, now) {
            return false;
        }
        let live = match self.get_contract_token_entry(contract, token) {
            Some(e) => match e.expiry_ledger {
                None => true,
                Some(x) => now <= x,
            },
            None => false,
        };
        live || self.tokens.contains(&token)
    }
}


/// What a governance call by the admin that checks nothing else returns.
pub open spec fn admin_outcome(v: WhitelistView, caller: Address) -> Result<(), WhitelistError> {
    if caller == v.admin {
        Ok(())
    } else {
        Err(WhitelistError::Unauthorized)
    }
}

impl TokenWhitelist {
    /// The governance parameters.
    pub fn get_governance_config(&self) -> (g: GovernanceConfig)
        ensures
            g == self@.governance,
    {
        self.governance
    }

    /// Sets the token whose balances weigh proposals and votes (admin only).
    pub fn set_governance_token(&mut self, caller: Address, token: Address) -> (r: Result<(), WhitelistError>)
        requires
            old(self)@.wf(),
        ensures
            final(self)@.wf(),
            r == admin_outcome(old(self)@, caller),
            r is Ok ==> final(self)@ == (WhitelistView {
                governance: GovernanceConfig { token: Some(token), ..old(self)@.governance },
                ..old(self)@
            }),
            r is Err ==> final(self)@ == old(self)@,
    {
        self.check_admin(caller)?;
        self.governance = GovernanceConfig { token: Some(token), ..self.governance };
        Ok(())
    }

    /// Sets the governance-token balance a proposer must hold (admin only).
    pub fn set_min_proposal_stake(&mut self, caller: Address, stake: i128) -> (r: Result<(), WhitelistError>)
        requires
            old(self)@.wf(),
        ensures
            final(self)@.wf(),
            r == admin_outcome(old(self)@, caller),
            r is Ok ==> final(self)@ == (WhitelistView {
                governance: GovernanceConfig { min_proposal_stake: stake, ..old(self)@.governance },
                ..old(self)@
            }),
            r is Err ==> final(self)@ == old(self)@,
    {
        self.check_admin(caller)?;
        self.governance = GovernanceConfig { min_proposal_stake: stake, ..self.governance };
        Ok(())
    }

    /// Sets how many ledgers after its creation a proposal accepts votes (admin only).
    pub fn set_voting_window_ledgers(&mut self, caller: Address, ledgers: u32) -> (r: Result<(), WhitelistError>)
        requires
            old(self)@.wf(),
        ensures
            final(self)@.wf(),
            r == admin_outcome(old(self)@, caller),
            r is Ok ==> final(self)@ == (WhitelistView {
                governance: GovernanceConfig { voting_window_ledgers: ledgers, ..old(self)@.governance },
                ..old(self)@
            }),
            r is Err ==> final(self)@ == old(self)@,
    {
        self.check_admin(caller)?;
        self.governance = GovernanceConfig { voting_window_ledgers: ledgers, ..self.governance };
        Ok(())
    }

    /// Sets how many ledgers after finalisation a passed proposal waits (admin only).
    pub fn set_enactment_delay_ledgers(&mut self, caller: Address, ledgers: u32) -> (r: Result<(), WhitelistError>)
        requires
            old(self)@.wf(),
        ensures
            final(self)@.wf(),
            r == admin_outcome(old(self)@, caller),
            r is Ok ==> final(self)@ == (WhitelistView {
                governance: GovernanceConfig { enactment_delay_ledgers: ledgers, ..old(self)@.governance },
                ..old(self)@
            }),
            r is Err ==> final(self)@ == old(self)@,
    {
        self.check_admin(caller)?;
        self.governance = GovernanceConfig { enactment_delay_ledgers: ledgers, ..self.governance };
        Ok(())
    }

    /// Sets the approving share, in basis points, a proposal needs (admin
    /// only; at most 10 000).
    pub fn set_quorum_bps(&mut self, caller: Address, bps: u32) -> (r: Result<(), WhitelistError>)
        requires
            old(self)@.wf(),
        ensures
            final(self)@.wf(),
            r == (if caller != old(self)@.admin {
                Err(WhitelistError::Unauthorized)
            } else if bps > 10_000 {
                Err(WhitelistError::InvalidQuorum)
            } else {
                Ok(())
            }),
            r is Ok ==> final(self)@ == (WhitelistView {
                governance: GovernanceConfig { quorum_bps: bps, ..old(self)@.governance },
                ..old(self)@
            }),
            r is Err ==> final(self)@ == old(self)@,
    {
        self.check_admin(caller)?;
        if bps > 10_000 {
            return Err(WhitelistError::InvalidQuorum);
        }
        self.governance = GovernanceConfig { quorum_bps: bps, ..self.governance };
        Ok(())
    }

    fn check_proposer(&self, balance: i128) -> (r: Result<(), WhitelistError>)
        ensures
            match r {
                Ok(()) => self@.proposal_error(balance) is None,
                Err(e) => self@.proposal_error(balance) == Some(e),
            },
    {
        match self.governance.token {
            None => Err(WhitelistError::GovernanceNotConfigured),
            Some(_) => {
                if balance < self.governance.min_proposal_stake {
                    Err(WhitelistError::InsufficientProposerStake)
                } else {
                    Ok(())
                }
            },
        }
    }

    /// Opens a proposal to add `token` to the whitelist; the proposer holds
    /// `proposer_balance` governance tokens. Returns the proposal id.
    pub fn propose_token_listing(
        &mut self,
        proposer: Address,
        token: Address,
        rationale: Hash32,
        proposer_balance: i128,
        now: u32,
    ) -> (r: Result<u32, WhitelistError>)
        requires
            old(self)@.wf(),
        ensures
            final(self)@.wf(),
            match r {
                Ok(id) => {
                    &&& old(self)@.proposal_error(proposer_balance) is None
                    &&& id == old(self)@.listing.proposals.len()
                    &&& final(self)@ == (WhitelistView {
                        listing: BookView {
                            proposals: old(self)@.listing.proposals.push(
                                crate::governance::fresh_proposal(
                                    id, proposer, token, rationale, now,
                                    old(self)@.governance.voting_window_ledgers,
                                ),
                            ),
                            ballots: old(self)@.listing.ballots,
                        },
                        ..old(self)@
                    })
                },
                Err(e) => final(self)@ == old(self)@ && if old(self)@.proposal_error(proposer_balance) is Some {
                    old(self)@.proposal_error(proposer_balance) == Some(e)
                } else {
                    e == WhitelistError::Overflow && old(self)@.listing.proposals.len() == u32::MAX
                },
            },
    {
        self.check_proposer(proposer_balance)?;
        let window = self.governance.voting_window_ledgers;
        self.listing.propose(proposer, token, rationale, now, window)
    }

    /// Opens a proposal to remove whitelisted `token`; the proposer holds
    /// `proposer_balance` governance tokens. Returns the proposal id.
    pub fn propose_delisting(
        &mut self,
        proposer: Address,
        token: Address,
        rationale: Hash32,
        proposer_balance: i128,
        now: u32,
    ) -> (r: Result<u32, WhitelistError>)
        requires
            old(self)@.wf(),
        ensures
            final(self)@.wf(),
            match r {
                Ok(id) => {
                    &&& old(self)@.proposal_error(proposer_balance) is None
                    &&& old(self)@.tokens.contains(token)
                    &&& id == old(self)@.delisting.proposals.len()
                    &&& final(self)@ == (WhitelistView {
                        delisting: BookView {
                            proposals: old(self)@.delisting.proposals.push(
                                crate::governance::fresh_proposal(
                                    id, proposer, token, rationale, now,
                                    old(self)@.governance.voting_window_ledgers,
                                ),
                            ),
                            ballots: old(self)@.delisting.ballots,
                        },
                        ..old(self)@
                    })
                },
                Err(e) => final(self)@ == old(self)@ && if old(self)@.proposal_error(proposer_balance) is Some {
                    old(self)@.proposal_error(proposer_balance) == Some(e)
                } else if !old(self)@.tokens.contains(token) {
                    e == WhitelistError::TokenNotWhitelisted
                } else {
                    e == WhitelistError::Overflow && old(self)@.delisting.proposals.len() == u32::MAX
                },
            },
    {
        self.check_proposer(proposer_balance)?;
        if !self.tokens.contains(&token) {
            return Err(WhitelistError::TokenNotWhitelisted);
        }
        let window = self.governance.voting_window_ledgers;
        self.delisting.propose(proposer, token, rationale, now, window)
    }

    /// Casts or replaces `voter`'s ballot on listing proposal `id`; the voter
    /// holds `voter_balance` governance tokens.
    pub fn vote_listing(
        &mut self,
        voter: Address,
        id: u32,
        approve: bool,
        weight: i128,
        voter_balance: i128,
        now: u32,
    ) -> (r: Result<(), WhitelistError>)
        requires
            old(self)@.wf(),
        ensures
            final(self)@.wf(),
            ({
                let b = crate::governance::Ballot { proposal_id: id, voter, approve, weight };
                match r {
                    Ok(()) => old(self)@.listing.vote_error(b, voter_balance, now) is None
                        && final(self)@ == (WhitelistView { listing: old(self)@.listing.after_vote(b), ..old(self)@ }),
                    Err(e) => old(self)@.listing.vote_error(b, voter_balance, now) == Some(e)
                        && final(self)@ == old(self)@,
                }
            }),
    {
        self.listing.vote(id, voter, approve, weight, voter_balance, now)
    }

    /// Casts or replaces `voter`'s ballot on delisting proposal `id`; the voter
    /// holds `voter_balance` governance tokens.
    pub fn vote_delisting(
        &mut self,
        voter: Address,
        id: u32,
        approve: bool,
        weight: i128,
        voter_balance: i128,
        now: u32,
    ) -> (r: Result<(), WhitelistError>)
        requires
            old(self)@.wf(),
        ensures
            final(self)@.wf(),
            ({
                let b = crate::governance::Ballot { proposal_id: id, voter, approve, weight };
                match r {
                    Ok(()) => old(self)@.delisting.vote_error(b, voter_balance, now) is None
                        && final(self)@ == (WhitelistView { delisting: old(self)@.delisting.after_vote(b), ..old(self)@ }),
                    Err(e) => old(self)@.delisting.vote_error(b, voter_balance, now) == Some(e)
                        && final(self)@ == old(self)@,
                }
            }),
    {
        self.delisting.vote(id, voter, approve, weight, voter_balance, now)
    }

    /// Closes voting on listing proposal `id` once its window has passed;
    /// returns `PendingEnactment` or `Failed`.
    pub fn finalise_listing_proposal(&mut self, id: u32, now: u32) -> (r: Result<ProposalStatus, WhitelistError>)
        requires
            old(self)@.wf(),
        ensures
            final(self)@.wf(),
            ({
                let g = old(self)@.governance;
                match r {
                    Ok(s) => {
                        &&& old(self)@.listing.finalise_error(id, now) is None
                        &&& s == old(self)@.listing.verdict(id, g.quorum_bps)
                        &&& final(self)@ == (WhitelistView {
                            listing: old(self)@.listing.after_finalise(id, now, g.quorum_bps, g.enactment_delay_ledgers),
                            ..old(self)@
                        })
                    },
                    Err(e) => old(self)@.listing.finalise_error(id, now) == Some(e) && final(self)@ == old(self)@,
                }
            }),
    {
        let q = self.governance.quorum_bps;
        let d = self.governance.enactment_delay_ledgers;
        self.listing.finalise(id, now, q, d)
    }

    /// Closes voting on delisting proposal `id` once its window has passed;
    /// returns `PendingEnactment` or `Failed`.
    pub fn finalise_delisting_proposal(&mut self, id: u32, now: u32) -> (r: Result<ProposalStatus, WhitelistError>)
        requires
            old(self)@.wf(),
        ensures
            final(self)@.wf(),
            ({
                let g = old(self)@.governance;
                match r {
                    Ok(s) => {
                        &&& old(self)@.delisting.finalise_error(id, now) is None
                        &&& s == old(self)@.delisting.verdict(id, g.quorum_bps)
                        &&& final(self)@ == (WhitelistView {
                            delisting: old(self)@.delisting.after_finalise(id, now, g.quorum_bps, g.enactment_delay_ledgers),
                            ..old(self)@
                        })
                    },
                    Err(e) => old(self)@.delisting.finalise_error(id, now) == Some(e) && final(self)@ == old(self)@,
                }
            }),
    {
        let q = self.governance.quorum_bps;
        let d = self.governance.enactment_delay_ledgers;
        self.delisting.finalise(id, now, q, d)
    }

    /// Enacts passed listing proposal `id` once its delay has elapsed: the
    /// token joins the global whitelist.
    pub fn enact_listing(&mut self, id: u32, now: u32) -> (r: Result<(), WhitelistError>)
        requires
            old(self)@.wf(),
        ensures
            final(self)@.wf(),
            match r {
                Ok(()) => {
                    &&& old(self)@.listing.enact_error(id, now) is None
                    &&& final(self)@ == (WhitelistView {
                        listing: old(self)@.listing.with_status(id, ProposalStatus::Enacted),
                        tokens: old(self)@.tokens.insert(old(self)@.listing.proposal(id).token),
                        ..old(self)@
                    })
                },
                Err(e) => old(self)@.listing.enact_error(id, now) == Some(e) && final(self)@ == old(self)@,
            },
    {
        let token = self.listing.enact(id, now)?;
        self.tokens.insert(token);
        Ok(())
    }

    /// Enacts passed delisting proposal `id` once its delay has elapsed: the
    /// token leaves the global whitelist and any suspension record of it is
    /// cleared.
    pub fn enact_delisting(&mut self, id: u32, now: u32) -> (r: Result<(), WhitelistError>)
        requires
            old(self)@.wf(),
        ensures
            final(self)@.wf(),
            match r {
                Ok(()) => {
                    &&& old(self)@.delisting.enact_error(id, now) is None
                    &&& final(self)@ == (WhitelistView {
                        delisting: old(self)@.delisting.with_status(id, ProposalStatus::Enacted),
                        tokens: old(self)@.tokens.remove(old(self)@.delisting.proposal(id).token),
                        suspensions: old(self)@.suspensions.remove(old(self)@.delisting.proposal(id).token),
                        ..old(self)@
                    })
                },
                Err(e) => old(self)@.delisting.enact_error(id, now) == Some(e) && final(self)@ == old(self)@,
            },
    {
        let token = self.delisting.enact(id, now)?;
        self.tokens.remove(&token);
        self.suspensions.remove(&token);
        Ok(())
    }

    /// The admin blocks listing proposal `id` while it is active or pending.
    /// The reason is for the emitted event only; no state keeps it.
    pub fn veto_listing_proposal(&mut self, caller: Address, id: u32, _reason_hash: Hash32) -> (r: Result<
        (),
        WhitelistError,
    >)
        requires
            old(self)@.wf(),
        ensures
            final(self)@.wf(),
            match r {
                Ok(()) => {
                    &&& caller == old(self)@.admin
                    &&& old(self)@.listing.veto_error(id) is None
                    &&& final(self)@ == (WhitelistView {
                        listing: old(self)@.listing.with_status(id, ProposalStatus::Vetoed),
                        ..old(self)@
                    })
                },
                Err(e) => final(self)@ == old(self)@ && if caller != old(self)@.admin {
                    e == WhitelistError::Unauthorized
                } else {
                    old(self)@.listing.veto_error(id) == Some(e)
                },
            },
    {
        self.check_admin(caller)?;
        self.listing.veto(id)
    }

    /// The admin blocks delisting proposal `id` while it is active or pending.
    /// The reason is for the emitted event only; no state keeps it.
    pub fn veto_delisting_proposal(&mut self, caller: Address, id: u32, _reason_hash: Hash32) -> (r: Result<
        (),
        WhitelistError,
    >)
        requires
            old(self)@.wf(),
        ensures
            final(self)@.wf(),
            match r {
                Ok(()) => {
                    &&& caller == old(self)@.admin
                    &&& old(self)@.delisting.veto_error(id) is None
                    &&& final(self)@ == (WhitelistView {
                        delisting: old(self)@.delisting.with_status(id, ProposalStatus::Vetoed),
                        ..old(self)@
                    })
                },
                Err(e) => final(self)@ == old(self)@ && if caller != old(self)@.admin {
                    e == WhitelistError::Unauthorized
                } else {
                    old(self)@.delisting.veto_error(id) == Some(e)
                },
            },
    {
        self.check_admin(caller)?;
        self.delisting.veto(id)
    }

    /// Listing proposal `id`, if it exists.
    pub fn get_listing_proposal(&self, id: u32) -> (p: Option<Proposal>)
        ensures
            p == (if self@.listing.contains(id) {
                Some(self@.listing.proposal(id))
            } else {
                None
            }),
    {
        self.listing.get(id)
    }

    /// Delisting proposal `id`, if it exists.
    pub fn get_delisting_proposal(&self, id: u32) -> (p: Option<Proposal>)
        ensures
            p == (if self@.delisting.contains(id) {
                Some(self@.delisting.proposal(id))
            } else {
                None
            }),
    {
        self.delisting.get(id)
    }
}

} // verus!
