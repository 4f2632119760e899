//! Verified core of a token whitelist with governance-gated listing, and of
//! the escrow, refund-registry and savings-circle rules that depend on it.

// Shared arithmetic and helpers.
pub mod keys;
pub mod paging;
pub mod shares;
pub mod tally;

// The token whitelist and its governance.
pub mod error;
pub mod governance;
pub mod whitelist;

// Contracts that consult the whitelist or record its consequences.
pub mod escrow;
pub mod refund;
pub mod rosca;

// Laws relating the operations above.
pub mod access_laws;
pub mod escrow_laws;
pub mod gating_laws;
pub mod governance_laws;
pub mod registry_laws;
