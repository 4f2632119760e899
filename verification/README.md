# ahjoor

Verified (Verus) core of a token whitelist with governance-gated listing and
delisting, together with the escrow, cross-contract refund registry and
savings-circle rules that consult it.

- `src/whitelist.rs`: global whitelist, timed suspensions, per-contract
  allowlist entries, two-step admin hand-over, governance parameters and
  the listing/delisting entry points.
- `src/governance.rs`: proposal books; tallies are kept equal to the sums of
  the voters' latest ballots.
- `src/escrow.rs`, `src/refund.rs`, `src/rosca.rs`: the parts of the
  escrow, refund and savings-circle contracts that touch the whitelist or
  record its consequences: escrow creation, disputes, verdicts, timeouts and
  release; cross-contract refund registration and its queues; circle
  contributions. Other features of those contracts (cooling-off windows,
  collateral, templates and renewals, the request/approve/claim refund flow,
  circle payouts) are not modelled. These modules return what must be paid
  (a `Settlement`) or recorded; moving tokens, reading balances, the ledger
  sequence and the time are left to the caller.
- `src/*_laws.rs`: proof functions stating properties across operations.
- `tests/`: scenario tests.
