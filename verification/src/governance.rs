//! Token-weighted proposals: one book of proposals with their ballots.
//!
//! A book keeps, per proposal, the approving and rejecting tallies. Each voter
//! holds at most one ballot per proposal; voting again replaces the earlier
//! ballot, so a tally is always the sum of the ballots currently recorded.

use vstd::prelude::*;

use crate::error::WhitelistError;
use crate::keys::Address;
use crate::tally::{meets_quorum, spec_meets_quorum};

verus! {

/// A 32-byte hash (a rationale or a reason).
pub type Hash32 = [u8; 32];

/// Where a proposal stands.
#[derive(Clone, Copy, Debug, PartialEq, Eq, Structural)]
pub enum ProposalStatus {
    /// Open for voting until its window closes.
    Active,
    /// Passed; can be enacted once the enactment delay has elapsed.
    PendingEnactment,
    /// Carried out.
    Enacted,
    /// Did not reach the quorum.
    Failed,
    /// Blocked by the admin.
    Vetoed,
}

/// A listing or delisting proposal.
#[derive(Clone, Copy, Debug)]
pub struct Proposal {
    pub id: u32,
    pub proposer: Address,
    pub token: Address,
    pub rationale: Hash32,
    pub created_at: u32,
    /// The last ledger at which votes are accepted.
    pub voting_ends_at: u64,
    pub approve_weight: i128,
    pub reject_weight: i128,
    pub status: ProposalStatus,
    /// The first ledger at which a passed proposal may be enacted.
    pub enactable_at: u64,
}

/// One voter's current vote on one proposal.
#[derive(Clone, Copy, Debug)]
pub struct Ballot {
    pub proposal_id: u32,
    pub voter: Address,
    pub approve: bool,
    pub weight: i128,
}

/// What ballot `b` adds to the tally of side `side` of proposal `id`.
pub open spec fn contribution(b: Ballot, id: u32, side: bool) -> int {
    if b.proposal_id == id && b.approve == side {
        b.weight as int
    } else {
        0
    }
}

/// The total weight of the ballots for side `side` of proposal `id`.
pub open spec fn side_sum(ballots: Seq<Ballot>, id: u32, side: bool) -> int
    decreases ballots.len(),
{
    if ballots.len() == 0 {
        0
    } else {
        side_sum(ballots.drop_last(), id, side) + contribution(ballots.last(), id, side)
    }
}

/// Two ballots occupy the same seat when they are by one voter on one proposal.
pub open spec fn same_seat(a: Ballot, b: Ballot) -> bool {
    a.proposal_id == b.proposal_id && a.voter == b.voter
}

/// The proposal's tallies are the sums of its recorded ballots, and their
/// total fits in an `i128`.
pub open spec fn tallies_match(ballots: Seq<Ballot>, p: Proposal) -> bool {
    &&& p.approve_weight == side_sum(ballots, p.id, true)
    &&& p.reject_weight == side_sum(ballots, p.id, false)
    &&& p.approve_weight + p.reject_weight <= i128::MAX
}

/// The abstract content of a proposal book.
pub struct BookView {
    pub proposals: Seq<Proposal>,
    pub ballots: Seq<Ballot>,
}

/// A passed proposal: votes were cast and the approving share reaches the quorum.
pub open spec fn passes(p: Proposal, quorum_bps: u32) -> bool {
    spec_meets_quorum(
        p.approve_weight as int,
        p.approve_weight + p.reject_weight,
        quorum_bps as int,
    )
}

/// The proposal that `propose` records.
pub open spec fn fresh_proposal(
    id: u32,
    proposer: Address,
    token: Address,
    rationale: Hash32,
    now: u32,
    window: u32,
) -> Proposal {
    Proposal {
        id,
        proposer,
        token,
        rationale,
        created_at: now,
        voting_ends_at: (now + window) as u64,
        approve_weight: 0,
        reject_weight: 0,
        status: ProposalStatus::Active,
        enactable_at: 0,
    }
}

impl BookView {
    /// Well-formedness: ids are positions, tallies are the sums of the
    /// ballots, ballots carry positive weight on existing proposals, and no
    /// voter holds two ballots on one proposal.
    pub open spec fn wf(self) -> bool {
        &&& self.proposals.len() <= u32::MAX
        &&& forall|i: int|
            0 <= i < self.proposals.len() ==> (#[trigger] self.proposals[i]).id == i
        &&& forall|i: int|
            0 <= i < self.proposals.len() ==> tallies_match(
                self.ballots,
                #[trigger] self.proposals[i],
            )
        &&& forall|i: int|
            0 <= i < self.ballots.len() ==> (#[trigger] self.ballots[i]).weight > 0
                && self.ballots[i].proposal_id < self.proposals.len()
        &&& forall|i: int, j: int|
            0 <= i < j < self.ballots.len() ==> !same_seat(
                #[trigger] self.ballots[i],
                #[trigger] self.ballots[j],
            )
    }

    pub open spec fn contains(self, id: u32) -> bool {
        id < self.proposals.len()
    }

    pub open spec fn proposal(self, id: u32) -> Proposal {
        self.proposals[id as int]
    }

    /// `voter` has a ballot on proposal `id`.
    pub open spec fn has_seat(self, id: u32, voter: Address) -> bool {
        exists|i: int|
            0 <= i < self.ballots.len() && (#[trigger] self.ballots[i]).proposal_id == id
                && self.ballots[i].voter == voter
    }

    /// The position of `voter`'s ballot on proposal `id`.
    pub open spec fn seat_index(self, id: u32, voter: Address) -> int {
        choose|i: int|
            0 <= i < self.ballots.len() && (#[trigger] self.ballots[i]).proposal_id == id
                && self.ballots[i].voter == voter
    }

    /// The ballots after `b` is cast: it replaces the voter's earlier ballot on
    /// the same proposal, or is added.
    pub open spec fn ballots_after(self, b: Ballot) -> Seq<Ballot> {
        if self.has_seat(b.proposal_id, b.voter) {
            self.ballots.update(self.seat_index(b.proposal_id, b.voter), b)
        } else {
            self.ballots.push(b)
        }
    }

    /// Why casting `b` (with the voter holding `balance`) at ledger `now` is refused.
    pub open spec fn vote_error(self, b: Ballot, balance: i128, now: u32) -> Option<
        WhitelistError,
    > {
        let id = b.proposal_id;
        let nb = self.ballots_after(b);
        if !self.contains(id) {
            Some(WhitelistError::ProposalNotFound)
        } else if self.proposal(id).status != ProposalStatus::Active {
            Some(WhitelistError::ProposalNotActive)
        } else if now > self.proposal(id).voting_ends_at {
            Some(WhitelistError::VotingWindowClosed)
        } else if b.weight <= 0 {
            Some(WhitelistError::InvalidVoteWeight)
        } else if b.weight > balance {
            Some(WhitelistError::VoteWeightExceedsBalance)
        } else if side_sum(nb, id, true) + side_sum(nb, id, false) > i128::MAX {
            Some(WhitelistError::Overflow)
        } else {
            None
        }
    }

    /// The book after `b` is cast: the ballot is recorded and the proposal's
    /// tallies become the sums of its ballots.
    pub open spec fn after_vote(self, b: Ballot) -> BookView {
        let id = b.proposal_id;
        let nb = self.ballots_after(b);
        BookView {
            proposals: self.proposals.update(
                id as int,
                Proposal {
                    approve_weight: side_sum(nb, id, true) as i128,
                    reject_weight: side_sum(nb, id, false) as i128,
                    ..self.proposal(id)
                },
            ),
            ballots: nb,
        }
    }

    /// Why finalising proposal `id` at ledger `now` is refused.
    pub open spec fn finalise_error(self, id: u32, now: u32) -> Option<WhitelistError> {
        if !self.contains(id) {
            Some(WhitelistError::ProposalNotFound)
        } else if self.proposal(id).status != ProposalStatus::Active {
            Some(WhitelistError::ProposalNotActive)
        } else if now <= self.proposal(id).voting_ends_at {
            Some(WhitelistError::VotingWindowOpen)
        } else {
            None
        }
    }

    /// The status that finalisation gives proposal `id`.
    pub open spec fn verdict(self, id: u32, quorum_bps: u32) -> ProposalStatus {
        if passes(self.proposal(id), quorum_bps) {
            ProposalStatus::PendingEnactment
        } else {
            ProposalStatus::Failed
        }
    }

    /// The book after proposal `id` is finalised at `now`: a passed proposal
    /// becomes enactable `delay` ledgers later, any other fails.
    pub open spec fn after_finalise(self, id: u32, now: u32, quorum_bps: u32, delay: u32) -> BookView {
        let p = self.proposal(id);
        BookView {
            proposals: self.proposals.update(
                id as int,
                Proposal {
                    status: self.verdict(id, quorum_bps),
                    enactable_at: if passes(p, quorum_bps) {
                        (now + delay) as u64
                    } else {
                        p.enactable_at
                    },
                    ..p
                },
            ),
            ballots: self.ballots,
        }
    }

    /// The book with proposal `id` given status `status`.
    pub open spec fn with_status(self, id: u32, status: ProposalStatus) -> BookView {
        BookView {
            proposals: self.proposals.update(id as int, Proposal { status, ..self.proposal(id) }),
            ballots: self.ballots,
        }
    }

    /// Why vetoing proposal `id` is refused.
    pub open spec fn veto_error(self, id: u32) -> Option<WhitelistError> {
        if !self.contains(id) {
            Some(WhitelistError::ProposalNotFound)
        } else if self.proposal(id).status != ProposalStatus::Active && self.proposal(id).status
            != ProposalStatus::PendingEnactment {
            Some(WhitelistError::ProposalNotVetoable)
        } else {
            None
        }
    }

    /// Why enacting proposal `id` at ledger `now` is refused.
    pub open spec fn enact_error(self, id: u32, now: u32) -> Option<WhitelistError> {
        if !self.contains(id) {
            Some(WhitelistError::ProposalNotFound)
        } else if self.proposal(id).status != ProposalStatus::PendingEnactment {
            Some(WhitelistError::ProposalNotPendingEnactment)
        } else if now < self.proposal(id).enactable_at {
            Some(WhitelistError::EnactmentDelayNotElapsed)
        } else {
            None
        }
    }
}

/// Replacing ballot `i` changes each tally by the difference of the two
/// ballots' contributions.
pub proof fn lemma_side_sum_update(s: Seq<Ballot>, i: int, b: Ballot, id: u32, side: bool)
    requires
        0 <= i < s.len(),
    ensures
        side_sum(s.update(i, b), id, side) == side_sum(s, id, side) - contribution(s[i], id, side)
            + contribution(b, id, side),
    decreases s.len(),
{
    let t = s.update(i, b);
    if i == s.len() - 1 {
        assert(t.drop_last() =~= s.drop_last());
    } else {
        assert(t.drop_last() =~= s.drop_last().update(i, b));
        lemma_side_sum_update(s.drop_last(), i, b, id, side);
    }
}

/// Appending a ballot adds its contribution.
pub proof fn lemma_side_sum_push(s: Seq<Ballot>, b: Ballot, id: u32, side: bool)
    ensures
        side_sum(s.push(b), id, side) == side_sum(s, id, side) + contribution(b, id, side),
{
    assert(s.push(b).drop_last() =~= s);
}

/// With positive weights, a tally is non-negative and at least the
/// contribution of any one ballot.
pub proof fn lemma_side_sum_bounds(s: Seq<Ballot>, id: u32, side: bool)
    requires
        forall|i: int| 0 <= i < s.len() ==> (#[trigger] s[i]).weight > 0,
    ensures
        side_sum(s, id, side) >= 0,
        forall|i: int| 0 <= i < s.len() ==> contribution(#[trigger] s[i], id, side) <= side_sum(s, id, side),
    decreases s.len(),
{
    if s.len() > 0 {
        let d = s.drop_last();
        assert forall|i: int| 0 <= i < d.len() implies (#[trigger] d[i]).weight > 0 by {
            assert(d[i] == s[i]);
        }
        lemma_side_sum_bounds(d, id, side);
        assert forall|i: int| 0 <= i < s.len() implies contribution(#[trigger] s[i], id, side)
            <= side_sum(s, id, side) by {
            if i < s.len() - 1 {
                assert(s[i] == d[i]);
            }
        }
    }
}

/// A ballot for another proposal leaves this proposal's tallies alone.
proof fn lemma_other_tallies_kept(v: BookView, b: Ballot, j: u32)
    requires
        v.wf(),
        v.contains(b.proposal_id),
        j != b.proposal_id,
    ensures
        side_sum(v.ballots_after(b), j, true) == side_sum(v.ballots, j, true),
        side_sum(v.ballots_after(b), j, false) == side_sum(v.ballots, j, false),
{
    if v.has_seat(b.proposal_id, b.voter) {
        let k = v.seat_index(b.proposal_id, b.voter);
        lemma_side_sum_update(v.ballots, k, b, j, true);
        lemma_side_sum_update(v.ballots, k, b, j, false);
    } else {
        lemma_side_sum_push(v.ballots, b, j, true);
        lemma_side_sum_push(v.ballots, b, j, false);
    }
}

/// Casting an accepted ballot keeps the book well formed.
pub proof fn lemma_vote_keeps_wf(v: BookView, b: Ballot, balance: i128, now: u32)
    requires
        v.wf(),
        v.vote_error(b, balance, now) is None,
    ensures
        v.after_vote(b).wf(),
{
    let id = b.proposal_id;
    let nb = v.ballots_after(b);
    let w = v.after_vote(b);
    if v.has_seat(id, b.voter) {
        let k = v.seat_index(id, b.voter);
        assert forall|i: int, j: int| 0 <= i < j < nb.len() implies !same_seat(
            #[trigger] nb[i],
            #[trigger] nb[j],
        ) by {
            if i != k && j != k {
                assert(nb[i] == v.ballots[i] && nb[j] == v.ballots[j]);
            } else if i == k {
                assert(nb[j] == v.ballots[j]);
                assert(same_seat(v.ballots[k], nb[i]));
            } else {
                assert(nb[i] == v.ballots[i]);
                assert(same_seat(v.ballots[k], nb[j]));
            }
        }
        assert forall|i: int| 0 <= i < nb.len() implies (#[trigger] nb[i]).weight > 0
            && nb[i].proposal_id < w.proposals.len() by {
            if i != k {
                assert(nb[i] == v.ballots[i]);
            }
        }
    } else {
        assert forall|i: int, j: int| 0 <= i < j < nb.len() implies !same_seat(
            #[trigger] nb[i],
            #[trigger] nb[j],
        ) by {
            assert(nb[i] == v.ballots[i]);
            if j == v.ballots.len() {
                if same_seat(nb[i], nb[j]) {
                    assert(v.has_seat(id, b.voter));
                }
            } else {
                assert(nb[j] == v.ballots[j]);
            }
        }
        assert forall|i: int| 0 <= i < nb.len() implies (#[trigger] nb[i]).weight > 0
            && nb[i].proposal_id < w.proposals.len() by {
            if i < v.ballots.len() {
                assert(nb[i] == v.ballots[i]);
            }
        }
    }
    lemma_side_sum_bounds(nb, id, true);
    lemma_side_sum_bounds(nb, id, false);
    assert forall|i: int| 0 <= i < w.proposals.len() implies tallies_match(
        nb,
        #[trigger] w.proposals[i],
    ) by {
        if i != id {
            assert(w.proposals[i] == v.proposals[i]);
            assert(tallies_match(v.ballots, v.proposals[i]));
            lemma_other_tallies_kept(v, b, i as u32);
        }
    }
    assert forall|i: int| 0 <= i < w.proposals.len() implies (#[trigger] w.proposals[i]).id
        == i by {
        if i != id {
            assert(w.proposals[i] == v.proposals[i]);
        }
    }
}

/// A book of proposals with the ballots cast on them.
pub struct ProposalBook {
    proposals: Vec<Proposal>,
    ballots: Vec<Ballot>,
}

impl View for ProposalBook {
    type V = BookView;

    closed spec fn view(&self) -> BookView {
        BookView { proposals: self.proposals@, ballots: self.ballots@ }
    }
}

impl ProposalBook {
    /// An empty book; ids start at 0.
    pub fn new() -> (book: ProposalBook)
        ensures
            book@.proposals == Seq::<Proposal>::empty(),
            book@.ballots == Seq::<Ballot>::empty(),
            book@.wf(),
    {
        ProposalBook { proposals: Vec::new(), ballots: Vec::new() }
    }

    /// The number of proposals recorded so far (the next id).
    pub fn len(&self) -> (n: usize)
        ensures
            n == self@.proposals.len(),
    {
        self.proposals.len()
    }

    /// The proposal with id `id`, if any.
    pub fn get(&self, id: u32) -> (p: Option<Proposal>)
        ensures
            p == (if self@.contains(id) {
                Some(self@.proposal(id))
            } else {
                None
            }),
    {
        if (id as usize) < self.proposals.len() {
            Some(self.proposals[id as usize])
        } else {
            None
        }
    }

    /// Records a new active proposal whose voting window closes `window`
    /// ledgers after `now`; its id is the number of earlier proposals.
    pub fn propose(
        &mut self,
        proposer: Address,
        token: Address,
        rationale: Hash32,
        now: u32,
        window: u32,
    ) -> (r: Result<u32, WhitelistError>)
        requires
            old(self)@.wf(),
        ensures
            final(self)@.wf(),
            match r {
                Ok(id) => {
                    &&& id == old(self)@.proposals.len()
                    &&& final(self)@ == (BookView {
                        proposals: old(self)@.proposals.push(
                            fresh_proposal(id, proposer, token, rationale, now, window),
                        ),
                        ballots: old(self)@.ballots,
                    })
                },
                Err(e) => {
                    &&& e == WhitelistError::Overflow
                    &&& old(self)@.proposals.len() == u32::MAX
                    &&& final(self)@ == old(self)@
                },
            },            // The new proposal is open, untallied, and takes votes from `now`
            // through `now + window`.
            r matches Ok(id) ==> {
                let p = final(self)@.proposals[id as int];
                &&& p.created_at == now
                &&& p.voting_ends_at == now + window
                &&& p.status == ProposalStatus::Active
                &&& p.approve_weight == 0 && p.reject_weight == 0
                &&& p.proposer == proposer && p.token == token
            },
    {
        let n = self.proposals.len();
        if n >= 0xffff_ffffusize {
            return Err(WhitelistError::Overflow);
        }
        let id = n as u32;
        let p = Proposal {
            id,
            proposer,
            token,
            rationale,
            created_at: now,
            voting_ends_at: now as u64 + window as u64,
            approve_weight: 0,
            reject_weight: 0,
            status: ProposalStatus::Active,
            enactable_at: 0,
        };
        let ghost before = self@;
        self.proposals.push(p);
        proof {
            let after = self@;
            assert(after.ballots == before.ballots);
            assert forall|i: int| 0 <= i < after.proposals.len() implies tallies_match(
                after.ballots,
                #[trigger] after.proposals[i],
            ) by {
                if i < before.proposals.len() {
                    assert(after.proposals[i] == before.proposals[i]);
                } else {
                    // Every recorded ballot is for an older proposal.
                    lemma_no_ballots_zero_sum(before.ballots, id, true);
                    lemma_no_ballots_zero_sum(before.ballots, id, false);
                }
            }
            assert forall|i: int| 0 <= i < after.proposals.len() implies (
            #[trigger] after.proposals[i]).id == i by {
                if i < before.proposals.len() {
                    assert(after.proposals[i] == before.proposals[i]);
                }
            }
        }
        Ok(id)
    }

    /// The position of `voter`'s ballot on proposal `id`, if any.
    fn find_seat(&self, id: u32, voter: Address) -> (k: Option<usize>)
        requires
            self@.wf(),
        ensures
            match k {
                Some(i) => self@.has_seat(id, voter) && i == self@.seat_index(id, voter),
                None => !self@.has_seat(id, voter),
            },
    {
        let n = self.ballots.len();
        let mut i: usize = 0;
        while i < n
            invariant
                self@.wf(),
                n == self.ballots@.len(),
                i <= n,
                forall|j: int|
                    0 <= j < i ==> !((#[trigger] self@.ballots[j]).proposal_id == id
                        && self@.ballots[j].voter == voter),
            decreases n - i,
        {
            let b = self.ballots[i];
            if b.proposal_id == id && b.voter == voter {
                proof {
                    assert(self@.ballots[i as int] == b);
                    assert(self@.has_seat(id, voter));
                    let k = self@.seat_index(id, voter);
                    assert(0 <= k < n && self@.ballots[k].proposal_id == id
                        && self@.ballots[k].voter == voter);
                    assert(k == i as int) by {
                        if k < i as int {
                            assert(same_seat(self@.ballots[k], self@.ballots[i as int]));
                            assert(!same_seat(self@.ballots[k], self@.ballots[i as int]));
                        } else if k > i as int {
                            assert(same_seat(self@.ballots[i as int], self@.ballots[k]));
                            assert(!same_seat(self@.ballots[i as int], self@.ballots[k]));
                        }
                    }
                }
                return Some(i);
            }
            i += 1;
        }
        None
    }

    /// Casts (or replaces) `voter`'s ballot on proposal `id` with weight
    /// `weight`, the voter holding `balance` governance tokens, at ledger `now`.
    pub fn vote(
        &mut self,
        id: u32,
        voter: Address,
        approve: bool,
        weight: i128,
        balance: i128,
        now: u32,
    ) -> (r: Result<(), WhitelistError>)
        requires
            old(self)@.wf(),
        ensures
            final(self)@.wf(),
            ({
                let b = Ballot { proposal_id: id, voter, approve, weight };
                match r {
                    Ok(()) => old(self)@.vote_error(b, balance, now) is None && final(self)@
                        == old(self)@.after_vote(b),
                    Err(e) => old(self)@.vote_error(b, balance, now) == Some(e) && final(self)@
                        == old(self)@,
                }
            }),            // An accepted vote has positive weight within the voter's balance,
            // was cast within the window, and leaves the voter's side tallied
            // with it.
            r is Ok ==> {
                &&& 0 < weight <= balance
                &&& now <= old(self)@.proposals[id as int].voting_ends_at
                &&& (approve ==> final(self)@.proposals[id as int].approve_weight >= weight)
                &&& (!approve ==> final(self)@.proposals[id as int].reject_weight >= weight)
            },
    {
        let ghost v = self@;
        let b = Ballot { proposal_id: id, voter, approve, weight };
        if id as usize >= self.proposals.len() {
            return Err(WhitelistError::ProposalNotFound);
        }
        let p = self.proposals[id as usize];
        match p.status {
            ProposalStatus::Active => {},
            _ => {
                return Err(WhitelistError::ProposalNotActive);
            },
        }
        if now as u64 > p.voting_ends_at {
            return Err(WhitelistError::VotingWindowClosed);
        }
        if weight <= 0 {
            return Err(WhitelistError::InvalidVoteWeight);
        }
        if weight > balance {
            return Err(WhitelistError::VoteWeightExceedsBalance);
        }
        proof {
            assert(v.proposals[id as int] == p);
            assert(tallies_match(v.ballots, p));
            lemma_side_sum_bounds(v.ballots, id, true);
            lemma_side_sum_bounds(v.ballots, id, false);
        }
        let seat = self.find_seat(id, voter);
        let mut a: i128 = p.approve_weight;
        let mut r: i128 = p.reject_weight;
        match seat {
            Some(k) => {
                let old_b = self.ballots[k];
                proof {
                    assert(v.ballots[k as int] == old_b);
                    lemma_side_sum_update(v.ballots, k as int, b, id, true);
                    lemma_side_sum_update(v.ballots, k as int, b, id, false);
                }
                if old_b.approve {
                    a = a - old_b.weight;
                } else {
                    r = r - old_b.weight;
                }
            },
            None => {
                proof {
                    lemma_side_sum_push(v.ballots, b, id, true);
                    lemma_side_sum_push(v.ballots, b, id, false);
                }
            },
        }
        // a and r are now the tallies without this voter's earlier ballot.
        if approve {
            if a > i128::MAX - weight || a + weight > i128::MAX - r {
                return Err(WhitelistError::Overflow);
            }
            a = a + weight;
        } else {
            if r > i128::MAX - weight || a > i128::MAX - (r + weight) {
                return Err(WhitelistError::Overflow);
            }
            r = r + weight;
        }
        proof {
            assert(a == side_sum(v.ballots_after(b), id, true));
            assert(r == side_sum(v.ballots_after(b), id, false));
        }
        match seat {
            Some(k) => {
                self.ballots.set(k, b);
            },
            None => {
                self.ballots.push(b);
            },
        }
        let np = Proposal { approve_weight: a, reject_weight: r, ..p };
        self.proposals.set(id as usize, np);
        proof {
            assert(self@.ballots =~= v.ballots_after(b));
            assert(self@.proposals =~= v.after_vote(b).proposals);
            lemma_vote_keeps_wf(v, b, balance, now);
        }
        Ok(())
    }

    /// Closes voting on proposal `id` at ledger `now`: it becomes
    /// `PendingEnactment` (enactable `delay` ledgers later) when it meets
    /// `quorum_bps`, and `Failed` otherwise. Returns the new status.
    pub fn finalise(&mut self, id: u32, now: u32, quorum_bps: u32, delay: u32) -> (r: Result<
        ProposalStatus,
        WhitelistError,
    >)
        requires
            old(self)@.wf(),
            quorum_bps <= 10_000,
        ensures
            final(self)@.wf(),
            match r {
                Ok(s) => {
                    &&& old(self)@.finalise_error(id, now) is None
                    &&& s == old(self)@.verdict(id, quorum_bps)
                    &&& final(self)@ == old(self)@.after_finalise(id, now, quorum_bps, delay)
                },
                Err(e) => old(self)@.finalise_error(id, now) == Some(e) && final(self)@ == old(
                    self,
                )@,
            },
    {
        let ghost v = self@;
        if id as usize >= self.proposals.len() {
            return Err(WhitelistError::ProposalNotFound);
        }
        let p = self.proposals[id as usize];
        match p.status {
            ProposalStatus::Active => {},
            _ => {
                return Err(WhitelistError::ProposalNotActive);
            },
        }
        if now as u64 <= p.voting_ends_at {
            return Err(WhitelistError::VotingWindowOpen);
        }
        proof {
            assert(v.proposals[id as int] == p);
            assert(tallies_match(v.ballots, p));
            lemma_side_sum_bounds(v.ballots, id, true);
            lemma_side_sum_bounds(v.ballots, id, false);
        }
        let total = p.approve_weight + p.reject_weight;
        let passed = meets_quorum(p.approve_weight as u128, total as u128, quorum_bps);
        let np = if passed {
            Proposal {
                status: ProposalStatus::PendingEnactment,
                enactable_at: now as u64 + delay as u64,
                ..p
            }
        } else {
            Proposal { status: ProposalStatus::Failed, ..p }
        };
        self.proposals.set(id as usize, np);
        proof {
            assert(self@.proposals =~= v.after_finalise(id, now, quorum_bps, delay).proposals);
            let w = self@;
            assert forall|i: int| 0 <= i < w.proposals.len() implies tallies_match(
                w.ballots,
                #[trigger] w.proposals[i],
            ) && w.proposals[i].id == i by {
                assert(tallies_match(v.ballots, v.proposals[i]));
                assert(v.proposals[i].id == i);
            }
        }
        Ok(np.status)
    }

    /// Vetoes proposal `id` while it is active or pending enactment.
    pub fn veto(&mut self, id: u32) -> (r: Result<(), WhitelistError>)
        requires
            old(self)@.wf(),
        ensures
            final(self)@.wf(),
            match r {
                Ok(()) => old(self)@.veto_error(id) is None && final(self)@ == old(self)@.with_status(
                    id,
                    ProposalStatus::Vetoed,
                ),
                Err(e) => old(self)@.veto_error(id) == Some(e) && final(self)@ == old(self)@,
            },
    {
        if id as usize >= self.proposals.len() {
            return Err(WhitelistError::ProposalNotFound);
        }
        let p = self.proposals[id as usize];
        match p.status {
            ProposalStatus::Active => {},
            ProposalStatus::PendingEnactment => {},
            _ => {
                return Err(WhitelistError::ProposalNotVetoable);
            },
        }
        self.set_status(id, ProposalStatus::Vetoed);
        Ok(())
    }

    /// Marks passed proposal `id` enacted once its delay has elapsed at ledger
    /// `now`, and returns the token it concerns.
    pub fn enact(&mut self, id: u32, now: u32) -> (r: Result<Address, WhitelistError>)
        requires
            old(self)@.wf(),
        ensures
            final(self)@.wf(),
            match r {
                Ok(t) => {
                    &&& old(self)@.enact_error(id, now) is None
                    &&& t == old(self)@.proposal(id).token
                    &&& final(self)@ == old(self)@.with_status(id, ProposalStatus::Enacted)
                },
                Err(e) => old(self)@.enact_error(id, now) == Some(e) && final(self)@ == old(self)@,
            },
    {
        if id as usize >= self.proposals.len() {
            return Err(WhitelistError::ProposalNotFound);
        }
        let p = self.proposals[id as usize];
        match p.status {
            ProposalStatus::PendingEnactment => {},
            _ => {
                return Err(WhitelistError::ProposalNotPendingEnactment);
            },
        }
        if (now as u64) < p.enactable_at {
            return Err(WhitelistError::EnactmentDelayNotElapsed);
        }
        self.set_status(id, ProposalStatus::Enacted);
        Ok(p.token)
    }

    fn set_status(&mut self, id: u32, status: ProposalStatus)
        requires
            old(self)@.wf(),
            old(self)@.contains(id),
        ensures
            final(self)@.wf(),
            final(self)@ == old(self)@.with_status(id, status),
    {
        let ghost v = self@;
        let p = self.proposals[id as usize];
        self.proposals.set(id as usize, Proposal { status, ..p });
        proof {
            assert(self@.proposals =~= v.with_status(id, status).proposals);
            let w = self@;
            assert forall|i: int| 0 <= i < w.proposals.len() implies tallies_match(
                w.ballots,
                #[trigger] w.proposals[i],
            ) && w.proposals[i].id == i by {
                assert(tallies_match(v.ballots, v.proposals[i]));
                assert(v.proposals[i].id == i);
            }
        }
    }
}

/// A proposal with no ballots has zero tallies.
proof fn lemma_no_ballots_zero_sum(s: Seq<Ballot>, id: u32, side: bool)
    requires
        forall|j: int| 0 <= j < s.len() ==> contribution(#[trigger] s[j], id, side) == 0,
    ensures
        side_sum(s, id, side) == 0,
    decreases s.len(),
{
    if s.len() > 0 {
        let d = s.drop_last();
        assert forall|j: int| 0 <= j < d.len() implies contribution(#[trigger] d[j], id, side)
            == 0 by {
            assert(d[j] == s[j]);
        }
        lemma_no_ballots_zero_sum(d, id, side);
        assert(contribution(s[s.len() - 1], id, side) == 0);
    }
}

} // verus!
