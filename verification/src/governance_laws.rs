//! Laws of proposal books: tallies, repeated votes, the order of the voting,
//! finalisation and enactment phases, and the life cycle of a status.

use vstd::prelude::*;

use crate::error::WhitelistError;
use crate::governance::{
    lemma_vote_keeps_wf, side_sum, Ballot, BookView, ProposalStatus,
};
use crate::keys::Address;
use crate::whitelist::WhitelistView;

verus! {

/// Each proposal's tallies are the sums of the weights of the ballots
/// currently recorded for it, one ballot per voter.
pub proof fn law_tallies_are_ballot_sums(v: BookView, id: u32)
    requires
        v.wf(),
        v.contains(id),
    ensures
        v.proposal(id).approve_weight == side_sum(v.ballots, id, true),
        v.proposal(id).reject_weight == side_sum(v.ballots, id, false),
        v.proposal(id).approve_weight >= 0,
        v.proposal(id).reject_weight >= 0,
{
    assert(crate::governance::tallies_match(v.ballots, v.proposals[id as int]));
    crate::governance::lemma_side_sum_bounds(v.ballots, id, true);
    crate::governance::lemma_side_sum_bounds(v.ballots, id, false);
}

/// When a voter votes twice on one proposal, the second vote leaves the book
/// exactly as if the first had never been cast (last write wins).
pub proof fn law_last_vote_wins(
    v: BookView,
    id: u32,
    voter: Address,
    first_approve: bool,
    first_weight: i128,
    first_balance: i128,
    first_now: u32,
    second_approve: bool,
    second_weight: i128,
    second_balance: i128,
    second_now: u32,
)
    requires
        v.wf(),
        v.vote_error(
            Ballot { proposal_id: id, voter, approve: first_approve, weight: first_weight },
            first_balance,
            first_now,
        ) is None,
        v.after_vote(Ballot { proposal_id: id, voter, approve: first_approve, weight: first_weight }).vote_error(
            Ballot { proposal_id: id, voter, approve: second_approve, weight: second_weight },
            second_balance,
            second_now,
        ) is None,
    ensures
        v.after_vote(Ballot { proposal_id: id, voter, approve: first_approve, weight: first_weight }).after_vote(
            Ballot { proposal_id: id, voter, approve: second_approve, weight: second_weight },
        ) == v.after_vote(Ballot { proposal_id: id, voter, approve: second_approve, weight: second_weight }),
{
    let b1 = Ballot { proposal_id: id, voter, approve: first_approve, weight: first_weight };
    let b2 = Ballot { proposal_id: id, voter, approve: second_approve, weight: second_weight };
    let v1 = v.after_vote(b1);
    lemma_vote_keeps_wf(v, b1, first_balance, first_now);
    let k = if v.has_seat(id, voter) { v.seat_index(id, voter) } else { v.ballots.len() as int };
    assert(v1.ballots =~= if v.has_seat(id, voter) { v.ballots.update(k, b1) } else { v.ballots.push(b1) });
    assert(v1.ballots[k] == b1);
    assert(v1.has_seat(id, voter));
    let k1 = v1.seat_index(id, voter);
    assert(k1 == k) by {
        if k1 < k {
            assert(crate::governance::same_seat(v1.ballots[k1], v1.ballots[k]));
        } else if k1 > k {
            assert(crate::governance::same_seat(v1.ballots[k], v1.ballots[k1]));
        }
    }
    assert(v1.ballots_after(b2) =~= v.ballots_after(b2));
    let v2 = v1.after_vote(b2);
    let w = v.after_vote(b2);
    assert(v2.proposals =~= w.proposals);
}

/// A vote is accepted only with a positive weight no larger than the voter's
/// balance, within the proposal's window, whether or not the voter already
/// holds a ballot on it.
pub proof fn law_accepted_vote_within_balance(v: BookView, b: Ballot, balance: i128, now: u32)
    requires
        v.wf(),
        v.vote_error(b, balance, now) is None,
    ensures
        0 < b.weight <= balance,
        now <= v.proposal(b.proposal_id).voting_ends_at,
        v.proposal(b.proposal_id).status == ProposalStatus::Active,
{
}

/// A proposal made at ledger `now` with a window of `window` ledgers takes
/// votes at every ledger from `now` through `now + window`, and refuses them
/// as late after that.
pub proof fn law_new_proposal_window(
    v: BookView,
    proposer: Address,
    token: Address,
    rationale: crate::governance::Hash32,
    now: u32,
    window: u32,
    b: Ballot,
    balance: i128,
    later: u32,
)
    requires
        v.wf(),
        v.proposals.len() < u32::MAX,
        b.proposal_id == v.proposals.len(),
    ensures
        ({
            let w = BookView {
                proposals: v.proposals.push(
                    crate::governance::fresh_proposal(
                        b.proposal_id,
                        proposer,
                        token,
                        rationale,
                        now,
                        window,
                    ),
                ),
                ballots: v.ballots,
            };
            &&& now <= later <= now + window ==> w.vote_error(b, balance, later) != Some(
                WhitelistError::VotingWindowClosed,
            )
            &&& later > now + window ==> w.vote_error(b, balance, later) == Some(
                WhitelistError::VotingWindowClosed,
            )
        }),
{
    let w = BookView {
        proposals: v.proposals.push(
            crate::governance::fresh_proposal(b.proposal_id, proposer, token, rationale, now, window),
        ),
        ballots: v.ballots,
    };
    assert(w.proposal(b.proposal_id) == crate::governance::fresh_proposal(
        b.proposal_id,
        proposer,
        token,
        rationale,
        now,
        window,
    ));
}

/// Which status changes a proposal may go through: it stays, or an active
/// proposal passes, fails or is vetoed, or a pending one is enacted or vetoed.
pub open spec fn status_step(from: ProposalStatus, to: ProposalStatus) -> bool {
    from == to || (from == ProposalStatus::Active && (to == ProposalStatus::PendingEnactment || to
        == ProposalStatus::Failed || to == ProposalStatus::Vetoed)) || (from
        == ProposalStatus::PendingEnactment && (to == ProposalStatus::Enacted || to
        == ProposalStatus::Vetoed))
}

/// Every proposal of `v` is still in `w`, and its status moved by `status_step`.
pub open spec fn statuses_advance(v: BookView, w: BookView) -> bool {
    &&& v.proposals.len() <= w.proposals.len()
    &&& forall|i: int|
        0 <= i < v.proposals.len() ==> status_step(
            #[trigger] v.proposals[i].status,
            w.proposals[i].status,
        )
}

/// Enacted, failed and vetoed proposals never change status again.
pub proof fn law_terminal_statuses_are_final(from: ProposalStatus, to: ProposalStatus)
    requires
        from == ProposalStatus::Enacted || from == ProposalStatus::Failed || from
            == ProposalStatus::Vetoed,
        status_step(from, to),
    ensures
        to == from,
{
}

/// Each accepted book operation only moves statuses forward.
pub proof fn law_statuses_only_advance(
    v: BookView,
    b: Ballot,
    balance: i128,
    id: u32,
    now: u32,
    quorum_bps: u32,
    delay: u32,
)
    requires
        v.wf(),
    ensures
        v.vote_error(b, balance, now) is None ==> statuses_advance(v, v.after_vote(b)),
        v.finalise_error(id, now) is None ==> statuses_advance(
            v,
            v.after_finalise(id, now, quorum_bps, delay),
        ),
        v.veto_error(id) is None ==> statuses_advance(v, v.with_status(id, ProposalStatus::Vetoed)),
        v.enact_error(id, now) is None ==> statuses_advance(
            v,
            v.with_status(id, ProposalStatus::Enacted),
        ),
{
}

/// A ledger at which a vote on a proposal is accepted is one at which it
/// cannot be finalised, and a finalised proposal accepts no more votes.
pub proof fn law_voting_precedes_finalisation(v: BookView, b: Ballot, balance: i128, now: u32, later: u32, quorum_bps: u32, delay: u32)
    requires
        v.wf(),
    ensures
        v.vote_error(b, balance, now) is None ==> v.finalise_error(b.proposal_id, now) == Some(
            WhitelistError::VotingWindowOpen,
        ),
        v.finalise_error(b.proposal_id, now) is None ==> v.after_finalise(
            b.proposal_id,
            now,
            quorum_bps,
            delay,
        ).vote_error(b, balance, later) == Some(WhitelistError::ProposalNotActive),
{
}

/// Finalisation passes a proposal exactly when votes were cast and the
/// approving weight is at least `quorum_bps` basis points of all cast weight.
pub proof fn law_verdict_is_quorum(v: BookView, id: u32, quorum_bps: u32)
    requires
        v.wf(),
        v.contains(id),
    ensures
        ({
            let p = v.proposal(id);
            v.verdict(id, quorum_bps) == ProposalStatus::PendingEnactment <==> (p.approve_weight
                + p.reject_weight > 0 && p.approve_weight * 10_000 >= quorum_bps * (p.approve_weight
                + p.reject_weight))
        }),
{
}

/// A proposal finalised at `now` cannot be enacted before `now + delay`.
pub proof fn law_enactment_waits_for_delay(
    v: BookView,
    id: u32,
    now: u32,
    quorum_bps: u32,
    delay: u32,
    later: u32,
)
    requires
        v.wf(),
        v.finalise_error(id, now) is None,
    ensures
        v.after_finalise(id, now, quorum_bps, delay).enact_error(id, later) is None ==> later >= now
            + delay,
        v.verdict(id, quorum_bps) == ProposalStatus::Failed ==> v.after_finalise(
            id,
            now,
            quorum_bps,
            delay,
        ).enact_error(id, later) == Some(WhitelistError::ProposalNotPendingEnactment),
{
}

/// A vetoed proposal can never be enacted.
pub proof fn law_veto_blocks_enactment(v: BookView, id: u32, now: u32)
    requires
        v.wf(),
        v.veto_error(id) is None,
    ensures
        v.with_status(id, ProposalStatus::Vetoed).enact_error(id, now) == Some(
            WhitelistError::ProposalNotPendingEnactment,
        ),
{
}

/// Enacting a listing puts its token on the global whitelist; enacting a
/// delisting takes it off and clears its suspension, so the global check
/// denies it at every ledger.
pub proof fn law_enactment_effects(v: WhitelistView, token: Address, now: u32)
    ensures
        (WhitelistView { tokens: v.tokens.insert(token), ..v }).tokens.contains(token),
        ({
            let w = WhitelistView {
                tokens: v.tokens.remove(token),
                suspensions: v.suspensions.remove(token),
                ..v
            };
            &&& !w.allowed(token, now)
            &&& w.active_suspension(token, now) is None
        }),
{
}

} // verus!
