//! Laws that relate the instructions to one another, stated over the spec
//! functions that the instructions' own contracts use.
use vstd::prelude::*;

use crate::error::ErrorCode;
use crate::instructions::{
    reset_outcome, unlock_announces, unlock_outcome, vote_check, voted, ResetScore, UnlockRole,
    Vote, VoteDirection,
};
use crate::identity::Identity;
use crate::state::{no_prior_vote, score_of, ReputationEntry};

verus! {

/// Unlocking the role twice leaves the records as one unlock does, and the
/// second unlock announces nothing: across both calls at most one event.
pub proof fn lemma_unlock_idempotent(ctx: UnlockRole)
    requires
        ctx.user_entry.reputation >= ctx.board.top_contributor_threshold,
    ensures
        unlock_outcome(ctx) is Ok,
        unlock_outcome(unlock_outcome(ctx)->Ok_0) == unlock_outcome(ctx),
        !unlock_announces(unlock_outcome(ctx)->Ok_0),
{
}

/// After an accepted vote at time `t`, the same voter's next vote on the same
/// target fails for cooldown at `t + cooldown - 1` and passes every check at
/// `t + cooldown`. (A vote at time 0 records the "never voted" sentinel, so
/// it starts no cooldown.)
pub proof fn lemma_cooldown_monotone(ctx: Vote, t: i64, direction: VoteDirection)
    requires
        vote_check(ctx, t as int) is Ok,
        t != 0,
    ensures
        vote_check(voted(ctx, t, direction), t + ctx.board.cooldown - 1) == Err::<(), ErrorCode>(
            ErrorCode::CooldownNotPassed,
        ),
        vote_check(voted(ctx, t, direction), t + ctx.board.cooldown) is Ok,
{
}

/// A voter's first vote on a target never fails for cooldown, whatever the
/// time.
pub proof fn lemma_first_vote_exempt(ctx: Vote, now: int)
    requires
        no_prior_vote(ctx.vote_record),
    ensures
        vote_check(ctx, now) != Err::<(), ErrorCode>(ErrorCode::CooldownNotPassed),
{
}

/// An upvote followed by a downvote on the same target, by the same voter or
/// another, brings the target's score back to where it started.
pub proof fn lemma_up_then_down_restores(
    first: Vote,
    t1: i64,
    second: Vote,
    t2: i64,
)
    requires
        score_of(first.target_entry) < i64::MAX,
        second.target_entry == voted(first, t1, VoteDirection::Upvote).target_entry,
    ensures
        score_of(voted(second, t2, VoteDirection::Downvote).target_entry) == score_of(
            first.target_entry,
        ),
{
}

/// A downvote by a voter who holds the board's token and has not voted on
/// the target before is always accepted and lowers the score by one, also
/// when the score is zero or negative: downvotes by distinct voters drive the
/// score as far below zero as an `i64` reaches.
pub proof fn lemma_downvotes_unbounded(ctx: Vote, now: i64)
    requires
        ctx.voter_token_account.amount > 0,
        ctx.voter_token_account.mint@ == ctx.board.token_mint@,
        no_prior_vote(ctx.vote_record),
        score_of(ctx.target_entry) > i64::MIN,
    ensures
        vote_check(ctx, now as int) is Ok,
        score_of(voted(ctx, now, VoteDirection::Downvote).target_entry) == score_of(
            ctx.target_entry,
        ) - 1,
{
}

/// A reset asked for by anyone but the board's authority fails with
/// `NotAuthorized` (and a failed reset leaves the records unchanged).
pub proof fn lemma_reset_needs_authority(ctx: ResetScore)
    requires
        ctx.authority@ != ctx.board.authority@,
    ensures
        reset_outcome(ctx) == Err::<ResetScore, ErrorCode>(ErrorCode::NotAuthorized),
{
}

/// The target's entry after each voter of `voters`, in turn, casts a first
/// downvote on it at time `now`, all with the token account of `ctx`.
pub open spec fn after_first_downvotes(ctx: Vote, voters: Seq<Identity>, now: i64) -> Option<
    ReputationEntry,
>
    decreases voters.len(),
{
    if voters.len() == 0 {
        ctx.target_entry
    } else {
        let before = after_first_downvotes(ctx, voters.drop_last(), now);
        voted(
            Vote { target_entry: before, vote_record: None, voter: voters.last(), ..ctx },
            now,
            VoteDirection::Downvote,
        ).target_entry
    }
}

/// First downvotes by `n` voters who hold the board's token are each accepted
/// and take the score down by `n`, as long as the result fits in an `i64`.
pub proof fn lemma_many_downvotes(ctx: Vote, voters: Seq<Identity>, now: i64)
    requires
        ctx.voter_token_account.amount > 0,
        ctx.voter_token_account.mint@ == ctx.board.token_mint@,
        score_of(ctx.target_entry) - voters.len() >= i64::MIN,
    ensures
        score_of(after_first_downvotes(ctx, voters, now)) == score_of(ctx.target_entry)
            - voters.len(),
        forall|i: int|
            0 <= i < voters.len() ==> vote_check(
                Vote {
                    target_entry: after_first_downvotes(ctx, voters.take(i), now),
                    vote_record: None,
                    voter: #[trigger] voters[i],
                    ..ctx
                },
                now as int,
            ) is Ok,
    decreases voters.len(),
{
    if voters.len() > 0 {
        let rest = voters.drop_last();
        lemma_many_downvotes(ctx, rest, now);
        assert forall|i: int| 0 <= i < voters.len() implies vote_check(
            Vote {
                target_entry: after_first_downvotes(ctx, voters.take(i), now),
                vote_record: None,
                voter: #[trigger] voters[i],
                ..ctx
            },
            now as int,
        ) is Ok by {
            if i < rest.len() {
                assert(voters.take(i) =~= rest.take(i));
                assert(rest[i] == voters[i]);
            }
        }
    }
}

} // verus!
