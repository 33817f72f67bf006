use vstd::prelude::*;

use crate::error::ErrorCode;
use crate::events::{BoardInitializedEvent, RoleUnlockedEvent, ScoreResetEvent, UserVotedEvent};
use crate::identity::Identity;
use crate::state::{
    cooldown_elapsed, cooldown_passed, entry_or_fresh, load_or_create_entry, score_of,
    ReputationBoard, ReputationEntry, VoteRecord, VoterTokenAccount,
};

verus! {

// ---------------------------------------------------------------------------
// Board initialization
// ---------------------------------------------------------------------------

/// The records of a board initialization: the board slot (`None` while no
/// board exists), the signing authority and the token voters must hold.
#[derive(Clone, Copy, Debug)]
pub struct InitializeBoard {
    pub board: Option<ReputationBoard>,
    pub authority: Identity,
    pub token_mint: Identity,
}

/// The records after initializing with the given settings, or the error.
pub open spec fn initialize_outcome(
    ctx: InitializeBoard,
    cooldown: i64,
    top_contributor_threshold: i64,
) -> Result<InitializeBoard, ErrorCode> {
    if ctx.board is Some {
        Err(ErrorCode::AlreadyInitialized)
    } else {
        Ok(
            InitializeBoard {
                board: Some(
                    ReputationBoard {
                        authority: ctx.authority,
                        cooldown,
                        token_mint: ctx.token_mint,
                        top_contributor_threshold,
                    },
                ),
                authority: ctx.authority,
                token_mint: ctx.token_mint,
            },
        )
    }
}

/// Creates the board with the signer as authority. No setting is validated:
/// a zero or negative cooldown or threshold is accepted.
pub fn initialize_board(
    ctx: &mut InitializeBoard,
    cooldown: i64,
    top_contributor_threshold: i64,
) -> (r: Result<BoardInitializedEvent, ErrorCode>)
    ensures
        match r {
            Ok(ev) => {
                &&& initialize_outcome(*old(ctx), cooldown, top_contributor_threshold) == Ok::<
                    InitializeBoard,
                    ErrorCode,
                >(*final(ctx))
                &&& ev.authority == old(ctx).authority
                &&& ev.cooldown == cooldown
                &&& ev.token_mint == old(ctx).token_mint
                &&& ev.threshold == top_contributor_threshold
            },
            Err(e) => {
                &&& initialize_outcome(*old(ctx), cooldown, top_contributor_threshold) == Err::<
                    InitializeBoard,
                    ErrorCode,
                >(e)
                &&& *final(ctx) == *old(ctx)
            },
        },
{
    if ctx.board.is_some() {
        return Err(ErrorCode::AlreadyInitialized);
    }
    let board = ReputationBoard {
        authority: ctx.authority,
        cooldown,
        token_mint: ctx.token_mint,
        top_contributor_threshold,
    };
    ctx.board = Some(board);
    Ok(
        BoardInitializedEvent {
            authority: board.authority,
            cooldown,
            token_mint: board.token_mint,
            threshold: top_contributor_threshold,
        },
    )
}

// ---------------------------------------------------------------------------
// Voting
// ---------------------------------------------------------------------------

/// The records of a vote: the board, the target's entry and the pair's vote
/// record (each `None` while it does not exist yet), the voter, the target,
/// and the token account that the voter presents.
#[derive(Clone, Copy, Debug)]
pub struct Vote {
    pub board: ReputationBoard,
    pub target_entry: Option<ReputationEntry>,
    pub vote_record: Option<VoteRecord>,
    pub voter: Identity,
    pub target: Identity,
    pub voter_token_account: VoterTokenAccount,
}

/// The direction of a vote.
#[derive(Clone, Copy, Debug, PartialEq, Eq, Structural)]
pub enum VoteDirection {
    Upvote,
    Downvote,
}

impl VoteDirection {
    /// What the vote adds to the target's score.
    pub open spec fn delta(self) -> int {
        match self {
            VoteDirection::Upvote => 1,
            VoteDirection::Downvote => -1,
        }
    }

    pub open spec fn spec_label(self) -> Seq<char> {
        match self {
            VoteDirection::Upvote => "upvote"@,
            VoteDirection::Downvote => "downvote"@,
        }
    }

    /// The label that a vote event carries.
    pub fn label(&self) -> (r: String)
        ensures
            r@ == self.spec_label(),
    {
        match self {
            VoteDirection::Upvote => "upvote".to_owned(),
            VoteDirection::Downvote => "downvote".to_owned(),
        }
    }
}

/// The checks of a vote at time `now`, in order: the voter holds some of the
/// token, it is the board's token, and the cooldown has passed.
pub open spec fn vote_check(ctx: Vote, now: int) -> Result<(), ErrorCode> {
    if ctx.voter_token_account.amount == 0 {
        Err(ErrorCode::InsufficientTokenBalance)
    } else if ctx.voter_token_account.mint@ != ctx.board.token_mint@ {
        Err(ErrorCode::InvalidTokenMint)
    } else if !cooldown_passed(ctx.vote_record, now, ctx.board.cooldown as int) {
        Err(ErrorCode::CooldownNotPassed)
    } else {
        Ok(())
    }
}

/// The records after an accepted vote at time `now`: the pair's record holds
/// `now`, and the target's entry (created fresh if absent) moves by the
/// vote's delta.
pub open spec fn voted(ctx: Vote, now: i64, direction: VoteDirection) -> Vote {
    let entry = entry_or_fresh(ctx.target_entry, ctx.target);
    Vote {
        board: ctx.board,
        target_entry: Some(
            ReputationEntry {
                user: entry.user,
                reputation: (entry.reputation + direction.delta()) as i64,
                top_contributor: entry.top_contributor,
            },
        ),
        vote_record: Some(
            VoteRecord { voter: ctx.voter, target: ctx.target, last_vote_timestamp: now },
        ),
        voter: ctx.voter,
        target: ctx.target,
        voter_token_account: ctx.voter_token_account,
    }
}

/// The new score fits in an `i64`.
pub open spec fn vote_fits(ctx: Vote, direction: VoteDirection) -> bool {
    i64::MIN <= score_of(ctx.target_entry) + direction.delta() <= i64::MAX
}

/// What a vote returns and leaves behind: the event and the records of
/// `voted` when every check passes, else the first failing check's error and
/// the records unchanged.
pub open spec fn vote_result(
    pre: Vote,
    post: Vote,
    now: i64,
    direction: VoteDirection,
    r: Result<UserVotedEvent, ErrorCode>,
) -> bool {
    match r {
        Ok(ev) => {
            &&& vote_check(pre, now as int) is Ok
            &&& post == voted(pre, now, direction)
            &&& ev.voter == pre.voter
            &&& ev.target == pre.target
            &&& ev.action@ == direction.spec_label()
            &&& ev.new_score == score_of(pre.target_entry) + direction.delta()
        },
        Err(e) => {
            &&& vote_check(pre, now as int) == Err::<(), ErrorCode>(e)
            &&& post == pre
        },
    }
}

fn cast_vote(ctx: &mut Vote, current_time: i64, direction: VoteDirection) -> (r: Result<
    UserVotedEvent,
    ErrorCode,
>)
    requires
        vote_fits(*old(ctx), direction),
    ensures
        vote_result(*old(ctx), *final(ctx), current_time, direction, r),
{
    if ctx.voter_token_account.amount == 0 {
        return Err(ErrorCode::InsufficientTokenBalance);
    }
    if !ctx.voter_token_account.mint.same_as(&ctx.board.token_mint) {
        return Err(ErrorCode::InvalidTokenMint);
    }
    if !cooldown_elapsed(&ctx.vote_record, current_time, ctx.board.cooldown) {
        return Err(ErrorCode::CooldownNotPassed);
    }
    ctx.vote_record = Some(
        VoteRecord { voter: ctx.voter, target: ctx.target, last_vote_timestamp: current_time },
    );
    let entry = load_or_create_entry(ctx.target_entry, ctx.target);
    let new_score = match direction {
        VoteDirection::Upvote => entry.reputation + 1,
        VoteDirection::Downvote => entry.reputation - 1,
    };
    ctx.target_entry = Some(
        ReputationEntry {
            user: entry.user,
            reputation: new_score,
            top_contributor: entry.top_contributor,
        },
    );
    Ok(
        UserVotedEvent {
            voter: ctx.voter,
            target: ctx.target,
            action: direction.label(),
            new_score,
        },
    )
}

/// Raises the target's score by one, at `current_time`.
pub fn upvote(ctx: &mut Vote, current_time: i64) -> (r: Result<UserVotedEvent, ErrorCode>)
    requires
        score_of(old(ctx).target_entry) < i64::MAX,
    ensures
        vote_result(*old(ctx), *final(ctx), current_time, VoteDirection::Upvote, r),
{
    cast_vote(ctx, current_time, VoteDirection::Upvote)
}

/// Lowers the target's score by one, at `current_time`. The score may go
/// below zero.
pub fn downvote(ctx: &mut Vote, current_time: i64) -> (r: Result<UserVotedEvent, ErrorCode>)
    requires
        score_of(old(ctx).target_entry) > i64::MIN,
    ensures
        vote_result(*old(ctx), *final(ctx), current_time, VoteDirection::Downvote, r),
{
    cast_vote(ctx, current_time, VoteDirection::Downvote)
}

// ---------------------------------------------------------------------------
// Score reset
// ---------------------------------------------------------------------------

/// The records of a reset: the board, the target's existing entry, the
/// signer who asks for the reset, and the target.
#[derive(Clone, Copy, Debug)]
pub struct ResetScore {
    pub board: ReputationBoard,
    pub target_entry: ReputationEntry,
    pub authority: Identity,
    pub target: Identity,
}

/// The records after a reset, or the error: only the board's authority may
/// reset, and a reset clears both the score and the role.
pub open spec fn reset_outcome(ctx: ResetScore) -> Result<ResetScore, ErrorCode> {
    if ctx.authority@ != ctx.board.authority@ {
        Err(ErrorCode::NotAuthorized)
    } else {
        Ok(
            ResetScore {
                target_entry: ReputationEntry {
                    user: ctx.target_entry.user,
                    reputation: 0,
                    top_contributor: false,
                },
                ..ctx
            },
        )
    }
}

/// Sets the target's score to 0 and clears its role, if the signer is the
/// board's authority. No cooldown or token check applies.
pub fn reset_score(ctx: &mut ResetScore) -> (r: Result<ScoreResetEvent, ErrorCode>)
    ensures
        match r {
            Ok(ev) => {
                &&& reset_outcome(*old(ctx)) == Ok::<ResetScore, ErrorCode>(*final(ctx))
                &&& ev.authority == old(ctx).authority
                &&& ev.target == old(ctx).target
            },
            Err(e) => {
                &&& reset_outcome(*old(ctx)) == Err::<ResetScore, ErrorCode>(e)
                &&& *final(ctx) == *old(ctx)
            },
        },
{
    if !ctx.authority.same_as(&ctx.board.authority) {
        return Err(ErrorCode::NotAuthorized);
    }
    ctx.target_entry.reputation = 0;
    ctx.target_entry.top_contributor = false;
    Ok(ScoreResetEvent { authority: ctx.authority, target: ctx.target })
}

// ---------------------------------------------------------------------------
// Role unlock
// ---------------------------------------------------------------------------

/// The records of a role unlock: the board, the subject's entry and the
/// subject. Anyone may ask on behalf of any subject.
#[derive(Clone, Copy, Debug)]
pub struct UnlockRole {
    pub board: ReputationBoard,
    pub user_entry: ReputationEntry,
    pub user: Identity,
}

/// The records after an unlock, or the error: a subject whose score reaches
/// the threshold holds the role afterwards.
pub open spec fn unlock_outcome(ctx: UnlockRole) -> Result<UnlockRole, ErrorCode> {
    if ctx.user_entry.reputation < ctx.board.top_contributor_threshold {
        Err(ErrorCode::InsufficientReputation)
    } else {
        Ok(
            UnlockRole {
                user_entry: ReputationEntry { top_contributor: true, ..ctx.user_entry },
                ..ctx
            },
        )
    }
}

/// Whether an accepted unlock announces the role: only when the subject did
/// not hold it yet.
pub open spec fn unlock_announces(ctx: UnlockRole) -> bool {
    !ctx.user_entry.top_contributor
}

pub open spec fn spec_top_contributor_role() -> Seq<char> {
    "top_contributor"@
}

/// Grants the top-contributor role to a subject whose score reaches the
/// threshold. Returns the event when the role is newly granted, and `None`
/// when the subject held it already.
pub fn unlock_role(ctx: &mut UnlockRole) -> (r: Result<Option<RoleUnlockedEvent>, ErrorCode>)
    ensures
        match r {
            Ok(ev) => {
                &&& unlock_outcome(*old(ctx)) == Ok::<UnlockRole, ErrorCode>(*final(ctx))
                &&& (ev is Some <==> unlock_announces(*old(ctx)))
                &&& ev matches Some(e) ==> {
                    &&& e.user == old(ctx).user
                    &&& e.role@ == spec_top_contributor_role()
                    &&& e.reputation == old(ctx).user_entry.reputation
                }
            },
            Err(e) => {
                &&& unlock_outcome(*old(ctx)) == Err::<UnlockRole, ErrorCode>(e)
                &&& *final(ctx) == *old(ctx)
            },
        },
{
    if ctx.user_entry.reputation < ctx.board.top_contributor_threshold {
        return Err(ErrorCode::InsufficientReputation);
    }
    if ctx.user_entry.top_contributor {
        return Ok(None);
    }
    ctx.user_entry.top_contributor = true;
    Ok(
        Some(
            RoleUnlockedEvent {
                user: ctx.user,
                role: "top_contributor".to_owned(),
                reputation: ctx.user_entry.reputation,
            },
        ),
    )
}

} // verus!
