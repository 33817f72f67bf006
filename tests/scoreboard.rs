use reputation_scoreboard::{
    downvote, initialize_board, reset_score, unlock_role, upvote, BoardInitializedEvent,
    ErrorCode, Identity, InitializeBoard, ReputationBoard, ReputationEntry, ResetScore,
    RoleUnlockedEvent, ScoreResetEvent, UnlockRole, Vote, VoteDirection, VoteRecord,
    VoterTokenAccount,
};

fn id(b: u8) -> Identity {
    Identity::new([b; 32])
}

const AUTHORITY: u8 = 1;
const MINT: u8 = 2;
const TARGET: u8 = 3;

fn board(cooldown: i64, threshold: i64) -> ReputationBoard {
    ReputationBoard {
        authority: id(AUTHORITY),
        cooldown,
        token_mint: id(MINT),
        top_contributor_threshold: threshold,
    }
}

fn vote_ctx(
    board: ReputationBoard,
    entry: Option<ReputationEntry>,
    record: Option<VoteRecord>,
    voter: u8,
) -> Vote {
    Vote {
        board,
        target_entry: entry,
        vote_record: record,
        voter: id(voter),
        target: id(TARGET),
        voter_token_account: VoterTokenAccount { mint: id(MINT), amount: 1 },
    }
}

fn score(entry: &Option<ReputationEntry>) -> i64 {
    entry.map(|e| e.reputation).unwrap_or(0)
}

#[test]
fn identity_equality_compares_all_bytes() {
    let mut b = [7u8; 32];
    assert_eq!(Identity::new(b), Identity::new([7u8; 32]));
    b[31] = 8;
    assert_ne!(Identity::new(b), Identity::new([7u8; 32]));
    assert!(!id(1).same_as(&id(2)));
}

#[test]
fn initialize_creates_board_and_event() {
    let mut ctx = InitializeBoard { board: None, authority: id(AUTHORITY), token_mint: id(MINT) };
    let ev = initialize_board(&mut ctx, 60, 5).unwrap();
    assert_eq!(
        ev,
        BoardInitializedEvent {
            authority: id(AUTHORITY),
            cooldown: 60,
            token_mint: id(MINT),
            threshold: 5
        }
    );
    let b = ctx.board.unwrap();
    assert_eq!(b.authority, id(AUTHORITY));
    assert_eq!(b.cooldown, 60);
    assert_eq!(b.token_mint, id(MINT));
    assert_eq!(b.top_contributor_threshold, 5);
}

#[test]
fn initialize_accepts_negative_settings() {
    let mut ctx = InitializeBoard { board: None, authority: id(AUTHORITY), token_mint: id(MINT) };
    assert!(initialize_board(&mut ctx, -10, -3).is_ok());
    assert_eq!(ctx.board.unwrap().cooldown, -10);
    assert_eq!(ctx.board.unwrap().top_contributor_threshold, -3);
}

#[test]
fn initialize_twice_fails() {
    let mut ctx = InitializeBoard { board: None, authority: id(AUTHORITY), token_mint: id(MINT) };
    initialize_board(&mut ctx, 60, 5).unwrap();
    ctx.authority = id(9);
    assert_eq!(initialize_board(&mut ctx, 1, 1), Err(ErrorCode::AlreadyInitialized));
    assert_eq!(ctx.board.unwrap().authority, id(AUTHORITY));
    assert_eq!(ctx.board.unwrap().cooldown, 60);
}

#[test]
fn first_upvote_creates_entry_and_record() {
    let mut ctx = vote_ctx(board(60, 5), None, None, 10);
    let ev = upvote(&mut ctx, 1000).unwrap();
    assert_eq!(ev.voter, id(10));
    assert_eq!(ev.target, id(TARGET));
    assert_eq!(ev.action, "upvote");
    assert_eq!(ev.new_score, 1);
    let e = ctx.target_entry.unwrap();
    assert_eq!(e.user, id(TARGET));
    assert_eq!(e.reputation, 1);
    assert!(!e.top_contributor);
    let r = ctx.vote_record.unwrap();
    assert_eq!(r.voter, id(10));
    assert_eq!(r.target, id(TARGET));
    assert_eq!(r.last_vote_timestamp, 1000);
}

#[test]
fn downvote_event_carries_label_and_score() {
    let entry = ReputationEntry { user: id(TARGET), reputation: 4, top_contributor: true };
    let mut ctx = vote_ctx(board(60, 5), Some(entry), None, 10);
    let ev = downvote(&mut ctx, 50).unwrap();
    assert_eq!(ev.action, "downvote");
    assert_eq!(ev.new_score, 3);
    assert!(ctx.target_entry.unwrap().top_contributor);
}

#[test]
fn vote_without_tokens_fails() {
    let mut ctx = vote_ctx(board(60, 5), None, None, 10);
    ctx.voter_token_account.amount = 0;
    assert_eq!(upvote(&mut ctx, 100), Err(ErrorCode::InsufficientTokenBalance));
    assert!(ctx.target_entry.is_none());
    assert!(ctx.vote_record.is_none());
}

#[test]
fn vote_with_wrong_mint_fails() {
    let mut ctx = vote_ctx(board(60, 5), None, None, 10);
    ctx.voter_token_account.mint = id(42);
    assert_eq!(downvote(&mut ctx, 100), Err(ErrorCode::InvalidTokenMint));
    assert!(ctx.target_entry.is_none());
    assert!(ctx.vote_record.is_none());
}

#[test]
fn balance_is_checked_before_mint() {
    let mut ctx = vote_ctx(board(60, 5), None, None, 10);
    ctx.voter_token_account = VoterTokenAccount { mint: id(42), amount: 0 };
    assert_eq!(upvote(&mut ctx, 100), Err(ErrorCode::InsufficientTokenBalance));
}

#[test]
fn cooldown_boundary() {
    let mut ctx = vote_ctx(board(60, 5), None, None, 10);
    upvote(&mut ctx, 1000).unwrap();
    assert_eq!(upvote(&mut ctx, 1059), Err(ErrorCode::CooldownNotPassed));
    assert_eq!(score(&ctx.target_entry), 1);
    assert_eq!(ctx.vote_record.unwrap().last_vote_timestamp, 1000);
    assert!(upvote(&mut ctx, 1060).is_ok());
    assert_eq!(score(&ctx.target_entry), 2);
    assert_eq!(ctx.vote_record.unwrap().last_vote_timestamp, 1060);
}

#[test]
fn cooldown_is_per_target() {
    let b = board(60, 5);
    let mut on_x = vote_ctx(b, None, None, 10);
    upvote(&mut on_x, 1000).unwrap();
    let mut on_y = vote_ctx(b, None, None, 10);
    on_y.target = id(4);
    assert!(upvote(&mut on_y, 1001).is_ok());
}

#[test]
fn first_vote_is_exempt_at_any_time() {
    for now in [i64::MIN, -1, 0, 1, i64::MAX] {
        let mut ctx = vote_ctx(board(i64::MAX, 5), None, None, 10);
        assert!(upvote(&mut ctx, now).is_ok());
        let sentinel = VoteRecord { voter: id(10), target: id(TARGET), last_vote_timestamp: 0 };
        let mut ctx = vote_ctx(board(i64::MAX, 5), None, Some(sentinel), 10);
        assert!(downvote(&mut ctx, now).is_ok());
    }
}

#[test]
fn elapsed_time_does_not_overflow() {
    let record = VoteRecord { voter: id(10), target: id(TARGET), last_vote_timestamp: i64::MAX };
    let mut ctx = vote_ctx(board(0, 5), None, Some(record), 10);
    assert_eq!(upvote(&mut ctx, i64::MIN), Err(ErrorCode::CooldownNotPassed));
    let record = VoteRecord { voter: id(10), target: id(TARGET), last_vote_timestamp: -5 };
    let mut ctx = vote_ctx(board(i64::MAX, 5), None, Some(record), 10);
    assert!(upvote(&mut ctx, i64::MAX).is_ok());
}

#[test]
fn up_then_down_restores_score() {
    let entry = ReputationEntry { user: id(TARGET), reputation: -7, top_contributor: false };
    let mut ctx = vote_ctx(board(60, 5), Some(entry), None, 10);
    upvote(&mut ctx, 100).unwrap();
    assert_eq!(score(&ctx.target_entry), -6);
    downvote(&mut ctx, 160).unwrap();
    assert_eq!(score(&ctx.target_entry), -7);

    let mut first = vote_ctx(board(60, 5), Some(entry), None, 10);
    upvote(&mut first, 100).unwrap();
    let mut second = vote_ctx(board(60, 5), first.target_entry, None, 11);
    downvote(&mut second, 101).unwrap();
    assert_eq!(score(&second.target_entry), -7);
}

#[test]
fn downvotes_go_below_zero() {
    let mut entry = None;
    for voter in 10..30u8 {
        let mut ctx = vote_ctx(board(60, 5), entry, None, voter);
        let ev = downvote(&mut ctx, 100).unwrap();
        entry = ctx.target_entry;
        assert_eq!(ev.new_score, -((voter - 9) as i64));
    }
    assert_eq!(score(&entry), -20);
}

#[test]
fn reset_by_authority() {
    let entry = ReputationEntry { user: id(TARGET), reputation: 12, top_contributor: true };
    let mut ctx =
        ResetScore { board: board(60, 5), target_entry: entry, authority: id(AUTHORITY), target: id(TARGET) };
    let ev = reset_score(&mut ctx).unwrap();
    assert_eq!(ev, ScoreResetEvent { authority: id(AUTHORITY), target: id(TARGET) });
    assert_eq!(ctx.target_entry.reputation, 0);
    assert!(!ctx.target_entry.top_contributor);
    assert_eq!(ctx.target_entry.user, id(TARGET));
}

#[test]
fn reset_by_other_identity_fails() {
    let entry = ReputationEntry { user: id(TARGET), reputation: 12, top_contributor: true };
    for caller in [0u8, 2, 3, 200] {
        let mut ctx =
            ResetScore { board: board(60, 5), target_entry: entry, authority: id(caller), target: id(TARGET) };
        assert_eq!(reset_score(&mut ctx), Err(ErrorCode::NotAuthorized));
        assert_eq!(ctx.target_entry.reputation, 12);
        assert!(ctx.target_entry.top_contributor);
    }
}

#[test]
fn unlock_below_threshold_fails() {
    let entry = ReputationEntry { user: id(TARGET), reputation: 4, top_contributor: false };
    let mut ctx = UnlockRole { board: board(60, 5), user_entry: entry, user: id(TARGET) };
    assert_eq!(unlock_role(&mut ctx), Err(ErrorCode::InsufficientReputation));
    assert!(!ctx.user_entry.top_contributor);
}

#[test]
fn unlock_twice_is_idempotent() {
    let entry = ReputationEntry { user: id(TARGET), reputation: 9, top_contributor: false };
    let mut ctx = UnlockRole { board: board(60, 5), user_entry: entry, user: id(TARGET) };
    let first = unlock_role(&mut ctx).unwrap();
    assert_eq!(
        first,
        Some(RoleUnlockedEvent {
            user: id(TARGET),
            role: "top_contributor".to_string(),
            reputation: 9
        })
    );
    let after_first = ctx.user_entry;
    assert_eq!(unlock_role(&mut ctx), Ok(None));
    assert_eq!(ctx.user_entry.reputation, after_first.reputation);
    assert!(ctx.user_entry.top_contributor);
}

#[test]
fn unlock_with_negative_threshold() {
    let entry = ReputationEntry { user: id(TARGET), reputation: -3, top_contributor: false };
    let mut ctx = UnlockRole { board: board(60, -3), user_entry: entry, user: id(TARGET) };
    assert!(unlock_role(&mut ctx).unwrap().is_some());
}

#[test]
fn five_voters_unlock_then_cooldown() {
    let mut init = InitializeBoard { board: None, authority: id(AUTHORITY), token_mint: id(MINT) };
    initialize_board(&mut init, 60, 5).unwrap();
    let b = init.board.unwrap();

    let mut entry = None;
    let mut v_record = None;
    for voter in 10..15u8 {
        let mut ctx = vote_ctx(b, entry, None, voter);
        upvote(&mut ctx, 1000).unwrap();
        entry = ctx.target_entry;
        if voter == 10 {
            v_record = ctx.vote_record;
        }
    }
    assert_eq!(score(&entry), 5);

    let mut unlock = UnlockRole { board: b, user_entry: entry.unwrap(), user: id(TARGET) };
    let ev = unlock_role(&mut unlock).unwrap().unwrap();
    assert_eq!(ev.reputation, 5);
    assert_eq!(ev.role, "top_contributor");
    assert!(unlock.user_entry.top_contributor);

    let mut again = vote_ctx(b, Some(unlock.user_entry), v_record, 10);
    assert_eq!(upvote(&mut again, 1030), Err(ErrorCode::CooldownNotPassed));
    assert_eq!(score(&again.target_entry), 5);
}

#[test]
fn direction_labels() {
    assert_eq!(VoteDirection::Upvote.label(), "upvote");
    assert_eq!(VoteDirection::Downvote.label(), "downvote");
}

#[test]
fn error_messages() {
    assert_eq!(ErrorCode::CooldownNotPassed.message(), "Cooldown period has not passed since last vote");
    assert_eq!(ErrorCode::InvalidTokenMint.message(), "Invalid token mint");
}
