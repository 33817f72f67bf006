use vstd::prelude::*;

use crate::identity::Identity;

verus! {

/// Emitted when the board is created, with its four settings.
#[derive(Clone, Copy, Debug, PartialEq)]
pub struct BoardInitializedEvent {
    pub authority: Identity,
    pub cooldown: i64,
    pub token_mint: Identity,
    pub threshold: i64,
}

/// Emitted on each accepted vote, with its direction ("upvote" or
/// "downvote") and the target's new score.
#[derive(Debug, PartialEq)]
pub struct UserVotedEvent {
    pub voter: Identity,
    pub target: Identity,
    pub action: String,
    pub new_score: i64,
}

/// Emitted when the authority resets a target's score.
#[derive(Clone, Copy, Debug, PartialEq)]
pub struct ScoreResetEvent {
    pub authority: Identity,
    pub target: Identity,
}

/// Emitted when a subject first gains the top-contributor role.
#[derive(Debug, PartialEq)]
pub struct RoleUnlockedEvent {
    pub user: Identity,
    pub role: String,
    pub reputation: i64,
}

} // verus!
