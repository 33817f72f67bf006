//! A reputation ledger: a board configuration, per-subject reputation entries
//! and per-(voter, target) vote records, driven by cooldown-limited votes,
//! an authority-gated reset and a threshold-based role unlock.
//!
//! Every instruction is a function from the records it touches (and the
//! values the host supplies: the current time, the voter's token holding) to
//! the updated records and an event. On failure the records are left as
//! they were.

pub mod error;
pub mod events;
pub mod identity;
pub mod instructions;
pub mod laws;
pub mod state;

pub use error::ErrorCode;
pub use events::{BoardInitializedEvent, RoleUnlockedEvent, ScoreResetEvent, UserVotedEvent};
pub use identity::Identity;
pub use instructions::{
    downvote, initialize_board, reset_score, unlock_role, upvote, InitializeBoard, ResetScore,
    UnlockRole, Vote, VoteDirection,
};
pub use state::{ReputationBoard, ReputationEntry, VoteRecord, VoterTokenAccount};

