use vstd::prelude::*;

verus! {

/// Why an instruction was refused. A refused instruction changes nothing.
#[derive(Clone, Copy, Debug, PartialEq, Eq, Structural)]
pub enum ErrorCode {
    /// The board configuration already exists.
    AlreadyInitialized,
    /// The voter voted on the same target less than the cooldown ago.
    CooldownNotPassed,
    /// The caller of a reset is not the board's authority.
    NotAuthorized,
    /// The subject's score is below the top-contributor threshold.
    InsufficientReputation,
    /// The voter's token account holds none of the token.
    InsufficientTokenBalance,
    /// The voter's token account holds another token than the board requires.
    InvalidTokenMint,
}

impl ErrorCode {
    /// The human-readable message of the error.
    pub fn message(&self) -> (r: &'static str)
        ensures
            r@ == self.spec_message(),
    {
        match self {
            ErrorCode::AlreadyInitialized => "The board is already initialized",
            ErrorCode::CooldownNotPassed => "Cooldown period has not passed since last vote",
            ErrorCode::NotAuthorized => "Not authorized to perform this action",
            ErrorCode::InsufficientReputation => "Insufficient reputation to unlock this role",
            ErrorCode::InsufficientTokenBalance => "Insufficient token balance to vote",
            ErrorCode::InvalidTokenMint => "Invalid token mint",
        }
    }

    pub open spec fn spec_message(&self) -> Seq<char> {
        match self {
            ErrorCode::AlreadyInitialized => "The board is already initialized"@,
            ErrorCode::CooldownNotPassed => "Cooldown period has not passed since last vote"@,
            ErrorCode::NotAuthorized => "Not authorized to perform this action"@,
            ErrorCode::InsufficientReputation => "Insufficient reputation to unlock this role"@,
            ErrorCode::InsufficientTokenBalance => "Insufficient token balance to vote"@,
            ErrorCode::InvalidTokenMint => "Invalid token mint"@,
        }
    }
}

} // verus!
