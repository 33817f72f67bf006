use vstd::prelude::*;

use crate::identity::Identity;

verus! {

/// The singleton board configuration: who may reset scores, how long a voter
/// waits between two votes on the same target, which token a voter must hold,
/// and the score that unlocks the top-contributor role.
#[derive(Clone, Copy, Debug)]
pub struct ReputationBoard {
    pub authority: Identity,
    pub cooldown: i64,
    pub token_mint: Identity,
    pub top_contributor_threshold: i64,
}

/// The reputation of one subject.
#[derive(Clone, Copy, Debug)]
pub struct ReputationEntry {
    pub user: Identity,
    pub reputation: i64,
    pub top_contributor: bool,
}

/// The last vote of one voter on one target; a timestamp of 0 means that no
/// vote has been recorded.
#[derive(Clone, Copy, Debug)]
pub struct VoteRecord {
    pub voter: Identity,
    pub target: Identity,
    pub last_vote_timestamp: i64,
}

/// What a vote reads of the token account that the voter presents: the token
/// it holds and how much of it.
#[derive(Clone, Copy, Debug)]
pub struct VoterTokenAccount {
    pub mint: Identity,
    pub amount: u64,
}

/// The score of a possibly absent entry: an absent entry counts as a fresh
/// one, with score 0.
pub open spec fn score_of(entry: Option<ReputationEntry>) -> int {
    match entry {
        Some(e) => e.reputation as int,
        None => 0,
    }
}

/// The entry as it stands, or the fresh entry of `subject`.
pub open spec fn entry_or_fresh(entry: Option<ReputationEntry>, subject: Identity) -> ReputationEntry {
    match entry {
        Some(e) => e,
        None => ReputationEntry { user: subject, reputation: 0, top_contributor: false },
    }
}

/// Whether no earlier vote is on record for the pair.
pub open spec fn no_prior_vote(record: Option<VoteRecord>) -> bool {
    match record {
        Some(r) => r.last_vote_timestamp == 0,
        None => true,
    }
}

/// Whether a vote at time `now` respects the cooldown against the record: a
/// pair with no prior vote is exempt, otherwise at least `cooldown` seconds
/// have passed since the last vote.
pub open spec fn cooldown_passed(record: Option<VoteRecord>, now: int, cooldown: int) -> bool {
    match record {
        Some(r) => r.last_vote_timestamp == 0 || now - r.last_vote_timestamp >= cooldown,
        None => true,
    }
}

/// Looks up the entry of `subject`, creating a fresh one when none exists yet.
pub fn load_or_create_entry(entry: Option<ReputationEntry>, subject: Identity) -> (r: ReputationEntry)
    ensures
        r == entry_or_fresh(entry, subject),
        r.reputation == score_of(entry),
{
    match entry {
        Some(e) => e,
        None => ReputationEntry { user: subject, reputation: 0, top_contributor: false },
    }
}

/// Checks the cooldown of a vote at `current_time` against the record of the
/// pair. The elapsed time is computed without overflow.
pub fn cooldown_elapsed(record: &Option<VoteRecord>, current_time: i64, cooldown: i64) -> (r: bool)
    ensures
        r == cooldown_passed(*record, current_time as int, cooldown as int),
{
    match record {
        Some(rec) => {
            if rec.last_vote_timestamp == 0 {
                true
            } else {
                let elapsed: i128 = current_time as i128 - rec.last_vote_timestamp as i128;
                elapsed >= cooldown as i128
            }
        },
        None => true,
    }
}

} // verus!
