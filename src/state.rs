//! The persisted records and the keys they are addressed by.

use vstd::prelude::*;

use crate::identity::Identity;
use crate::table::TableKey;

verus! {

/// The phases of an activity, in their declared order.
#[derive(Clone, Copy, Debug, PartialEq, Eq, Structural)]
pub enum ActivityPhase {
    Draft,
    Published,
    Registration,
    CheckIn,
    TeamFormation,
    Submission,
    Voting,
    Ended,
}

/// The address of an activity: its publisher and the publisher's identifier for it.
#[derive(Clone, Copy, Debug, PartialEq, Eq, Hash)]
pub struct ActivityKey {
    pub authority: Identity,
    pub activity_id: u64,
}

/// The address of a vote: the activity and the voter.
#[derive(Clone, Copy, Debug, PartialEq, Eq, Hash)]
pub struct VoteKey {
    pub activity: ActivityKey,
    pub voter: Identity,
}

/// A published activity.
#[derive(Debug)]
pub struct Activity {
    pub authority: Identity,
    pub activity_id: u64,
    /// The title's bytes, at most 128.
    pub title: Vec<u8>,
    pub description_hash: [u8; 32],
    pub phase: ActivityPhase,
    pub created_at: i64,
}

/// The roster of an activity: the attendees who may vote.
#[derive(Debug)]
pub struct ActivityCheckIns {
    pub activity: ActivityKey,
    pub authority: Identity,
    pub attendees: Vec<Identity>,
}

/// One voter's vote in one activity.
#[derive(Clone, Copy, Debug)]
pub struct VoteRecord {
    pub voter: Identity,
    pub activity: ActivityKey,
    pub candidate_id: u64,
}

/// A candidate and the votes the publisher reports for it.
#[derive(Clone, Copy, Debug, PartialEq, Eq, Structural)]
pub struct CandidateVote {
    pub candidate_id: u64,
    pub vote_count: u64,
}

/// The publisher's final counts for an activity.
#[derive(Debug)]
pub struct VoteTally {
    pub activity: ActivityKey,
    pub authority: Identity,
    pub counts: Vec<CandidateVote>,
}

/// What a tally holds, with its counts as a sequence.
pub struct VoteTallyView {
    pub activity: ActivityKey,
    pub authority: Identity,
    pub counts: Seq<CandidateVote>,
}

impl View for VoteTally {
    type V = VoteTallyView;

    open spec fn view(&self) -> VoteTallyView {
        VoteTallyView { activity: self.activity, authority: self.authority, counts: self.counts@ }
    }
}

/// The single sponsor configuration.
#[derive(Clone, Copy, Debug)]
pub struct SponsorConfig {
    /// The account that may approve or reject applications.
    pub authority: Identity,
    /// The wallet that receives approved deposits.
    pub admin_wallet: Identity,
    /// Advisory review period in seconds; no deadline is enforced.
    pub review_period_secs: u64,
    /// The holding account derived from the "treasury" tag.
    pub treasury: Identity,
    /// The nonce that derivation found.
    pub treasury_bump: u8,
}

#[derive(Clone, Copy, Debug, PartialEq, Eq, Structural)]
pub enum SponsorApplicationStatus {
    Pending,
    Approved,
    Rejected,
}

/// A sponsor's deposit awaiting, or past, review.
#[derive(Clone, Copy, Debug)]
pub struct SponsorApplication {
    pub sponsor: Identity,
    pub amount_lamports: u64,
    pub status: SponsorApplicationStatus,
    pub applied_at: i64,
}

impl TableKey for Identity {
    fn matches(&self, other: &Identity) -> (r: bool) {
        self.same(other)
    }
}

impl TableKey for ActivityKey {
    fn matches(&self, other: &ActivityKey) -> (r: bool) {
        self.activity_id == other.activity_id && self.authority.same(&other.authority)
    }
}

impl TableKey for VoteKey {
    fn matches(&self, other: &VoteKey) -> (r: bool) {
        self.voter.same(&other.voter) && self.activity.matches(&other.activity)
    }
}

} // verus!
