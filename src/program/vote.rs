//! Voting: roster members cast and revoke one vote each, and the owner
//! uploads the final tally.

use vstd::prelude::*;

use crate::error::HackathonError;
use crate::identity::Identity;
use crate::program::check_in::is_attendee;
use crate::program::{Hackathon, HackathonState};
use crate::state::{ActivityKey, ActivityPhase, CandidateVote, VoteKey, VoteRecord, VoteTally};

verus! {

/// The most entries a tally holds.
pub const MAX_TALLY_ENTRIES: usize = 100;

/// Each candidate paired with its count, in input order.
pub open spec fn paired_counts(candidate_ids: Seq<u64>, vote_counts: Seq<u64>) -> Seq<
    CandidateVote,
> {
    Seq::new(
        candidate_ids.len(),
        |i: int| CandidateVote { candidate_id: candidate_ids[i], vote_count: vote_counts[i] },
    )
}

impl HackathonState {
    /// What a vote or its revocation needs of the activity: it exists, it is
    /// in `Voting`, it has a roster, and the caller is on it.
    pub open spec fn voting_check(self, caller: Identity, key: ActivityKey) -> Result<
        (),
        HackathonError,
    > {
        if !self.activities.contains_key(key) {
            Err(HackathonError::AccountNotFound)
        } else if self.activities[key].phase != ActivityPhase::Voting {
            Err(HackathonError::InvalidPhaseForVote)
        } else if !self.check_ins.contains_key(key) {
            Err(HackathonError::AccountNotFound)
        } else if !self.check_ins[key].attendees@.contains(caller) {
            Err(HackathonError::NotInCheckInList)
        } else {
            Ok(())
        }
    }

    /// A roster member records a vote, once per activity.
    pub open spec fn cast_vote(self, caller: Identity, key: ActivityKey, candidate_id: u64) -> (
        Result<(), HackathonError>,
        HackathonState,
    ) {
        let vote_key = VoteKey { activity: key, voter: caller };
        if self.voting_check(caller, key) is Err {
            (self.voting_check(caller, key), self)
        } else if self.votes.contains_key(vote_key) {
            (Err(HackathonError::AccountAlreadyInUse), self)
        } else {
            let record = VoteRecord { voter: caller, activity: key, candidate_id };
            (Ok(()), HackathonState { votes: self.votes.insert(vote_key, record), ..self })
        }
    }

    /// A roster member withdraws the vote they cast.
    pub open spec fn revoke_vote(self, caller: Identity, key: ActivityKey) -> (
        Result<(), HackathonError>,
        HackathonState,
    ) {
        let vote_key = VoteKey { activity: key, voter: caller };
        if self.voting_check(caller, key) is Err {
            (self.voting_check(caller, key), self)
        } else if !self.votes.contains_key(vote_key) {
            (Err(HackathonError::AccountNotFound), self)
        } else if self.votes[vote_key].voter != caller || self.votes[vote_key].activity != key {
            (Err(HackathonError::Unauthorized), self)
        } else {
            (Ok(()), HackathonState { votes: self.votes.remove(vote_key), ..self })
        }
    }

    /// The owner uploads the counts during `Voting`, once; the activity ends.
    pub open spec fn upload_vote_tally(
        self,
        caller: Identity,
        key: ActivityKey,
        candidate_ids: Seq<u64>,
        vote_counts: Seq<u64>,
    ) -> (Result<(), HackathonError>, HackathonState) {
        if !self.activities.contains_key(key) {
            (Err(HackathonError::AccountNotFound), self)
        } else if self.activities[key].authority != caller {
            (Err(HackathonError::Unauthorized), self)
        } else if self.activities[key].phase != ActivityPhase::Voting {
            (Err(HackathonError::InvalidPhaseForTally), self)
        } else if self.tallies.contains_key(key) {
            (Err(HackathonError::AccountAlreadyInUse), self)
        } else if candidate_ids.len() != vote_counts.len() {
            (Err(HackathonError::TallyLengthMismatch), self)
        } else if candidate_ids.len() > MAX_TALLY_ENTRIES {
            (Err(HackathonError::TallyTooLong), self)
        } else {
            let tally = crate::state::VoteTallyView {
                activity: key,
                authority: caller,
                counts: paired_counts(candidate_ids, vote_counts),
            };
            (
                Ok(()),
                HackathonState {
                    tallies: self.tallies.insert(key, tally),
                    ..self.with_phase(key, ActivityPhase::Ended)
                },
            )
        }
    }
}

impl Hackathon {
    fn check_voting(&self, caller: &Identity, key: &ActivityKey) -> (r: Result<(), HackathonError>)
        requires
            self.wf(),
        ensures
            r == self@.voting_check(*caller, *key),
    {
        match self.activities.get(key) {
            None => {
                return Err(HackathonError::AccountNotFound);
            },
            Some(a) => {
                if a.phase != ActivityPhase::Voting {
                    return Err(HackathonError::InvalidPhaseForVote);
                }
            },
        }
        match self.check_ins.get(key) {
            None => Err(HackathonError::AccountNotFound),
            Some(roster) => {
                if is_attendee(&roster.attendees, caller) {
                    Ok(())
                } else {
                    Err(HackathonError::NotInCheckInList)
                }
            },
        }
    }

    /// `caller` votes for `candidate_id` in the activity at `key`.
    pub fn vote(&mut self, caller: Identity, key: &ActivityKey, candidate_id: u64) -> (r: Result<
        (),
        HackathonError,
    >)
        requires
            old(self).wf(),
        ensures
            final(self).wf(),
            (r, final(self)@) == old(self)@.cast_vote(caller, *key, candidate_id),
    {
        let checked = self.check_voting(&caller, key);
        if checked.is_err() {
            return checked;
        }
        let vote_key = VoteKey { activity: *key, voter: caller };
        if self.votes.contains(&vote_key) {
            return Err(HackathonError::AccountAlreadyInUse);
        }
        let record = VoteRecord { voter: caller, activity: *key, candidate_id };
        self.votes.insert_new(vote_key, record);
        Ok(())
    }

    /// `caller` withdraws their vote in the activity at `key`.
    pub fn revoke_vote(&mut self, caller: Identity, key: &ActivityKey) -> (r: Result<
        (),
        HackathonError,
    >)
        requires
            old(self).wf(),
        ensures
            final(self).wf(),
            (r, final(self)@) == old(self)@.revoke_vote(caller, *key),
    {
        let checked = self.check_voting(&caller, key);
        if checked.is_err() {
            return checked;
        }
        let vote_key = VoteKey { activity: *key, voter: caller };
        match self.votes.get(&vote_key) {
            None => {
                return Err(HackathonError::AccountNotFound);
            },
            Some(record) => {
                if !record.voter.same(&caller) || !(record.activity.activity_id
                    == key.activity_id && record.activity.authority.same(&key.authority)) {
                    return Err(HackathonError::Unauthorized);
                }
            },
        }
        let _ = self.votes.remove(&vote_key);
        Ok(())
    }

    /// The owner of the activity at `key` records the final counts, pairing
    /// each candidate with the count at the same position; the activity ends.
    pub fn upload_vote_tally(
        &mut self,
        caller: Identity,
        key: &ActivityKey,
        candidate_ids: Vec<u64>,
        vote_counts: Vec<u64>,
    ) -> (r: Result<(), HackathonError>)
        requires
            old(self).wf(),
        ensures
            final(self).wf(),
            (r, final(self)@) == old(self)@.upload_vote_tally(
                caller,
                *key,
                candidate_ids@,
                vote_counts@,
            ),
    {
        match self.activities.get(key) {
            None => {
                return Err(HackathonError::AccountNotFound);
            },
            Some(a) => {
                if !a.authority.same(&caller) {
                    return Err(HackathonError::Unauthorized);
                }
                if a.phase != ActivityPhase::Voting {
                    return Err(HackathonError::InvalidPhaseForTally);
                }
            },
        }
        if self.tallies.contains(key) {
            return Err(HackathonError::AccountAlreadyInUse);
        }
        if candidate_ids.len() != vote_counts.len() {
            return Err(HackathonError::TallyLengthMismatch);
        }
        if candidate_ids.len() > MAX_TALLY_ENTRIES {
            return Err(HackathonError::TallyTooLong);
        }
        let mut counts: Vec<CandidateVote> = Vec::new();
        let mut i: usize = 0;
        while i < candidate_ids.len()
            invariant
                candidate_ids@.len() == vote_counts@.len(),
                0 <= i <= candidate_ids@.len(),
                counts@ == paired_counts(candidate_ids@, vote_counts@).subrange(0, i as int),
            decreases candidate_ids@.len() - i,
        {
            counts.push(CandidateVote { candidate_id: candidate_ids[i], vote_count: vote_counts[i] });
            i = i + 1;
            assert(counts@ =~= paired_counts(candidate_ids@, vote_counts@).subrange(0, i as int));
        }
        assert(counts@ =~= paired_counts(candidate_ids@, vote_counts@));
        let ghost before = self@;
        let tally = VoteTally { activity: *key, authority: caller, counts };
        self.tallies.insert_new(*key, tally);
        assert(self@.tallies =~= before.tallies.insert(*key, tally@));
        self.force_phase(key, ActivityPhase::Ended);
        Ok(())
    }
}

} // verus!
