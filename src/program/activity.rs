//! The activity lifecycle: publishing, deleting, and moving between phases.

use vstd::prelude::*;

use crate::error::HackathonError;
use crate::identity::Identity;
use crate::program::{Hackathon, HackathonState};
use crate::state::{Activity, ActivityKey, ActivityPhase};

verus! {

/// The longest title, in bytes.
pub const MAX_TITLE_LEN: usize = 128;

impl HackathonState {
    /// Publishing creates the activity at (caller, activity_id) in phase `Published`.
    pub open spec fn publish_activity(
        self,
        caller: Identity,
        activity_id: u64,
        title: Vec<u8>,
        description_hash: [u8; 32],
        now: i64,
    ) -> (Result<(), HackathonError>, HackathonState) {
        let key = ActivityKey { authority: caller, activity_id };
        if title@.len() > MAX_TITLE_LEN {
            (Err(HackathonError::TitleTooLong), self)
        } else if self.activities.contains_key(key) {
            (Err(HackathonError::AccountAlreadyInUse), self)
        } else {
            let activity = Activity {
                authority: caller,
                activity_id,
                title,
                description_hash,
                phase: ActivityPhase::Published,
                created_at: now,
            };
            (Ok(()), HackathonState { activities: self.activities.insert(key, activity), ..self })
        }
    }

    /// The owner may delete an activity only while it is a draft.
    pub open spec fn delete_activity(self, caller: Identity, key: ActivityKey) -> (
        Result<(), HackathonError>,
        HackathonState,
    ) {
        if !self.activities.contains_key(key) {
            (Err(HackathonError::AccountNotFound), self)
        } else if self.activities[key].authority != caller {
            (Err(HackathonError::Unauthorized), self)
        } else if self.activities[key].phase != ActivityPhase::Draft {
            (Err(HackathonError::CannotDeleteAfterRegistration), self)
        } else {
            (Ok(()), HackathonState { activities: self.activities.remove(key), ..self })
        }
    }

    /// The owner overwrites the phase with `phase`, whatever it was before.
    pub open spec fn set_phase(self, caller: Identity, key: ActivityKey, phase: ActivityPhase) -> (
        Result<(), HackathonError>,
        HackathonState,
    ) {
        if !self.activities.contains_key(key) {
            (Err(HackathonError::AccountNotFound), self)
        } else if self.activities[key].authority != caller {
            (Err(HackathonError::Unauthorized), self)
        } else {
            (Ok(()), self.with_phase(key, phase))
        }
    }

    /// The state with the activity at `key` moved to `phase`.
    pub open spec fn with_phase(self, key: ActivityKey, phase: ActivityPhase) -> HackathonState {
        HackathonState {
            activities: self.activities.insert(key, Activity { phase, ..self.activities[key] }),
            ..self
        }
    }
}

impl Hackathon {
    /// Publishes a new activity owned by `caller`.
    pub fn publish_activity(
        &mut self,
        caller: Identity,
        activity_id: u64,
        title: Vec<u8>,
        description_hash: [u8; 32],
        now: i64,
    ) -> (r: Result<(), HackathonError>)
        requires
            old(self).wf(),
        ensures
            final(self).wf(),
            (r, final(self)@) == old(self)@.publish_activity(
                caller,
                activity_id,
                title,
                description_hash,
                now,
            ),
    {
        if title.len() > MAX_TITLE_LEN {
            return Err(HackathonError::TitleTooLong);
        }
        let key = ActivityKey { authority: caller, activity_id };
        if self.activities.contains(&key) {
            return Err(HackathonError::AccountAlreadyInUse);
        }
        let activity = Activity {
            authority: caller,
            activity_id,
            title,
            description_hash,
            phase: ActivityPhase::Published,
            created_at: now,
        };
        self.activities.insert_new(key, activity);
        Ok(())
    }

    /// Deletes a draft activity of `caller`.
    pub fn delete_activity(&mut self, caller: Identity, key: &ActivityKey) -> (r: Result<
        (),
        HackathonError,
    >)
        requires
            old(self).wf(),
        ensures
            final(self).wf(),
            (r, final(self)@) == old(self)@.delete_activity(caller, *key),
    {
        match self.activities.get(key) {
            None => {
                return Err(HackathonError::AccountNotFound);
            },
            Some(a) => {
                if !a.authority.same(&caller) {
                    return Err(HackathonError::Unauthorized);
                }
                if a.phase != ActivityPhase::Draft {
                    return Err(HackathonError::CannotDeleteAfterRegistration);
                }
            },
        }
        let _ = self.activities.remove(key);
        Ok(())
    }

    /// Sets the phase of an activity of `caller`.
    fn set_phase(&mut self, caller: Identity, key: &ActivityKey, phase: ActivityPhase) -> (r:
        Result<(), HackathonError>)
        requires
            old(self).wf(),
        ensures
            final(self).wf(),
            (r, final(self)@) == old(self)@.set_phase(caller, *key, phase),
    {
        match self.activities.get(key) {
            None => {
                return Err(HackathonError::AccountNotFound);
            },
            Some(a) => {
                if !a.authority.same(&caller) {
                    return Err(HackathonError::Unauthorized);
                }
            },
        }
        self.force_phase(key, phase);
        Ok(())
    }

    /// Moves an existing activity to `phase`.
    pub(crate) fn force_phase(&mut self, key: &ActivityKey, phase: ActivityPhase)
        requires
            old(self).wf(),
            old(self)@.activities.contains_key(*key),
        ensures
            final(self).wf(),
            final(self)@ == old(self)@.with_phase(*key, phase),
    {
        let ghost before = self@;
        match self.activities.remove(key) {
            Some(a) => {
                let mut a = a;
                a.phase = phase;
                self.activities.insert_new(*key, a);
            },
            None => {},
        }
        assert(self@.activities =~= before.with_phase(*key, phase).activities);
    }

    pub fn start_registration(&mut self, caller: Identity, key: &ActivityKey) -> (r: Result<
        (),
        HackathonError,
    >)
        requires
            old(self).wf(),
        ensures
            final(self).wf(),
            (r, final(self)@) == old(self)@.set_phase(caller, *key, ActivityPhase::Registration),
    {
        self.set_phase(caller, key, ActivityPhase::Registration)
    }

    pub fn start_check_in(&mut self, caller: Identity, key: &ActivityKey) -> (r: Result<
        (),
        HackathonError,
    >)
        requires
            old(self).wf(),
        ensures
            final(self).wf(),
            (r, final(self)@) == old(self)@.set_phase(caller, *key, ActivityPhase::CheckIn),
    {
        self.set_phase(caller, key, ActivityPhase::CheckIn)
    }

    pub fn start_team_formation(&mut self, caller: Identity, key: &ActivityKey) -> (r: Result<
        (),
        HackathonError,
    >)
        requires
            old(self).wf(),
        ensures
            final(self).wf(),
            (r, final(self)@) == old(self)@.set_phase(caller, *key, ActivityPhase::TeamFormation),
    {
        self.set_phase(caller, key, ActivityPhase::TeamFormation)
    }

    pub fn start_submission(&mut self, caller: Identity, key: &ActivityKey) -> (r: Result<
        (),
        HackathonError,
    >)
        requires
            old(self).wf(),
        ensures
            final(self).wf(),
            (r, final(self)@) == old(self)@.set_phase(caller, *key, ActivityPhase::Submission),
    {
        self.set_phase(caller, key, ActivityPhase::Submission)
    }

    pub fn start_voting(&mut self, caller: Identity, key: &ActivityKey) -> (r: Result<
        (),
        HackathonError,
    >)
        requires
            old(self).wf(),
        ensures
            final(self).wf(),
            (r, final(self)@) == old(self)@.set_phase(caller, *key, ActivityPhase::Voting),
    {
        self.set_phase(caller, key, ActivityPhase::Voting)
    }

    /// Ends the activity: the results are out.
    pub fn start_results(&mut self, caller: Identity, key: &ActivityKey) -> (r: Result<
        (),
        HackathonError,
    >)
        requires
            old(self).wf(),
        ensures
            final(self).wf(),
            (r, final(self)@) == old(self)@.set_phase(caller, *key, ActivityPhase::Ended),
    {
        self.set_phase(caller, key, ActivityPhase::Ended)
    }
}

} // verus!
