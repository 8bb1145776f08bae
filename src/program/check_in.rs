//! The check-in roster: uploaded once per activity, it decides who may vote.

use vstd::prelude::*;

use crate::error::HackathonError;
use crate::identity::Identity;
use crate::program::{Hackathon, HackathonState};
use crate::state::{ActivityCheckIns, ActivityKey, ActivityPhase};

verus! {

/// The most attendees a roster holds.
pub const MAX_ATTENDEES: usize = 200;

impl HackathonState {
    /// The owner uploads the roster during `CheckIn`, once; the activity then
    /// moves on to `TeamFormation`.
    pub open spec fn upload_check_ins(
        self,
        caller: Identity,
        key: ActivityKey,
        attendees: Vec<Identity>,
    ) -> (Result<(), HackathonError>, HackathonState) {
        if !self.activities.contains_key(key) {
            (Err(HackathonError::AccountNotFound), self)
        } else if self.activities[key].authority != caller {
            (Err(HackathonError::Unauthorized), self)
        } else if self.activities[key].phase != ActivityPhase::CheckIn {
            (Err(HackathonError::InvalidPhaseForCheckInUpload), self)
        } else if self.check_ins.contains_key(key) {
            (Err(HackathonError::AccountAlreadyInUse), self)
        } else if attendees@.len() > MAX_ATTENDEES {
            (Err(HackathonError::CheckInListTooLong), self)
        } else {
            let roster = ActivityCheckIns { activity: key, authority: caller, attendees };
            (
                Ok(()),
                HackathonState {
                    check_ins: self.check_ins.insert(key, roster),
                    ..self.with_phase(key, ActivityPhase::TeamFormation)
                },
            )
        }
    }

    /// `voter` is on the roster of the activity at `key`.
    pub open spec fn on_roster(self, key: ActivityKey, voter: Identity) -> bool {
        self.check_ins.contains_key(key) && self.check_ins[key].attendees@.contains(voter)
    }
}

/// Whether `who` is among `attendees`.
pub fn is_attendee(attendees: &Vec<Identity>, who: &Identity) -> (r: bool)
    ensures
        r == attendees@.contains(*who),
{
    let mut i: usize = 0;
    while i < attendees.len()
        invariant
            0 <= i <= attendees@.len(),
            forall|j: int| 0 <= j < i ==> attendees@[j] != *who,
        decreases attendees@.len() - i,
    {
        if attendees[i].same(who) {
            assert(attendees@[i as int] == *who);
            return true;
        }
        i = i + 1;
    }
    false
}

impl Hackathon {
    /// Stores the roster of an activity of `caller` and moves the activity to
    /// `TeamFormation`.
    pub fn upload_check_ins(
        &mut self,
        caller: Identity,
        key: &ActivityKey,
        attendees: Vec<Identity>,
    ) -> (r: Result<(), HackathonError>)
        requires
            old(self).wf(),
        ensures
            final(self).wf(),
            (r, final(self)@) == old(self)@.upload_check_ins(caller, *key, attendees),
    {
        match self.activities.get(key) {
            None => {
                return Err(HackathonError::AccountNotFound);
            },
            Some(a) => {
                if !a.authority.same(&caller) {
                    return Err(HackathonError::Unauthorized);
                }
                if a.phase != ActivityPhase::CheckIn {
                    return Err(HackathonError::InvalidPhaseForCheckInUpload);
                }
            },
        }
        if self.check_ins.contains(key) {
            return Err(HackathonError::AccountAlreadyInUse);
        }
        if attendees.len() > MAX_ATTENDEES {
            return Err(HackathonError::CheckInListTooLong);
        }
        let roster = ActivityCheckIns { activity: *key, authority: caller, attendees };
        self.check_ins.insert_new(*key, roster);
        self.force_phase(key, ActivityPhase::TeamFormation);
        Ok(())
    }
}

} // verus!
