use hackathon::{
    ActivityKey, ActivityPhase, CandidateVote, Hackathon, HackathonError, Identity, VoteKey,
};

fn id(b: u8) -> Identity {
    Identity::new([b; 32])
}

const OWNER: u8 = 1;
const V1: u8 = 11;
const V2: u8 = 12;
const V3: u8 = 13;

fn in_check_in() -> (Hackathon, ActivityKey) {
    let mut h = Hackathon::new(id(200));
    h.publish_activity(id(OWNER), 1, b"Demo".to_vec(), [7u8; 32], 0).unwrap();
    let key = ActivityKey { authority: id(OWNER), activity_id: 1 };
    h.start_check_in(id(OWNER), &key).unwrap();
    (h, key)
}

fn in_voting() -> (Hackathon, ActivityKey) {
    let (mut h, key) = in_check_in();
    h.upload_check_ins(id(OWNER), &key, vec![id(V1), id(V2)]).unwrap();
    h.start_voting(id(OWNER), &key).unwrap();
    (h, key)
}

#[test]
fn demo_scenario_from_publish_to_tally() {
    let mut h = Hackathon::new(id(200));
    h.publish_activity(id(OWNER), 1, b"Demo".to_vec(), [3u8; 32], 0).unwrap();
    let key = ActivityKey { authority: id(OWNER), activity_id: 1 };
    assert_eq!(h.activity(&key).unwrap().phase, ActivityPhase::Published);
    h.start_check_in(id(OWNER), &key).unwrap();
    assert_eq!(h.activity(&key).unwrap().phase, ActivityPhase::CheckIn);
    assert_eq!(h.upload_check_ins(id(OWNER), &key, vec![id(V1), id(V2)]), Ok(()));
    assert_eq!(h.check_ins(&key).unwrap().attendees, vec![id(V1), id(V2)]);
    assert_eq!(h.activity(&key).unwrap().phase, ActivityPhase::TeamFormation);
    h.start_voting(id(OWNER), &key).unwrap();
    assert_eq!(h.activity(&key).unwrap().phase, ActivityPhase::Voting);
    assert_eq!(h.vote(id(V1), &key, 7), Ok(()));
    let record = h.vote_record(&VoteKey { activity: key, voter: id(V1) }).unwrap();
    assert_eq!(record.voter, id(V1));
    assert_eq!(record.activity, key);
    assert_eq!(record.candidate_id, 7);
    assert_eq!(h.vote(id(V3), &key, 7), Err(HackathonError::NotInCheckInList));
    assert_eq!(h.upload_vote_tally(id(OWNER), &key, vec![7], vec![1]), Ok(()));
    let tally = h.vote_tally(&key).unwrap();
    assert_eq!(tally.counts, vec![CandidateVote { candidate_id: 7, vote_count: 1 }]);
    assert_eq!(tally.authority, id(OWNER));
    assert_eq!(h.activity(&key).unwrap().phase, ActivityPhase::Ended);
}

#[test]
fn roster_upload_outside_check_in_fails() {
    let mut h = Hackathon::new(id(200));
    h.publish_activity(id(OWNER), 1, b"Demo".to_vec(), [0u8; 32], 0).unwrap();
    let key = ActivityKey { authority: id(OWNER), activity_id: 1 };
    assert_eq!(
        h.upload_check_ins(id(OWNER), &key, vec![id(V1)]),
        Err(HackathonError::InvalidPhaseForCheckInUpload)
    );
}

#[test]
fn roster_upload_by_stranger_is_unauthorized() {
    let (mut h, key) = in_check_in();
    assert_eq!(
        h.upload_check_ins(id(V1), &key, vec![id(V1)]),
        Err(HackathonError::Unauthorized)
    );
}

#[test]
fn roster_of_200_is_accepted_and_201_rejected() {
    let (mut h, key) = in_check_in();
    let too_many: Vec<Identity> = (0..201u32).map(|i| id((i % 250) as u8)).collect();
    assert_eq!(
        h.upload_check_ins(id(OWNER), &key, too_many),
        Err(HackathonError::CheckInListTooLong)
    );
    assert_eq!(h.activity(&key).unwrap().phase, ActivityPhase::CheckIn);
    let enough: Vec<Identity> = (0..200u32).map(|i| id((i % 250) as u8)).collect();
    assert_eq!(h.upload_check_ins(id(OWNER), &key, enough), Ok(()));
}

#[test]
fn second_roster_upload_fails_in_any_phase() {
    let (mut h, key) = in_check_in();
    h.upload_check_ins(id(OWNER), &key, vec![id(V1)]).unwrap();
    assert_eq!(
        h.upload_check_ins(id(OWNER), &key, vec![id(V2)]),
        Err(HackathonError::InvalidPhaseForCheckInUpload)
    );
    h.start_check_in(id(OWNER), &key).unwrap();
    assert_eq!(
        h.upload_check_ins(id(OWNER), &key, vec![id(V2)]),
        Err(HackathonError::AccountAlreadyInUse)
    );
    assert_eq!(h.check_ins(&key).unwrap().attendees, vec![id(V1)]);
}

#[test]
fn second_vote_without_revoke_fails() {
    let (mut h, key) = in_voting();
    assert_eq!(h.vote(id(V1), &key, 7), Ok(()));
    assert_eq!(h.vote(id(V1), &key, 8), Err(HackathonError::AccountAlreadyInUse));
    let record = h.vote_record(&VoteKey { activity: key, voter: id(V1) }).unwrap();
    assert_eq!(record.candidate_id, 7);
}

#[test]
fn vote_after_revoke_succeeds() {
    let (mut h, key) = in_voting();
    h.vote(id(V1), &key, 7).unwrap();
    assert_eq!(h.revoke_vote(id(V1), &key), Ok(()));
    assert!(h.vote_record(&VoteKey { activity: key, voter: id(V1) }).is_none());
    assert_eq!(h.vote(id(V1), &key, 8), Ok(()));
    let record = h.vote_record(&VoteKey { activity: key, voter: id(V1) }).unwrap();
    assert_eq!(record.candidate_id, 8);
}

#[test]
fn vote_and_revoke_by_non_member_fail_alike() {
    let (mut h, key) = in_voting();
    assert_eq!(h.vote(id(V3), &key, 7), Err(HackathonError::NotInCheckInList));
    assert_eq!(h.revoke_vote(id(V3), &key), Err(HackathonError::NotInCheckInList));
}

#[test]
fn revoke_without_vote_fails() {
    let (mut h, key) = in_voting();
    assert_eq!(h.revoke_vote(id(V2), &key), Err(HackathonError::AccountNotFound));
}

#[test]
fn vote_outside_voting_phase_fails() {
    let (mut h, key) = in_check_in();
    h.upload_check_ins(id(OWNER), &key, vec![id(V1)]).unwrap();
    assert_eq!(h.vote(id(V1), &key, 7), Err(HackathonError::InvalidPhaseForVote));
    assert_eq!(h.revoke_vote(id(V1), &key), Err(HackathonError::InvalidPhaseForVote));
}

#[test]
fn vote_without_roster_fails() {
    let (mut h, key) = in_check_in();
    h.start_voting(id(OWNER), &key).unwrap();
    assert_eq!(h.vote(id(V1), &key, 7), Err(HackathonError::AccountNotFound));
}

#[test]
fn tally_pairs_in_input_order() {
    let (mut h, key) = in_voting();
    assert_eq!(h.upload_vote_tally(id(OWNER), &key, vec![5, 3, 9], vec![2, 0, 4]), Ok(()));
    assert_eq!(
        h.vote_tally(&key).unwrap().counts,
        vec![
            CandidateVote { candidate_id: 5, vote_count: 2 },
            CandidateVote { candidate_id: 3, vote_count: 0 },
            CandidateVote { candidate_id: 9, vote_count: 4 },
        ]
    );
}

#[test]
fn tally_length_mismatch_fails() {
    let (mut h, key) = in_voting();
    assert_eq!(
        h.upload_vote_tally(id(OWNER), &key, vec![1, 2], vec![1]),
        Err(HackathonError::TallyLengthMismatch)
    );
    assert_eq!(h.activity(&key).unwrap().phase, ActivityPhase::Voting);
}

#[test]
fn tally_of_100_is_accepted_and_101_rejected() {
    let (mut h, key) = in_voting();
    let ids: Vec<u64> = (0..101).collect();
    assert_eq!(
        h.upload_vote_tally(id(OWNER), &key, ids.clone(), ids.clone()),
        Err(HackathonError::TallyTooLong)
    );
    let ids: Vec<u64> = (0..100).collect();
    assert_eq!(h.upload_vote_tally(id(OWNER), &key, ids.clone(), ids), Ok(()));
}

#[test]
fn tally_outside_voting_or_by_stranger_fails() {
    let (mut h, key) = in_voting();
    assert_eq!(
        h.upload_vote_tally(id(V1), &key, vec![7], vec![1]),
        Err(HackathonError::Unauthorized)
    );
    h.start_submission(id(OWNER), &key).unwrap();
    assert_eq!(
        h.upload_vote_tally(id(OWNER), &key, vec![7], vec![1]),
        Err(HackathonError::InvalidPhaseForTally)
    );
}

#[test]
fn second_tally_fails() {
    let (mut h, key) = in_voting();
    h.upload_vote_tally(id(OWNER), &key, vec![7], vec![1]).unwrap();
    h.start_voting(id(OWNER), &key).unwrap();
    assert_eq!(
        h.upload_vote_tally(id(OWNER), &key, vec![7], vec![2]),
        Err(HackathonError::AccountAlreadyInUse)
    );
}
