//! Properties that hold across operations, proved over their transitions.

use vstd::prelude::*;

use crate::error::HackathonError;
use crate::identity::Identity;
use crate::program::{balance_of, HackathonState};
use crate::state::{ActivityKey, ActivityPhase, SponsorApplication, SponsorApplicationStatus};

verus! {

/// An activity can be deleted only while it is a draft; for its owner,
/// deletion succeeds exactly when it is.
pub proof fn lemma_delete_only_in_draft(s: HackathonState, caller: Identity, key: ActivityKey)
    ensures
        s.delete_activity(caller, key).0 is Ok ==> s.activities.contains_key(key)
            && s.activities[key].phase == ActivityPhase::Draft,
        s.activities.contains_key(key) && s.activities[key].authority == caller ==> (s.delete_activity(
            caller,
            key,
        ).0 is Ok <==> s.activities[key].phase == ActivityPhase::Draft),
{
}

/// Once a voter has voted in an activity, voting there again fails until the
/// vote is revoked: a voter holds at most one vote per activity.
pub proof fn lemma_second_vote_fails(
    s: HackathonState,
    voter: Identity,
    key: ActivityKey,
    first: u64,
    second: u64,
)
    requires
        s.cast_vote(voter, key, first).0 is Ok,
    ensures
        s.cast_vote(voter, key, first).1.cast_vote(voter, key, second).0 == Err::<(), HackathonError>(
            HackathonError::AccountAlreadyInUse,
        ),
{
}

/// An upload of a roster fails, whatever the phase, once the activity has one.
pub proof fn lemma_roster_blocks_upload(
    s: HackathonState,
    caller: Identity,
    key: ActivityKey,
    attendees: Vec<Identity>,
)
    requires
        s.check_ins.contains_key(key),
    ensures
        s.upload_check_ins(caller, key, attendees).0 is Err,
{
}

/// A successful upload leaves the activity with its roster.
pub proof fn lemma_upload_stores_roster(
    s: HackathonState,
    caller: Identity,
    key: ActivityKey,
    attendees: Vec<Identity>,
)
    requires
        s.upload_check_ins(caller, key, attendees).0 is Ok,
    ensures
        s.upload_check_ins(caller, key, attendees).1.check_ins.contains_key(key),
        s.upload_check_ins(caller, key, attendees).1.check_ins[key].attendees == attendees,
{
}

/// Every roster in `s` is still in `t`, unchanged.
pub open spec fn keeps_rosters(s: HackathonState, t: HackathonState) -> bool {
    forall|k: ActivityKey|
        #[trigger] s.check_ins.contains_key(k) ==> t.check_ins.contains_key(k) && t.check_ins[k]
            == s.check_ins[k]
}

/// No operation removes or changes a roster: once uploaded, it stays.
pub proof fn lemma_rosters_persist(
    s: HackathonState,
    caller: Identity,
    key: ActivityKey,
    phase: ActivityPhase,
    attendees: Vec<Identity>,
    number: u64,
    ids: Seq<u64>,
    counts: Seq<u64>,
    wallet: Identity,
    approve: bool,
    title: Vec<u8>,
    hash: [u8; 32],
    now: i64,
)
    ensures
        keeps_rosters(s, s.publish_activity(caller, number, title, hash, now).1),
        keeps_rosters(s, s.delete_activity(caller, key).1),
        keeps_rosters(s, s.set_phase(caller, key, phase).1),
        keeps_rosters(s, s.upload_check_ins(caller, key, attendees).1),
        keeps_rosters(s, s.cast_vote(caller, key, number).1),
        keeps_rosters(s, s.revoke_vote(caller, key).1),
        keeps_rosters(s, s.upload_vote_tally(caller, key, ids, counts).1),
        keeps_rosters(s, s.sponsor_apply(caller, number, number, now).1),
        keeps_rosters(s, s.review(caller, number, wallet, approve).1),
{
}

/// Voting and revoking succeed only for a voter on the activity's roster; in
/// `Voting`, with a roster that lacks the voter, both fail with the same
/// membership error.
pub proof fn lemma_roster_gates_voting(
    s: HackathonState,
    voter: Identity,
    key: ActivityKey,
    candidate_id: u64,
)
    ensures
        s.cast_vote(voter, key, candidate_id).0 is Ok ==> s.on_roster(key, voter),
        s.revoke_vote(voter, key).0 is Ok ==> s.on_roster(key, voter),
        s.activities.contains_key(key) && s.activities[key].phase == ActivityPhase::Voting
            && s.check_ins.contains_key(key) && !s.on_roster(key, voter) ==> s.cast_vote(
            voter,
            key,
            candidate_id,
        ).0 == Err::<(), HackathonError>(HackathonError::NotInCheckInList) && s.revoke_vote(
            voter,
            key,
        ).0 == Err::<(), HackathonError>(HackathonError::NotInCheckInList),
{
}

/// A review by the authority of an application that is no longer pending
/// fails with `ApplicationNotPending`, whichever way it decides.
pub proof fn lemma_settled_application_not_pending(
    s: HackathonState,
    caller: Identity,
    application_id: u64,
    wallet: Identity,
    approve: bool,
)
    requires
        s.config is Some,
        s.config.unwrap().authority == caller,
        s.applications.contains_key(application_id),
        s.applications[application_id].status != SponsorApplicationStatus::Pending,
    ensures
        s.review(caller, application_id, wallet, approve).0 == Err::<(), HackathonError>(
            HackathonError::ApplicationNotPending,
        ),
{
}

/// Approval and rejection exclude each other: after one succeeds the
/// application is settled the way it decided, and any further approval or
/// rejection fails, with `ApplicationNotPending` when the authority asks.
pub proof fn lemma_review_settles_once(
    s: HackathonState,
    caller: Identity,
    application_id: u64,
    wallet: Identity,
    approve: bool,
    next_caller: Identity,
    next_wallet: Identity,
    next_approve: bool,
)
    requires
        s.review(caller, application_id, wallet, approve).0 is Ok,
    ensures
        ({
            let t = s.review(caller, application_id, wallet, approve).1;
            &&& t.applications[application_id].status == (if approve {
                SponsorApplicationStatus::Approved
            } else {
                SponsorApplicationStatus::Rejected
            })
            &&& t.review(next_caller, application_id, next_wallet, next_approve).0 is Err
            &&& next_caller == caller ==> t.review(
                next_caller,
                application_id,
                next_wallet,
                next_approve,
            ).0 == Err::<(), HackathonError>(HackathonError::ApplicationNotPending)
        }),
{
}

/// A deposit moves exactly its amount from the sponsor into the treasury and
/// is recorded as pending with that amount; no other balance changes.
pub proof fn lemma_apply_escrows_amount(
    s: HackathonState,
    sponsor: Identity,
    application_id: u64,
    amount: u64,
    now: i64,
)
    requires
        s.sponsor_apply(sponsor, application_id, amount, now).0 is Ok,
    ensures
        ({
            let t = s.sponsor_apply(sponsor, application_id, amount, now).1;
            let treasury = s.config.unwrap().treasury;
            &&& t.applications[application_id].status == SponsorApplicationStatus::Pending
            &&& t.applications[application_id].amount_lamports == amount
            &&& t.applications[application_id].sponsor == sponsor
            &&& sponsor != treasury ==> balance_of(t.lamports, treasury) == balance_of(
                s.lamports,
                treasury,
            ) + amount && balance_of(t.lamports, sponsor) == balance_of(s.lamports, sponsor)
                - amount
            &&& forall|a: Identity|
                a != sponsor && a != treasury ==> #[trigger] balance_of(t.lamports, a)
                    == balance_of(s.lamports, a)
        }),
{
}

/// A settled review moves exactly the deposited amount out of the treasury,
/// to the admin wallet on approval or to the sponsor on rejection; no other
/// balance changes.
pub proof fn lemma_review_releases_amount(
    s: HackathonState,
    caller: Identity,
    application_id: u64,
    wallet: Identity,
    approve: bool,
)
    requires
        s.review(caller, application_id, wallet, approve).0 is Ok,
    ensures
        ({
            let t = s.review(caller, application_id, wallet, approve).1;
            let treasury = s.config.unwrap().treasury;
            let amount = s.applications[application_id].amount_lamports;
            &&& wallet == (if approve {
                s.config.unwrap().admin_wallet
            } else {
                s.applications[application_id].sponsor
            })
            &&& t.applications[application_id].amount_lamports == amount
            &&& wallet != treasury ==> balance_of(t.lamports, treasury) == balance_of(
                s.lamports,
                treasury,
            ) - amount && balance_of(t.lamports, wallet) == balance_of(s.lamports, wallet)
                + amount
            &&& forall|a: Identity|
                a != wallet && a != treasury ==> #[trigger] balance_of(t.lamports, a)
                    == balance_of(s.lamports, a)
        }),
{
}

/// A deposit followed by its review leaves the treasury where it was: the
/// amount the sponsor paid in is the amount paid out, to exactly one wallet.
pub proof fn lemma_escrow_round_trip(
    s: HackathonState,
    sponsor: Identity,
    application_id: u64,
    amount: u64,
    now: i64,
    reviewer: Identity,
    wallet: Identity,
    approve: bool,
)
    requires
        s.sponsor_apply(sponsor, application_id, amount, now).0 is Ok,
        s.sponsor_apply(sponsor, application_id, amount, now).1.review(
            reviewer,
            application_id,
            wallet,
            approve,
        ).0 is Ok,
        sponsor != s.config.unwrap().treasury,
        wallet != s.config.unwrap().treasury,
    ensures
        ({
            let t = s.sponsor_apply(sponsor, application_id, amount, now).1;
            let u = t.review(reviewer, application_id, wallet, approve).1;
            let treasury = s.config.unwrap().treasury;
            &&& balance_of(u.lamports, treasury) == balance_of(s.lamports, treasury)
            &&& sponsor != wallet ==> balance_of(u.lamports, sponsor) == balance_of(
                s.lamports,
                sponsor,
            ) - amount && balance_of(u.lamports, wallet) == balance_of(s.lamports, wallet)
                + amount
        }),
{
    lemma_apply_escrows_amount(s, sponsor, application_id, amount, now);
    let t = s.sponsor_apply(sponsor, application_id, amount, now).1;
    lemma_review_releases_amount(t, reviewer, application_id, wallet, approve);
}

/// What an application holds in escrow: its amount while pending, nothing once settled.
pub open spec fn escrowed(application: SponsorApplication) -> nat {
    if application.status == SponsorApplicationStatus::Pending {
        application.amount_lamports as nat
    } else {
        0
    }
}

/// The sum of what the applications under `ids` hold in escrow.
pub open spec fn escrowed_over(applications: Map<u64, SponsorApplication>, ids: Set<u64>) -> nat
    decreases ids.len(),
    when ids.finite()
{
    if ids.len() == 0 {
        0
    } else {
        let id = ids.choose();
        escrowed(applications[id]) + escrowed_over(applications, ids.remove(id))
    }
}

/// The sum of what all applications hold in escrow.
pub open spec fn pending_total(applications: Map<u64, SponsorApplication>) -> nat {
    escrowed_over(applications, applications.dom())
}

/// The sum can be split at any member, not only at the one it picks.
pub proof fn lemma_escrowed_split(applications: Map<u64, SponsorApplication>, ids: Set<u64>, id: u64)
    requires
        ids.finite(),
        ids.contains(id),
    ensures
        escrowed_over(applications, ids) == escrowed(applications[id]) + escrowed_over(
            applications,
            ids.remove(id),
        ),
    decreases ids.len(),
{
    let c = ids.choose();
    if c != id {
        lemma_escrowed_split(applications, ids.remove(c), id);
        lemma_escrowed_split(applications, ids.remove(id), c);
        assert(ids.remove(c).remove(id) =~= ids.remove(id).remove(c));
    }
}

/// Two maps that agree on what each id holds in escrow have the same sum.
pub proof fn lemma_escrowed_agree(
    a: Map<u64, SponsorApplication>,
    b: Map<u64, SponsorApplication>,
    ids: Set<u64>,
)
    requires
        ids.finite(),
        forall|id: u64| ids.contains(id) ==> escrowed(#[trigger] a[id]) == escrowed(b[id]),
    ensures
        escrowed_over(a, ids) == escrowed_over(b, ids),
    decreases ids.len(),
{
    if ids.len() != 0 {
        let c = ids.choose();
        lemma_escrowed_agree(a, b, ids.remove(c));
    }
}

/// A new application adds its escrow to the total; a changed one replaces its share.
pub proof fn lemma_pending_total_insert(
    applications: Map<u64, SponsorApplication>,
    id: u64,
    application: SponsorApplication,
)
    requires
        applications.dom().finite(),
    ensures
        !applications.contains_key(id) ==> pending_total(applications.insert(id, application))
            == pending_total(applications) + escrowed(application),
        applications.contains_key(id) ==> pending_total(applications.insert(id, application))
            + escrowed(applications[id]) == pending_total(applications) + escrowed(application),
{
    let after = applications.insert(id, application);
    let ids = applications.dom();
    lemma_escrowed_split(after, after.dom(), id);
    if applications.contains_key(id) {
        assert(after.dom() =~= ids);
        lemma_escrowed_split(applications, ids, id);
        lemma_escrowed_agree(after, applications, ids.remove(id));
    } else {
        assert(after.dom().remove(id) =~= ids);
        lemma_escrowed_agree(after, applications, ids);
    }
}

/// The treasury covers every pending deposit: once the configuration exists
/// its balance is at least the total held in escrow, and before that there
/// are no applications.
pub open spec fn escrow_covered(s: HackathonState) -> bool {
    &&& s.applications.dom().finite()
    &&& s.config is None ==> s.applications.dom() =~= Set::<u64>::empty()
    &&& s.config is Some ==> balance_of(s.lamports, s.config.unwrap().treasury) >= pending_total(
        s.applications,
    )
}

/// A new program holds no applications, so its treasury covers them.
pub proof fn lemma_escrow_covered_initially(s: HackathonState)
    requires
        s.config is None,
        s.applications == Map::<u64, SponsorApplication>::empty(),
    ensures
        escrow_covered(s),
{
}

/// Every operation keeps the treasury covering the pending deposits, as long
/// as no caller acts as the treasury itself, which no outside party can.
pub proof fn lemma_escrow_stays_covered(
    s: HackathonState,
    caller: Identity,
    key: ActivityKey,
    phase: ActivityPhase,
    attendees: Vec<Identity>,
    number: u64,
    amount: u64,
    ids: Seq<u64>,
    counts: Seq<u64>,
    account: Identity,
    treasury: Identity,
    derived: Option<(Seq<u8>, u8)>,
    wallet: Identity,
    approve: bool,
    title: Vec<u8>,
    hash: [u8; 32],
    now: i64,
)
    requires
        escrow_covered(s),
        s.config is Some ==> caller != s.config.unwrap().treasury,
    ensures
        escrow_covered(s.publish_activity(caller, number, title, hash, now).1),
        escrow_covered(s.delete_activity(caller, key).1),
        escrow_covered(s.set_phase(caller, key, phase).1),
        escrow_covered(s.upload_check_ins(caller, key, attendees).1),
        escrow_covered(s.cast_vote(caller, key, number).1),
        escrow_covered(s.revoke_vote(caller, key).1),
        escrow_covered(s.upload_vote_tally(caller, key, ids, counts).1),
        escrow_covered(s.fund(account, amount).1),
        escrow_covered(
            s.initialize_sponsor_config(caller, treasury, derived, wallet, number, amount).1,
        ),
        escrow_covered(s.sponsor_apply(caller, number, amount, now).1),
        escrow_covered(s.review(caller, number, wallet, approve).1),
{
    let t = s.sponsor_apply(caller, number, amount, now).1;
    if s.sponsor_apply(caller, number, amount, now).0 is Ok {
        lemma_pending_total_insert(s.applications, number, t.applications[number]);
    }
    let u = s.review(caller, number, wallet, approve).1;
    if s.review(caller, number, wallet, approve).0 is Ok {
        lemma_pending_total_insert(s.applications, number, u.applications[number]);
    }
    let v = s.initialize_sponsor_config(caller, treasury, derived, wallet, number, amount).1;
    if s.config is None {
        assert(s.applications =~= Map::<u64, SponsorApplication>::empty());
        assert(pending_total(v.applications) == 0);
    }
}

/// With the treasury covering the pending deposits, a review never fails for
/// want of funds: the treasury holds at least the amount it pays out.
pub proof fn lemma_covered_review_is_funded(
    s: HackathonState,
    caller: Identity,
    application_id: u64,
    wallet: Identity,
    approve: bool,
)
    requires
        escrow_covered(s),
    ensures
        s.review(caller, application_id, wallet, approve).0 != Err::<(), HackathonError>(
            HackathonError::InsufficientFunds,
        ),
{
    if s.config is Some && s.applications.contains_key(application_id) {
        lemma_escrowed_split(s.applications, s.applications.dom(), application_id);
    }
}

} // verus!
