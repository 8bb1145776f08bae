//! The hackathon program: every record it keeps, the balances it moves, and
//! the operations on them. Each operation is all-or-nothing: it either
//! succeeds with the effect its transition states, or fails and changes nothing.

use vstd::prelude::*;

use crate::error::HackathonError;
use crate::identity::Identity;
use crate::state::{
    Activity, ActivityCheckIns, ActivityKey, SponsorApplication, SponsorConfig, VoteKey,
    VoteRecord, VoteTally, VoteTallyView,
};
use crate::table::Table;

pub mod activity;
pub mod check_in;
pub mod sponsor;
pub mod vote;

verus! {

/// The abstract state of the program: one map per kind of record, keyed as
/// the records are addressed, and the balance of every account.
pub struct HackathonState {
    pub program_id: Identity,
    pub activities: Map<ActivityKey, Activity>,
    pub check_ins: Map<ActivityKey, ActivityCheckIns>,
    pub votes: Map<VoteKey, VoteRecord>,
    pub tallies: Map<ActivityKey, VoteTallyView>,
    pub config: Option<SponsorConfig>,
    pub applications: Map<u64, SponsorApplication>,
    pub lamports: Map<Identity, u64>,
}

/// The balance of an account; one that was never credited holds nothing.
pub open spec fn balance_of(lamports: Map<Identity, u64>, account: Identity) -> nat {
    if lamports.contains_key(account) {
        lamports[account] as nat
    } else {
        0
    }
}

/// Moving `amount` from one account to another: fails when the payer holds
/// less, or when the payee's balance would overflow.
pub open spec fn transfer_spec(
    lamports: Map<Identity, u64>,
    from: Identity,
    to: Identity,
    amount: u64,
) -> Result<Map<Identity, u64>, HackathonError> {
    let from_balance = balance_of(lamports, from);
    let to_balance = balance_of(lamports, to);
    if from_balance < amount {
        Err(HackathonError::InsufficientFunds)
    } else if from == to {
        Ok(lamports)
    } else if to_balance + amount > u64::MAX {
        Err(HackathonError::BalanceOverflow)
    } else {
        Ok(
            lamports.insert(from, (from_balance - amount) as u64).insert(
                to,
                (to_balance + amount) as u64,
            ),
        )
    }
}

impl HackathonState {
    /// Crediting an account from outside the program.
    pub open spec fn fund(self, account: Identity, amount: u64) -> (Result<(), HackathonError>, HackathonState) {
        let balance = balance_of(self.lamports, account);
        if balance + amount > u64::MAX {
            (Err(HackathonError::BalanceOverflow), self)
        } else {
            (Ok(()), HackathonState { lamports: self.lamports.insert(account, (balance + amount) as u64), ..self })
        }
    }
}

/// The program's records and the ledger of balances it moves funds on.
pub struct Hackathon {
    program_id: Identity,
    activities: Table<ActivityKey, Activity>,
    check_ins: Table<ActivityKey, ActivityCheckIns>,
    votes: Table<VoteKey, VoteRecord>,
    tallies: Table<ActivityKey, VoteTally>,
    config: Option<SponsorConfig>,
    applications: Table<u64, SponsorApplication>,
    lamports: Table<Identity, u64>,
}

impl View for Hackathon {
    type V = HackathonState;

    closed spec fn view(&self) -> HackathonState {
        HackathonState {
            program_id: self.program_id,
            activities: self.activities@,
            check_ins: self.check_ins@,
            votes: self.votes@,
            tallies: self.tallies@.map_values(|t: VoteTally| t@),
            config: self.config,
            applications: self.applications@,
            lamports: self.lamports@,
        }
    }
}

/// Moves lamports between two accounts of the ledger.
fn transfer_lamports(
    lamports: &mut Table<Identity, u64>,
    from: Identity,
    to: Identity,
    amount: u64,
) -> (r: Result<(), HackathonError>)
    requires
        old(lamports).wf(),
    ensures
        final(lamports).wf(),
        match transfer_spec(old(lamports)@, from, to, amount) {
            Ok(l) => r is Ok && final(lamports)@ == l,
            Err(e) => r == Err::<(), HackathonError>(e) && final(lamports)@ == old(lamports)@,
        },
{
    let from_balance = balance_in(lamports, &from);
    let to_balance = balance_in(lamports, &to);
    if from_balance < amount {
        return Err(HackathonError::InsufficientFunds);
    }
    if from.same(&to) {
        return Ok(());
    }
    if to_balance > u64::MAX - amount {
        return Err(HackathonError::BalanceOverflow);
    }
    lamports.set(from, from_balance - amount);
    lamports.set(to, to_balance + amount);
    Ok(())
}

fn balance_in(lamports: &Table<Identity, u64>, account: &Identity) -> (r: u64)
    requires
        lamports.wf(),
    ensures
        r as nat == balance_of(lamports@, *account),
{
    match lamports.get(account) {
        Some(b) => *b,
        None => 0,
    }
}

impl Hackathon {
    /// The tables keep their keys unique.
    pub closed spec fn wf(&self) -> bool {
        &&& self.activities.wf()
        &&& self.check_ins.wf()
        &&& self.votes.wf()
        &&& self.tallies.wf()
        &&& self.applications.wf()
        &&& self.lamports.wf()
        &&& self.applications@.dom().finite()
    }

    /// The applications of a well-formed program are finitely many.
    pub proof fn lemma_applications_finite(&self)
        requires
            self.wf(),
        ensures
            self@.applications.dom().finite(),
    {
    }

    /// An empty program with the given address, holding no records and no funds.
    pub fn new(program_id: Identity) -> (r: Hackathon)
        ensures
            r.wf(),
            r@.program_id == program_id,
            r@.activities == Map::<ActivityKey, Activity>::empty(),
            r@.check_ins == Map::<ActivityKey, ActivityCheckIns>::empty(),
            r@.votes == Map::<VoteKey, VoteRecord>::empty(),
            r@.tallies == Map::<ActivityKey, VoteTallyView>::empty(),
            r@.config is None,
            r@.applications == Map::<u64, SponsorApplication>::empty(),
            r@.lamports == Map::<Identity, u64>::empty(),
    {
        let r = Hackathon {
            program_id,
            activities: Table::new(),
            check_ins: Table::new(),
            votes: Table::new(),
            tallies: Table::new(),
            config: None,
            applications: Table::new(),
            lamports: Table::new(),
        };
        assert(r@.tallies =~= Map::<ActivityKey, VoteTallyView>::empty());
        assert(r@.applications.dom() =~= Set::<u64>::empty());
        r
    }

    /// The entry point that only greets; it always succeeds and changes nothing.
    pub fn initialize(&self) -> (r: Result<(), HackathonError>)
        ensures
            r is Ok,
    {
        Ok(())
    }

    pub fn program_id(&self) -> (r: Identity)
        ensures
            r == self@.program_id,
    {
        self.program_id
    }

    /// Credits an account from outside the program (a wallet's opening funds).
    pub fn fund(&mut self, account: Identity, amount: u64) -> (r: Result<(), HackathonError>)
        requires
            old(self).wf(),
        ensures
            final(self).wf(),
            (r, final(self)@) == old(self)@.fund(account, amount),
    {
        let b = balance_in(&self.lamports, &account);
        if b > u64::MAX - amount {
            return Err(HackathonError::BalanceOverflow);
        }
        self.lamports.set(account, b + amount);
        Ok(())
    }

    pub fn balance(&self, account: &Identity) -> (r: u64)
        requires
            self.wf(),
        ensures
            r as nat == balance_of(self@.lamports, *account),
    {
        balance_in(&self.lamports, account)
    }

    pub fn activity(&self, key: &ActivityKey) -> (r: Option<&Activity>)
        requires
            self.wf(),
        ensures
            r.is_some() == self@.activities.contains_key(*key),
            r.is_some() ==> *r.unwrap() == self@.activities[*key],
    {
        self.activities.get(key)
    }

    pub fn check_ins(&self, key: &ActivityKey) -> (r: Option<&ActivityCheckIns>)
        requires
            self.wf(),
        ensures
            r.is_some() == self@.check_ins.contains_key(*key),
            r.is_some() ==> *r.unwrap() == self@.check_ins[*key],
    {
        self.check_ins.get(key)
    }

    pub fn vote_record(&self, key: &VoteKey) -> (r: Option<&VoteRecord>)
        requires
            self.wf(),
        ensures
            r.is_some() == self@.votes.contains_key(*key),
            r.is_some() ==> *r.unwrap() == self@.votes[*key],
    {
        self.votes.get(key)
    }

    pub fn vote_tally(&self, key: &ActivityKey) -> (r: Option<&VoteTally>)
        requires
            self.wf(),
        ensures
            r.is_some() == self@.tallies.contains_key(*key),
            r.is_some() ==> r.unwrap()@ == self@.tallies[*key],
    {
        self.tallies.get(key)
    }

    pub fn sponsor_config(&self) -> (r: Option<SponsorConfig>)
        ensures
            r == self@.config,
    {
        self.config
    }

    pub fn application(&self, application_id: u64) -> (r: Option<SponsorApplication>)
        requires
            self.wf(),
        ensures
            r.is_some() == self@.applications.contains_key(application_id),
            r.is_some() ==> r.unwrap() == self@.applications[application_id],
    {
        match self.applications.get(&application_id) {
            Some(a) => Some(*a),
            None => None,
        }
    }
}

} // verus!
