//! Sponsor escrow: deposits are held in the treasury while pending, then paid
//! out once, to the admin wallet on approval or back to the sponsor on rejection.

use vstd::prelude::*;

use crate::error::HackathonError;
use crate::identity::{address_view, find_program_address, program_address_of, Identity};
use crate::program::{transfer_lamports, transfer_spec, Hackathon, HackathonState};
use crate::state::{SponsorApplication, SponsorApplicationStatus, SponsorConfig};

verus! {

/// The tag the treasury's address is derived from: the bytes of "treasury".
pub open spec fn treasury_seed() -> Seq<u8> {
    seq![116u8, 114u8, 101u8, 97u8, 115u8, 117u8, 114u8, 121u8]
}

impl HackathonState {
    /// The caller becomes the review authority. `derived` is the treasury
    /// address found for this program; the supplied `treasury` must be it.
    /// A treasury that holds no account yet is opened with `rent_minimum`,
    /// paid by the caller.
    pub open spec fn initialize_sponsor_config(
        self,
        caller: Identity,
        treasury: Identity,
        derived: Option<(Seq<u8>, u8)>,
        admin_wallet: Identity,
        review_period_secs: u64,
        rent_minimum: u64,
    ) -> (Result<(), HackathonError>, HackathonState) {
        if self.config is Some {
            (Err(HackathonError::ConfigAlreadyInitialized), self)
        } else if derived is None || derived.unwrap().0 != treasury.bytes@ {
            (Err(HackathonError::InvalidTreasury), self)
        } else {
            let config = SponsorConfig {
                authority: caller,
                admin_wallet,
                review_period_secs,
                treasury,
                treasury_bump: derived.unwrap().1,
            };
            if self.lamports.contains_key(treasury) {
                (Ok(()), HackathonState { config: Some(config), ..self })
            } else {
                match transfer_spec(self.lamports, caller, treasury, rent_minimum) {
                    Err(e) => (Err(e), self),
                    Ok(l) => (Ok(()), HackathonState { config: Some(config), lamports: l, ..self }),
                }
            }
        }
    }

    /// A sponsor deposits `amount` into the treasury under a new application.
    pub open spec fn sponsor_apply(
        self,
        caller: Identity,
        application_id: u64,
        amount: u64,
        now: i64,
    ) -> (Result<(), HackathonError>, HackathonState) {
        if self.config is None {
            (Err(HackathonError::AccountNotFound), self)
        } else if self.applications.contains_key(application_id) {
            (Err(HackathonError::AccountAlreadyInUse), self)
        } else if amount == 0 {
            (Err(HackathonError::ZeroAmount), self)
        } else {
            match transfer_spec(self.lamports, caller, self.config.unwrap().treasury, amount) {
                Err(e) => (Err(e), self),
                Ok(l) => {
                    let application = SponsorApplication {
                        sponsor: caller,
                        amount_lamports: amount,
                        status: SponsorApplicationStatus::Pending,
                        applied_at: now,
                    };
                    (
                        Ok(()),
                        HackathonState {
                            applications: self.applications.insert(application_id, application),
                            lamports: l,
                            ..self
                        },
                    )
                },
            }
        }
    }

    /// The review authority resolves a pending application: on approval its
    /// amount goes from the treasury to `wallet`, which must be the admin
    /// wallet; on rejection to `wallet`, which must be the sponsor.
    pub open spec fn review(self, caller: Identity, application_id: u64, wallet: Identity, approve: bool) -> (
        Result<(), HackathonError>,
        HackathonState,
    ) {
        if self.config is None {
            (Err(HackathonError::AccountNotFound), self)
        } else if self.config.unwrap().authority != caller {
            (Err(HackathonError::NotConfigAuthority), self)
        } else if !self.applications.contains_key(application_id) {
            (Err(HackathonError::AccountNotFound), self)
        } else if self.applications[application_id].status != SponsorApplicationStatus::Pending {
            (Err(HackathonError::ApplicationNotPending), self)
        } else if approve && wallet != self.config.unwrap().admin_wallet {
            (Err(HackathonError::AdminWalletMismatch), self)
        } else if !approve && wallet != self.applications[application_id].sponsor {
            (Err(HackathonError::SponsorWalletMismatch), self)
        } else {
            let application = self.applications[application_id];
            match transfer_spec(
                self.lamports,
                self.config.unwrap().treasury,
                wallet,
                application.amount_lamports,
            ) {
                Err(e) => (Err(e), self),
                Ok(l) => {
                    let status = if approve {
                        SponsorApplicationStatus::Approved
                    } else {
                        SponsorApplicationStatus::Rejected
                    };
                    (
                        Ok(()),
                        HackathonState {
                            applications: self.applications.insert(
                                application_id,
                                SponsorApplication { status, ..application },
                            ),
                            lamports: l,
                            ..self
                        },
                    )
                },
            }
        }
    }
}

impl Hackathon {
    /// Sets up the sponsor configuration, given the treasury address derived
    /// for this program.
    pub fn initialize_sponsor_config_with_address(
        &mut self,
        caller: Identity,
        treasury: Identity,
        derived: Option<(Identity, u8)>,
        admin_wallet: Identity,
        review_period_secs: u64,
        rent_minimum: u64,
    ) -> (r: Result<(), HackathonError>)
        requires
            old(self).wf(),
        ensures
            final(self).wf(),
            (r, final(self)@) == old(self)@.initialize_sponsor_config(
                caller,
                treasury,
                address_view(derived),
                admin_wallet,
                review_period_secs,
                rent_minimum,
            ),
    {
        if self.config.is_some() {
            return Err(HackathonError::ConfigAlreadyInitialized);
        }
        let treasury_bump = match derived {
            None => {
                return Err(HackathonError::InvalidTreasury);
            },
            Some((address, bump)) => {
                if !address.same(&treasury) {
                    proof {
                        if address.bytes@ == treasury.bytes@ {
                            assert(address.bytes =~= treasury.bytes);
                        }
                    }
                    return Err(HackathonError::InvalidTreasury);
                }
                bump
            },
        };
        if !self.lamports.contains(&treasury) {
            let moved = transfer_lamports(&mut self.lamports, caller, treasury, rent_minimum);
            if moved.is_err() {
                return moved;
            }
        }
        self.config = Some(
            SponsorConfig { authority: caller, admin_wallet, review_period_secs, treasury, treasury_bump },
        );
        Ok(())
    }

    /// Sets up the sponsor configuration, checking `treasury` against the
    /// address derived from the "treasury" tag and this program's address.
    pub fn initialize_sponsor_config(
        &mut self,
        caller: Identity,
        treasury: Identity,
        admin_wallet: Identity,
        review_period_secs: u64,
        rent_minimum: u64,
    ) -> (r: Result<(), HackathonError>)
        requires
            old(self).wf(),
        ensures
            final(self).wf(),
            (r, final(self)@) == old(self)@.initialize_sponsor_config(
                caller,
                treasury,
                program_address_of(treasury_seed(), old(self)@.program_id.bytes@),
                admin_wallet,
                review_period_secs,
                rent_minimum,
            ),
    {
        let seed: [u8; 8] = [116, 114, 101, 97, 115, 117, 114, 121];
        let seed_bytes = seed.as_slice();
        assert(seed_bytes@ =~= treasury_seed());
        let derived = find_program_address(seed_bytes, &self.program_id);
        self.initialize_sponsor_config_with_address(
            caller,
            treasury,
            derived,
            admin_wallet,
            review_period_secs,
            rent_minimum,
        )
    }

    /// `caller` deposits `amount` into the treasury under `application_id`.
    pub fn sponsor_apply(&mut self, caller: Identity, application_id: u64, amount: u64, now: i64) -> (r:
        Result<(), HackathonError>)
        requires
            old(self).wf(),
        ensures
            final(self).wf(),
            (r, final(self)@) == old(self)@.sponsor_apply(caller, application_id, amount, now),
    {
        let treasury = match self.config {
            None => {
                return Err(HackathonError::AccountNotFound);
            },
            Some(config) => config.treasury,
        };
        if self.applications.contains(&application_id) {
            return Err(HackathonError::AccountAlreadyInUse);
        }
        if amount == 0 {
            return Err(HackathonError::ZeroAmount);
        }
        let moved = transfer_lamports(&mut self.lamports, caller, treasury, amount);
        if moved.is_err() {
            return moved;
        }
        let application = SponsorApplication {
            sponsor: caller,
            amount_lamports: amount,
            status: SponsorApplicationStatus::Pending,
            applied_at: now,
        };
        self.applications.insert_new(application_id, application);
        Ok(())
    }

    fn review(&mut self, caller: Identity, application_id: u64, wallet: Identity, approve: bool) -> (r:
        Result<(), HackathonError>)
        requires
            old(self).wf(),
        ensures
            final(self).wf(),
            (r, final(self)@) == old(self)@.review(caller, application_id, wallet, approve),
    {
        let config = match self.config {
            None => {
                return Err(HackathonError::AccountNotFound);
            },
            Some(config) => config,
        };
        if !config.authority.same(&caller) {
            return Err(HackathonError::NotConfigAuthority);
        }
        let application = match self.applications.get(&application_id) {
            None => {
                return Err(HackathonError::AccountNotFound);
            },
            Some(a) => *a,
        };
        if application.status != SponsorApplicationStatus::Pending {
            return Err(HackathonError::ApplicationNotPending);
        }
        if approve && !wallet.same(&config.admin_wallet) {
            return Err(HackathonError::AdminWalletMismatch);
        }
        if !approve && !wallet.same(&application.sponsor) {
            return Err(HackathonError::SponsorWalletMismatch);
        }
        let moved = transfer_lamports(
            &mut self.lamports,
            config.treasury,
            wallet,
            application.amount_lamports,
        );
        if moved.is_err() {
            return moved;
        }
        let status = if approve {
            SponsorApplicationStatus::Approved
        } else {
            SponsorApplicationStatus::Rejected
        };
        self.applications.set(application_id, SponsorApplication { status, ..application });
        Ok(())
    }

    /// The review authority approves a pending application: its amount moves
    /// from the treasury to the admin wallet.
    pub fn approve_sponsor(&mut self, caller: Identity, application_id: u64, admin_wallet: Identity) -> (r:
        Result<(), HackathonError>)
        requires
            old(self).wf(),
        ensures
            final(self).wf(),
            (r, final(self)@) == old(self)@.review(caller, application_id, admin_wallet, true),
    {
        self.review(caller, application_id, admin_wallet, true)
    }

    /// The review authority rejects a pending application: its amount goes
    /// back from the treasury to the sponsor.
    pub fn reject_sponsor(&mut self, caller: Identity, application_id: u64, sponsor_wallet: Identity) -> (r:
        Result<(), HackathonError>)
        requires
            old(self).wf(),
        ensures
            final(self).wf(),
            (r, final(self)@) == old(self)@.review(caller, application_id, sponsor_wallet, false),
    {
        self.review(caller, application_id, sponsor_wallet, false)
    }
}

} // verus!
