use anchor_lang::prelude::Pubkey;
use hackathon::{Hackathon, HackathonError, Identity, SponsorApplicationStatus};

fn id(b: u8) -> Identity {
    Identity::new([b; 32])
}

const AUTHORITY: u8 = 1;
const ADMIN: u8 = 2;
const SPONSOR: u8 = 3;
const RENT: u64 = 890_880;

fn program_id() -> Identity {
    id(200)
}

fn treasury() -> Identity {
    let program = Pubkey::new_from_array(program_id().bytes);
    let (address, _) = Pubkey::find_program_address(&[b"treasury"], &program);
    Identity::new(address.to_bytes())
}

fn configured() -> Hackathon {
    let mut h = Hackathon::new(program_id());
    h.fund(id(AUTHORITY), 10_000_000).unwrap();
    h.fund(id(SPONSOR), 5_000).unwrap();
    h.initialize_sponsor_config(id(AUTHORITY), treasury(), id(ADMIN), 10800, RENT)
        .unwrap();
    h
}

#[test]
fn init_config_records_settings_and_opens_treasury() {
    let h = configured();
    let config = h.sponsor_config().unwrap();
    assert_eq!(config.authority, id(AUTHORITY));
    assert_eq!(config.admin_wallet, id(ADMIN));
    assert_eq!(config.review_period_secs, 10800);
    assert_eq!(config.treasury, treasury());
    assert_eq!(h.balance(&treasury()), RENT);
    assert_eq!(h.balance(&id(AUTHORITY)), 10_000_000 - RENT);
}

#[test]
fn init_config_records_derived_bump() {
    let h = configured();
    let program = Pubkey::new_from_array(program_id().bytes);
    let (_, bump) = Pubkey::find_program_address(&[b"treasury"], &program);
    assert_eq!(h.sponsor_config().unwrap().treasury_bump, bump);
}

#[test]
fn init_config_with_wrong_treasury_fails() {
    let mut h = Hackathon::new(program_id());
    h.fund(id(AUTHORITY), 10_000_000).unwrap();
    assert_eq!(
        h.initialize_sponsor_config(id(AUTHORITY), program_id(), id(ADMIN), 10800, RENT),
        Err(HackathonError::InvalidTreasury)
    );
    assert!(h.sponsor_config().is_none());
}

#[test]
fn init_config_twice_fails() {
    let mut h = configured();
    assert_eq!(
        h.initialize_sponsor_config(id(AUTHORITY), treasury(), id(ADMIN), 10800, RENT),
        Err(HackathonError::ConfigAlreadyInitialized)
    );
}

#[test]
fn init_config_with_existing_treasury_charges_nothing() {
    let mut h = Hackathon::new(program_id());
    h.fund(id(AUTHORITY), 10_000_000).unwrap();
    h.fund(treasury(), 1).unwrap();
    h.initialize_sponsor_config(id(AUTHORITY), treasury(), id(ADMIN), 10800, RENT)
        .unwrap();
    assert_eq!(h.balance(&id(AUTHORITY)), 10_000_000);
    assert_eq!(h.balance(&treasury()), 1);
}

#[test]
fn init_config_without_rent_funds_fails() {
    let mut h = Hackathon::new(program_id());
    assert_eq!(
        h.initialize_sponsor_config(id(AUTHORITY), treasury(), id(ADMIN), 10800, RENT),
        Err(HackathonError::InsufficientFunds)
    );
    assert!(h.sponsor_config().is_none());
}

#[test]
fn init_config_with_given_address_uses_it() {
    let mut h = Hackathon::new(program_id());
    h.fund(id(AUTHORITY), 1_000).unwrap();
    assert_eq!(
        h.initialize_sponsor_config_with_address(
            id(AUTHORITY),
            id(50),
            Some((id(50), 254)),
            id(ADMIN),
            60,
            100
        ),
        Ok(())
    );
    assert_eq!(h.sponsor_config().unwrap().treasury_bump, 254);
    assert_eq!(h.balance(&id(50)), 100);
    let mut g = Hackathon::new(program_id());
    assert_eq!(
        g.initialize_sponsor_config_with_address(id(AUTHORITY), id(50), None, id(ADMIN), 60, 0),
        Err(HackathonError::InvalidTreasury)
    );
    assert_eq!(
        g.initialize_sponsor_config_with_address(
            id(AUTHORITY),
            id(50),
            Some((id(51), 1)),
            id(ADMIN),
            60,
            0
        ),
        Err(HackathonError::InvalidTreasury)
    );
}

#[test]
fn apply_approve_scenario() {
    let mut h = configured();
    let treasury_before = h.balance(&treasury());
    assert_eq!(h.sponsor_apply(id(SPONSOR), 1, 500, 1_700_000_000), Ok(()));
    assert_eq!(h.balance(&treasury()), treasury_before + 500);
    assert_eq!(h.balance(&id(SPONSOR)), 4_500);
    let app = h.application(1).unwrap();
    assert_eq!(app.status, SponsorApplicationStatus::Pending);
    assert_eq!(app.amount_lamports, 500);
    assert_eq!(app.sponsor, id(SPONSOR));
    assert_eq!(app.applied_at, 1_700_000_000);

    assert_eq!(h.approve_sponsor(id(AUTHORITY), 1, id(ADMIN)), Ok(()));
    assert_eq!(h.balance(&id(ADMIN)), 500);
    assert_eq!(h.balance(&treasury()), treasury_before);
    assert_eq!(h.application(1).unwrap().status, SponsorApplicationStatus::Approved);

    assert_eq!(
        h.approve_sponsor(id(AUTHORITY), 1, id(ADMIN)),
        Err(HackathonError::ApplicationNotPending)
    );
    assert_eq!(
        h.reject_sponsor(id(AUTHORITY), 1, id(SPONSOR)),
        Err(HackathonError::ApplicationNotPending)
    );
    assert_eq!(h.balance(&id(ADMIN)), 500);
    assert_eq!(h.balance(&id(SPONSOR)), 4_500);
}

#[test]
fn reject_returns_deposit_to_sponsor() {
    let mut h = configured();
    let treasury_before = h.balance(&treasury());
    h.sponsor_apply(id(SPONSOR), 2, 700, 0).unwrap();
    assert_eq!(h.reject_sponsor(id(AUTHORITY), 2, id(SPONSOR)), Ok(()));
    assert_eq!(h.balance(&id(SPONSOR)), 5_000);
    assert_eq!(h.balance(&treasury()), treasury_before);
    assert_eq!(h.balance(&id(ADMIN)), 0);
    assert_eq!(h.application(2).unwrap().status, SponsorApplicationStatus::Rejected);
    assert_eq!(
        h.approve_sponsor(id(AUTHORITY), 2, id(ADMIN)),
        Err(HackathonError::ApplicationNotPending)
    );
}

#[test]
fn apply_zero_amount_fails() {
    let mut h = configured();
    assert_eq!(h.sponsor_apply(id(SPONSOR), 1, 0, 0), Err(HackathonError::ZeroAmount));
    assert!(h.application(1).is_none());
}

#[test]
fn apply_duplicate_id_fails() {
    let mut h = configured();
    h.sponsor_apply(id(SPONSOR), 1, 100, 0).unwrap();
    assert_eq!(
        h.sponsor_apply(id(SPONSOR), 1, 100, 0),
        Err(HackathonError::AccountAlreadyInUse)
    );
    assert_eq!(h.balance(&id(SPONSOR)), 4_900);
}

#[test]
fn apply_beyond_balance_fails() {
    let mut h = configured();
    assert_eq!(
        h.sponsor_apply(id(SPONSOR), 1, 5_001, 0),
        Err(HackathonError::InsufficientFunds)
    );
    assert_eq!(h.balance(&id(SPONSOR)), 5_000);
}

#[test]
fn apply_before_config_fails() {
    let mut h = Hackathon::new(program_id());
    h.fund(id(SPONSOR), 5_000).unwrap();
    assert_eq!(h.sponsor_apply(id(SPONSOR), 1, 100, 0), Err(HackathonError::AccountNotFound));
}

#[test]
fn review_by_non_authority_fails() {
    let mut h = configured();
    h.sponsor_apply(id(SPONSOR), 1, 100, 0).unwrap();
    assert_eq!(
        h.approve_sponsor(id(SPONSOR), 1, id(ADMIN)),
        Err(HackathonError::NotConfigAuthority)
    );
    assert_eq!(
        h.reject_sponsor(id(ADMIN), 1, id(SPONSOR)),
        Err(HackathonError::NotConfigAuthority)
    );
}

#[test]
fn review_with_wrong_wallet_fails() {
    let mut h = configured();
    h.sponsor_apply(id(SPONSOR), 1, 100, 0).unwrap();
    assert_eq!(
        h.approve_sponsor(id(AUTHORITY), 1, id(SPONSOR)),
        Err(HackathonError::AdminWalletMismatch)
    );
    assert_eq!(
        h.reject_sponsor(id(AUTHORITY), 1, id(ADMIN)),
        Err(HackathonError::SponsorWalletMismatch)
    );
    assert_eq!(h.application(1).unwrap().status, SponsorApplicationStatus::Pending);
}

#[test]
fn review_of_missing_application_fails() {
    let mut h = configured();
    assert_eq!(
        h.approve_sponsor(id(AUTHORITY), 9, id(ADMIN)),
        Err(HackathonError::AccountNotFound)
    );
}

#[test]
fn applications_are_settled_independently() {
    let mut h = configured();
    h.sponsor_apply(id(SPONSOR), 1, 100, 0).unwrap();
    h.sponsor_apply(id(SPONSOR), 2, 200, 0).unwrap();
    h.approve_sponsor(id(AUTHORITY), 2, id(ADMIN)).unwrap();
    assert_eq!(h.application(1).unwrap().status, SponsorApplicationStatus::Pending);
    h.reject_sponsor(id(AUTHORITY), 1, id(SPONSOR)).unwrap();
    assert_eq!(h.balance(&id(ADMIN)), 200);
    assert_eq!(h.balance(&id(SPONSOR)), 4_800);
    assert_eq!(h.balance(&treasury()), RENT);
}

#[test]
fn fund_overflow_fails() {
    let mut h = Hackathon::new(program_id());
    h.fund(id(9), u64::MAX).unwrap();
    assert_eq!(h.fund(id(9), 1), Err(HackathonError::BalanceOverflow));
    assert_eq!(h.balance(&id(9)), u64::MAX);
}

#[test]
fn identity_comparison_is_bytewise() {
    let mut a = [4u8; 32];
    let b = a;
    assert!(Identity::new(a).same(&Identity::new(b)));
    a[31] = 5;
    assert!(!Identity::new(a).same(&Identity::new(b)));
}
