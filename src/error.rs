//! Failures of the hackathon operations.

use vstd::prelude::*;

verus! {

/// Every way an operation can be rejected. A rejected operation changes nothing.
#[derive(Clone, Copy, Debug, PartialEq, Eq, Structural)]
pub enum HackathonError {
    /// The title is longer than 128 bytes.
    TitleTooLong,
    /// Only an activity still in `Draft` can be deleted.
    CannotDeleteAfterRegistration,
    /// The roster holds more than 200 attendees.
    CheckInListTooLong,
    /// The roster can be uploaded only during `CheckIn`.
    InvalidPhaseForCheckInUpload,
    /// The voter is not on the activity's roster.
    NotInCheckInList,
    /// Votes can be cast or revoked only during `Voting`.
    InvalidPhaseForVote,
    /// The tally has more than 100 entries.
    TallyTooLong,
    /// The tally can be uploaded only during `Voting`.
    InvalidPhaseForTally,
    /// Candidate identifiers and vote counts differ in number.
    TallyLengthMismatch,
    /// The sponsor configuration exists already.
    ConfigAlreadyInitialized,
    /// Only the configuration's review authority may approve or reject.
    NotConfigAuthority,
    /// The application has been approved or rejected already.
    ApplicationNotPending,
    /// A deposit must be greater than zero.
    ZeroAmount,
    /// The sponsor wallet is not the application's sponsor.
    SponsorWalletMismatch,
    /// The treasury is not the address derived from the "treasury" tag.
    InvalidTreasury,
    /// The admin wallet is not the one in the sponsor configuration.
    AdminWalletMismatch,
    /// The caller is not the owner recorded on the record.
    Unauthorized,
    /// A record is already stored at the derived address.
    AccountAlreadyInUse,
    /// No record is stored at the derived address.
    AccountNotFound,
    /// The paying account holds less than the amount moved.
    InsufficientFunds,
    /// A balance would exceed the largest representable amount.
    BalanceOverflow,
}

impl HackathonError {
    /// The message reported to the caller.
    pub fn message(&self) -> &'static str {
        match self {
            HackathonError::TitleTooLong => "Title must be at most 128 bytes",
            HackathonError::CannotDeleteAfterRegistration => "Activity cannot be deleted after registration has started",
            HackathonError::CheckInListTooLong => "Check-in list must be at most 200 attendees",
            HackathonError::InvalidPhaseForCheckInUpload => "Only check-in phase allows uploading check-in list",
            HackathonError::NotInCheckInList => "Voter is not in check-in list",
            HackathonError::InvalidPhaseForVote => "Only voting phase allows vote/revoke",
            HackathonError::TallyTooLong => "Tally must be at most 100 entries",
            HackathonError::InvalidPhaseForTally => "Only voting phase allows uploading tally",
            HackathonError::TallyLengthMismatch => "Candidate IDs and vote counts length mismatch",
            HackathonError::ConfigAlreadyInitialized => "Sponsor config already initialized",
            HackathonError::NotConfigAuthority => "Only config authority can approve or reject",
            HackathonError::ApplicationNotPending => "Application is not in Pending status",
            HackathonError::ZeroAmount => "Sponsor application amount must be greater than zero",
            HackathonError::SponsorWalletMismatch => "Sponsor wallet account does not match application",
            HackathonError::InvalidTreasury => "Invalid treasury PDA",
            HackathonError::AdminWalletMismatch => "Admin wallet account does not match config",
            HackathonError::Unauthorized => "Caller is not the record's owner",
            HackathonError::AccountAlreadyInUse => "Account already in use",
            HackathonError::AccountNotFound => "Account not found",
            HackathonError::InsufficientFunds => "Insufficient funds for transfer",
            HackathonError::BalanceOverflow => "Balance overflow",
        }
    }
}

} // verus!
