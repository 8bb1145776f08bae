//! Hackathon lifecycle and sponsor escrow: a phase state machine for
//! activities, a check-in roster and voting subsystem, and a two-party escrow
//! of sponsor deposits, over a store of uniquely keyed records.

pub mod error;
pub mod identity;
pub mod laws;
pub mod program;
pub mod state;
pub mod table;

pub use error::HackathonError;
pub use identity::Identity;
pub use program::{balance_of, transfer_spec, Hackathon, HackathonState};
pub use state::{
    Activity, ActivityCheckIns, ActivityKey, ActivityPhase, CandidateVote, SponsorApplication,
    SponsorApplicationStatus, SponsorConfig, VoteKey, VoteRecord, VoteTally, VoteTallyView,
};
