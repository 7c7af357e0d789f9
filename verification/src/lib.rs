//! A time-gated reward-accumulation service with verified state transitions.
//!
//! An account starts a claim era of a configurable length, may claim one
//! badge each time a full era has elapsed, and, once enough badges have
//! accumulated, asks the coordinator to issue a unique collectible token
//! through the issuance service. The eligibility rules, the counters and the
//! one-shot issuance protocol are all stated as contracts and proved.
//!
//! The host that runs the service supplies the caller's identity and the
//! current block height; every operation takes them as plain arguments, so
//! the whole state machine is checked for every caller and every clock.

pub mod engine;
pub mod error;
pub mod laws;
pub mod profile;
pub mod store;
pub mod wizard;

pub use engine::{Magink, QuotaPolicy, MINT_QUOTA};
pub use error::Error;
pub use profile::Profile;
pub use wizard::{AttributeKey, Transfer, Wizard, WizardError};
