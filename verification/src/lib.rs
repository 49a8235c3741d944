//! Membership of a permissioned validator set.
//!
//! A [`Pallet`] holds the authoritative validator set together with two
//! staging queues and the set of approved validators. Validators are added
//! and removed one at a time by an authorized caller; validators reported
//! offline or disabled after an offence are only staged, and leave the set at
//! the next session boundary. Explicit removals never take the set below the
//! configured minimum, and staged removals do so only where the
//! configuration says that their queue is not checked.
//!
//! The host keeps what the set cannot do itself: it checks origins, talks to
//! the consensus-duty registry, runs hooks and publishes notifications. The
//! operations take the outcome of that work as plain values and say what is
//! to be done next.

pub mod checks;
pub mod laws;
pub mod pallet;
pub mod state;
pub mod types;

pub use crate::pallet::{GenesisConfig, Pallet};
pub use crate::state::State;
pub use crate::types::{
    Authorization, Config, DisableStrategy, Error, Event, MembershipState, NewSession,
    OffenceAction, OffenceEvent, RemovalReason, ValidatorId, ValidatorOf,
};
