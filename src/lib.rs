//! A per-account message slot: an account stores a short message under its own
//! identity and may hand it over to another account.

pub mod laws;
pub mod pallet;
pub mod types;

pub use pallet::Pallet;
pub use types::{ensure_signed, AccountId, Error, Event, EventView, Origin, MAX_MESSAGE_LEN};
