//! # carbon_escrow
//!
//! Escrow contract for carbon credit trades on Stellar / Soroban.
//!
//! ## Lifecycle
//!
//! ```text
//! Buyer calls create_escrow()
//!   -> Locks USDC from buyer into escrow account
//!   -> Records expected credit batch_id and amount
//!   -> Status: Active
//!
//! Seller calls confirm_escrow() (after transferring credits)
//!   -> Records seller confirmation
//!   -> Status: SellerConfirmed
//!
//! Buyer calls confirm_escrow() (after verifying credits arrived)
//!   -> Releases locked USDC to seller
//!   -> Status: Released
//!
//! If timeout elapses before mutual confirmation:
//!   Either party calls refund_escrow()
//!   -> Returns USDC to buyer
//!   -> Status: Refunded
//!
//! Admin may call cancel_escrow() to force-refund in dispute cases.
//! ```
//!
//! ## How it is laid out
//!
//! A call of [`contract::CarbonEscrowContract`] decides on an [`host::Env`] of
//! plain values and appends to it, in order, what the host has to do: ask for
//! authorization, store, transfer, publish. The contracts of the calls are
//! stated over [`rules`]. What each call comes to is proved of the rules in
//! [`outcomes`], and what follows for the contract as a whole in [`laws`] and, as
//! far as money is concerned, in [`custody`].
pub mod contract;
pub mod custody;
pub mod error;
pub mod events;
pub mod host;
pub mod laws;
pub mod outcomes;
pub mod requests;
pub mod rules;
pub mod types;

pub use contract::CarbonEscrowContract;
pub use error::EscrowError;
pub use events::{
    EscrowConfirmedEvent, EscrowCreatedEvent, EscrowRefundedEvent, EscrowReleasedEvent, Event,
};
pub use host::{Env, HostCall, Storage};
pub use types::{Address, DataKey, EscrowRecord, EscrowStatus, DEFAULT_TIMEOUT_SECS};
