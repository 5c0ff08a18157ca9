//! Token streams: a sender locks a deposit, and a recipient draws it down as
//! time passes.
//!
//! [`state::FluxoraStream`] is the contract. Every operation takes the
//! circumstances of the call, returns a result, and leaves in the contract what
//! is to be done outside: tokens to move and events to publish. Its model is
//! [`state::ContractState`], over which the contracts of the operations speak.

pub mod accrual;
pub mod admin;
pub mod autoclaim;
pub mod batch;
pub mod bulk;
pub mod creation;
pub mod delegated;
pub mod events;
pub mod index;
pub mod laws;
pub mod lifecycle;
pub mod offers;
pub mod operations;
mod ops;
pub mod rates;
pub mod recipients;
pub mod registry;
pub mod renewal;
pub mod reservations;
pub mod state;
pub mod table;
pub mod templates;
pub mod types;
pub mod views;
pub mod withdrawal;

pub use ops::save_stream;
