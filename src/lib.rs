//! A two-party escrow: a provider opens a record, a renter funds it, and the
//! record ends either released to the provider or refunded to the renter.
//!
//! Records live in a store keyed by the provider's identity. Each record also
//! has an address derived from the provider's identity; every transition on an
//! existing record checks that the address the caller names is that one.
pub mod directory;
pub mod identity;
pub mod instructions;
pub mod laws;
pub mod store;

pub use directory::escrow_address;
pub use identity::Identity;
pub use instructions::{
    execute, fund, fund_at, initialize, refund, refund_at, release, release_at, Action,
    EscrowError, Fund, Initialize, Refund, Release,
};
pub use store::{Escrow, EscrowStore, FUNDED, REFUNDED, RELEASED, UNINITIALIZED};
