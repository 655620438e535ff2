//! Lifecycle and verification core of a cross-chain light client: a store of
//! clients with their trusted consensus states, header updates, misbehaviour
//! freezing, commitment-proof checks and governance upgrades.

pub mod error;
pub mod external;
pub mod header;
pub mod height;
pub mod laws;
pub mod state;
pub mod store;
