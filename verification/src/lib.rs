//! A single-investor custodial vault: role-guarded ledger operations and a
//! swap protocol that settles trades against an external venue.

pub mod address;
pub mod byreal;
pub mod error;
pub mod events;
pub mod laws;
pub mod ledger;
pub mod solana;
pub mod state;
pub mod trade;
pub mod vault;
