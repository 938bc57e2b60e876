//! A bounty marketplace engine: clients fund tasks into escrow, agents compete
//! by submitting work, and the client pays one winner net of a platform fee.
//!
//! Every operation is a transition on plain account records. Operations that
//! move funds return the transfers that the ledger must carry out together with
//! the record update, and the escrow record accounts for each of them.

pub mod error;
pub mod identity;
pub mod events;
pub mod fees;
pub mod state;
pub mod lifecycle;
pub mod registry;
pub mod negotiation;
pub mod market;
pub mod laws;
