//! Custodial ledger half of a two-chain asset bridge.
//!
//! The library is the bridge's state machine: a replay-protected registry of
//! source-chain deposit identifiers, checked mint/burn accounting, and the
//! validation rules for deposits and withdrawal requests. The token ledger
//! itself (supply mutation) and the hosting chain runtime are external
//! collaborators; they are driven by a thin shell outside this crate.

pub mod errors;
pub mod laws;
pub mod ledger;
pub mod records;
pub mod registry;
pub mod state;
pub mod text;
