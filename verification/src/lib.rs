//! Escrow engine for multiplayer tournament entry fees.
//!
//! The crate custodies pooled buy-in deposits, computes and splits a platform
//! fee ("rake") between the tournament creator and the platform operator, and
//! releases the pool to a declared winner or back to the players on
//! cancellation. The core is the escrow state machine: the record data model,
//! the fund-custody accounting, and the operation set that mutates it under
//! authorization and status guards. Value movement itself and the clock are
//! left to the surrounding substrate: every operation returns the transfers it
//! prescribes, and takes the current time as an argument.

pub mod account;
pub mod admin;
pub mod errors;
pub mod escrow;
pub mod laws;
pub mod math;
pub mod ops;
