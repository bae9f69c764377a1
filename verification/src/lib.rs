//! A binary-outcome prediction market whose bets stay confidential until
//! settlement: the settlement arithmetic, the market and position life
//! cycles, and the request/callback protocol with the compute cluster.

pub mod accounts;
pub mod arguments;
pub mod circuits;
pub mod constants;
pub mod errors;
pub mod events;
pub mod instructions;
pub mod keys;
pub mod laws;
pub mod outputs;
pub mod state;
