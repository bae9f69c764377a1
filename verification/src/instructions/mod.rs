//! The operations of the market. Each checks, then changes the accounts it
//! was given and reports what happened; a refusal changes nothing.

pub mod market;
pub mod betting;
pub mod settlement;
