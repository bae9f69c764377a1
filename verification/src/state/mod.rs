//! The three records that the market keeps: the market itself, its
//! encrypted pool and one position per bettor.

pub mod market;
pub mod pool;
pub mod position;
