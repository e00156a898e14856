//! Verified logic of the Akropolis OS node runtime: how transaction fees are
//! divided between the treasury and the block author, the mortality era that
//! a transaction created by the runtime carries, the block fullness ratios,
//! and the runtime's version record.

pub mod benchmarks;
pub mod contracts;
pub mod era;
pub mod fees;
pub mod parameters;
pub mod transaction;
pub mod version;
