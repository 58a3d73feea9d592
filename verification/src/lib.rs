//! Live host metrics for remote observers: the readings taken from the host,
//! the payload built from them, and the per-observer session that decides
//! when to sample and when to stop.

pub mod encoder;
pub mod provider;
pub mod reading;
pub mod session;
