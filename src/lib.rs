//! A per-account era and badge tracker that gates a one-time completion reward.
//!
//! Each account starts an era of a chosen length in block heights, claims a badge
//! whenever its era has elapsed, and after nine badges may mint a completion token
//! from an outside issuer. The issuer's answers reach the engine as plain values.
use vstd::prelude::*;

pub mod types;
pub mod engine;
pub mod laws;

pub use types::{AccountId, BadgeClaimed, EraStarted, Error, NFTClaimed, Profile};
pub use engine::Magink;
