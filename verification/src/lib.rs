//! Token reward policy and computation engine.
//!
//! The crate assembles a validated reward policy from two already-parsed
//! configuration documents, clamps it to hard fairness bounds, and computes
//! a capped daily token award from a day's observed activity. All token
//! amounts, rates and masses are exact fixed-point integers in hundredths
//! of a unit, so every computation is reproducible and free of rounding
//! surprises.

pub mod dashboard;
pub mod digits;
pub mod loader;
pub mod policy;
pub mod rewards;
pub mod system_profile;
