//! Coarse health scoring for a single host.
//!
//! Raw readings (a percentage where higher is better, or a temperature in
//! whole degrees) are classified into one of six ordinal levels, and a set of
//! levels is combined into one by the integer mean of their ranks.

pub mod error;
pub mod laws;
pub mod memory;
pub mod report;
pub mod score;
