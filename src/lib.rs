//! Win/loss statistics of gunfight games: a lifetime scope over every recorded game and a
//! scope for one reference day, each with totals, streaks, high-water marks and a per-map
//! breakdown.

pub mod error;
pub mod laws;
pub mod map;
pub mod model;
pub mod record;
pub mod stats;
