//! Per-player, per-frame time series of car-component mechanics.
//!
//! A replay decoder (outside this crate) produces, for each frame, a set of
//! actor updates: maps from attribute name to a tagged value. This library
//! resolves each update to a stable player identity, decodes the attributes
//! a mechanic cares about into a typed snapshot record, and stores that
//! record in a sparse per-player, per-frame time series. One handler exists
//! per tracked mechanic: dodges, double jumps, car flips and jumps.

pub mod assoc;
pub mod attributes;
pub mod decode;
pub mod dodge;
pub mod double_jump;
pub mod flip_car;
pub mod handler;
pub mod identity;
pub mod jump;
pub mod laws;
pub mod series;
