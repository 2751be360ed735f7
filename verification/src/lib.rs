//! Verified core of the selector engine: case and knowledge bookkeeping,
//! unit-conversion selection, safety-factor checks and the module registry.
pub mod common;
pub mod models;
pub mod text;
pub mod units;
pub mod safety_factor;
pub mod registry;
pub mod cases;
mod clock;
pub mod knowledge;
pub mod db;
