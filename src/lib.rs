//! Parameter accumulation and algorithm dispatch for a rhythm-game
//! performance calculator.
//!
//! The library collects optional scoring inputs, validates named inputs,
//! decides which performance algorithm handles a score, states exactly
//! which inputs each algorithm receives, and normalises the result of the
//! legacy-shaped algorithms into one canonical record. The algorithms
//! themselves run outside the library and are handed the plans built here.
pub mod attributes;
pub mod dispatch;
pub mod params;
