//! Conversion strategies between compact identifier and timestamp values and
//! their textual forms, with generic lifting to optional values and sequences
//! and per-field binding inside structured records.

pub mod identifier;
pub mod timestamp;
pub mod strategy;
pub mod wrappers;
pub mod document;
pub mod binding;
pub mod records;
