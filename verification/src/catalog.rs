//! The control catalog: who has what, and where it is placed.
pub mod laws;
pub mod listing;
pub mod memory;
pub mod records;
pub mod rules;
