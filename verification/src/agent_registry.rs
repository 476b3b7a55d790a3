//! Agent enrollment, identity, mount and one-Volume ownership.
pub mod audit;
pub mod bootstrap;
pub mod conflict;
pub mod decision;
pub mod intent;
pub mod laws;
pub mod lifecycle;
pub mod records;
pub mod repository;
pub mod session;
pub mod transition;
pub mod validation;
