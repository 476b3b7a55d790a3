//! What the operations of the library promise their callers, stated of what goes in and what comes
//! out: which requests are accepted, which are refused, and what is stored and answered then.

pub mod authority_rows;
pub mod catalog;
pub mod catalog_changes;
pub mod catalog_rows;
pub mod codec;
pub mod databases;
pub mod decisions;
pub mod enrollment;
pub mod enrollment_lists;
pub mod equal_jobs;
pub mod equal_records;
pub mod expiry;
pub mod gateway;
pub mod index;
pub mod jobs;
pub mod listing;
pub mod names;
pub mod precommit;
pub mod publisher;
pub mod questions;
pub mod registry;
pub mod registry_rows;
pub mod schemas;
pub mod session_routes;
pub mod sessions;
pub mod stores;
pub mod texts;
pub mod transitions;
pub mod validity;
pub mod values;
