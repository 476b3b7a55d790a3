//! The managed Add state machine: what each request does to a job.
pub mod assign;
pub mod create;
pub mod expiry;
pub mod finalize;
pub mod laws;
pub mod message;
pub mod report;
pub mod staging;
