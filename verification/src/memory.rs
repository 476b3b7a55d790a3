//! Authority stores that live in memory.
pub mod audit;
pub mod authorizer;
pub mod clock;
pub mod gateway;
pub mod jobs;
pub mod laws;
pub mod objects;
pub mod outbox;
pub mod precommit;
pub mod publisher;
pub mod stager;
