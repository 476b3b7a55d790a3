//! Transport- and storage-independent control plane for a managed artifact index.
//!
//! The crate owns the rules: the lifecycle of Agent enrollments and managed Add jobs, the
//! in-memory authority stores, the catalog, and the decisions that a storage adapter takes. It
//! performs no I/O. Whatever needs a clock, a hash or a database hands its result in as a plain
//! value.
use vstd::prelude::*;

pub mod agent_registry;
pub mod catalog;
pub mod control_plane;
pub mod digest;
pub mod equality;
pub mod error;
pub mod gateway;
pub mod identifier;
pub mod laws;
pub mod memory;
pub mod model;
pub mod ports;
pub mod precommit;
pub mod protocol;
pub mod publication;
pub mod storage;
pub mod table;
pub mod text;
pub mod text_set;

verus! {

} // verus!
