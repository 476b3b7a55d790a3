//! Outcomes that the authority stores report, and what a store backend can promise.
use vstd::prelude::*;

use crate::model::JobRecord;

verus! {

/// Result of atomically inserting a job or loading the record already stored at its key.
pub enum JobInsertOutcome {
    Inserted(JobRecord),
    Existing(JobRecord),
}

/// Result of durably reserving an AssignmentId in the delivery outbox.
#[derive(Debug, Clone, Copy, PartialEq, Eq, Structural)]
pub enum AssignmentReserveOutcome {
    Reserved,
    Existing,
}

/// Result of making a reserved assignment visible to delivery workers.
#[derive(Debug, Clone, Copy, PartialEq, Eq, Structural)]
pub enum AssignmentPublishOutcome {
    Published,
    AlreadyPublished,
}

/// Result of durably retiring an assignment after the authoritative Job accepted it.
#[derive(Debug, Clone, Copy, PartialEq, Eq, Structural)]
pub enum AssignmentRetireOutcome {
    Retired,
    AlreadyRetired,
}

/// What a store backend promises.
#[derive(Debug, Clone, Copy, PartialEq, Eq, Structural)]
pub struct AuthorityCapabilities {
    pub single_process: bool,
    pub database_enforced_tenant_isolation: bool,
    pub high_availability: bool,
    /// True when every enrollment decision and its immutable audit event share one CAS write.
    pub atomic_agent_registry_audit: bool,
}

impl AuthorityCapabilities {
    /// What the in-memory stores promise.
    #[must_use]
    pub fn in_memory() -> (capabilities: Self)
        ensures
            capabilities.single_process,
            !capabilities.database_enforced_tenant_isolation,
            !capabilities.high_availability,
            capabilities.atomic_agent_registry_audit,
    {
        Self {
            single_process: true,
            database_enforced_tenant_isolation: false,
            high_availability: false,
            atomic_agent_registry_audit: true,
        }
    }

    /// What the SQLite stores promise.
    #[must_use]
    pub fn sqlite() -> (capabilities: Self)
        ensures
            capabilities.single_process,
            !capabilities.database_enforced_tenant_isolation,
            !capabilities.high_availability,
            capabilities.atomic_agent_registry_audit,
    {
        Self {
            single_process: true,
            database_enforced_tenant_isolation: false,
            high_availability: false,
            atomic_agent_registry_audit: true,
        }
    }
}

} // verus!
