//! Audit events: recorded once, replayed as often as needed.
use vstd::prelude::*;

use crate::agent_registry::records::AgentEnrollmentAuditEvent;
use crate::equality::Same;
use crate::error::{fault, fault_of, CentralError, CentralErrorCode, CentralResult, Fault};
use crate::identifier::{EventId, Identifier, TenantId};
use crate::model::AuditEvent;
use crate::table::{is_walk, Named, Replicate, Table};

verus! {

/// The name under which a job event is recorded.
pub open spec fn event_name(event: AuditEvent) -> (Seq<char>, Seq<char>) {
    (event.job_key.tenant_id@, event.event_id@)
}

/// Two records of one job event; when it happened is not compared.
pub open spec fn is_same_event(left: AuditEvent, right: AuditEvent) -> bool {
    left.kind == right.kind && left.job_key.same(right.job_key) && left.state == right.state
}

/// The name under which an enrollment decision is recorded.
pub open spec fn enrollment_event_name(event: AgentEnrollmentAuditEvent) -> (
    Seq<char>,
    Seq<char>,
) {
    (event.tenant_id@, event.event_id@)
}

/// Two records of one enrollment decision; when it happened is not compared.
pub open spec fn is_same_enrollment_event(
    left: AgentEnrollmentAuditEvent,
    right: AgentEnrollmentAuditEvent,
) -> bool {
    &&& left.kind == right.kind
    &&& left.enrollment_id@ == right.enrollment_id@
    &&& left.storage_volume_id@ == right.storage_volume_id@
    &&& left.decision_request_id@ == right.decision_request_id@
    &&& left.resource_version == right.resource_version
    &&& left.actor@ == right.actor@
}

/// The answer to an event identity that stands for another event.
pub open spec fn event_reused(event_id: Seq<char>) -> Fault {
    fault(CentralErrorCode::Internal, "audit event ID "@ + event_id + " was reused"@)
}

/// The answer to an enrollment event identity that stands for another event.
pub open spec fn enrollment_event_reused(event_id: Seq<char>) -> Fault {
    fault(CentralErrorCode::Internal, "enrollment audit event ID "@ + event_id + " was reused"@)
}

/// Accepts the replay of a recorded event and refuses another one under its identity.
pub fn resolve_existing_event(existing: &AuditEvent, event: &AuditEvent) -> (result: CentralResult<
    (),
>)
    ensures
        fault_of(result) == if is_same_event(*existing, *event) {
            None
        } else {
            Some(event_reused(event.event_id@))
        },
{
    if existing.kind == event.kind && existing.job_key == event.job_key && existing.state
        == event.state {
        return Ok(());
    }
    let mut message = String::from_str("audit event ID ");
    message.append(event.event_id.as_str());
    message.append(" was reused");
    Err(CentralError::new(CentralErrorCode::Internal, message))
}

/// Accepts the replay of a recorded decision and refuses another one under its identity.
pub fn resolve_existing_enrollment_event(
    existing: &AgentEnrollmentAuditEvent,
    event: &AgentEnrollmentAuditEvent,
) -> (result: CentralResult<()>)
    ensures
        fault_of(result) == if is_same_enrollment_event(*existing, *event) {
            None
        } else {
            Some(enrollment_event_reused(event.event_id@))
        },
{
    if existing.kind == event.kind && existing.enrollment_id == event.enrollment_id
        && existing.storage_volume_id == event.storage_volume_id && existing.decision_request_id
        == event.decision_request_id && existing.resource_version == event.resource_version
        && existing.actor == event.actor {
        return Ok(());
    }
    let mut message = String::from_str("enrollment audit event ID ");
    message.append(event.event_id.as_str());
    message.append(" was reused");
    Err(CentralError::new(CentralErrorCode::Internal, message))
}

pub struct InMemoryAuditSink {
    events: Table<(TenantId, EventId), AuditEvent>,
    enrollment_events: Table<(TenantId, EventId), AgentEnrollmentAuditEvent>,
}

impl InMemoryAuditSink {
    /// The job events by tenant and identity.
    pub closed spec fn job_events(self) -> Map<(Seq<char>, Seq<char>), AuditEvent> {
        self.events@
    }

    /// The enrollment decisions by tenant and identity.
    pub closed spec fn decisions(self) -> Map<(Seq<char>, Seq<char>), AgentEnrollmentAuditEvent> {
        self.enrollment_events@
    }

    /// The job events in order.
    pub closed spec fn job_event_entries(self) -> Seq<((TenantId, EventId), AuditEvent)> {
        self.events.entries()
    }

    /// The enrollment decisions in order.
    pub closed spec fn decision_entries(self) -> Seq<
        ((TenantId, EventId), AgentEnrollmentAuditEvent),
    > {
        self.enrollment_events.entries()
    }

    /// Every event is recorded under its own identity.
    pub closed spec fn well_formed(self) -> bool {
        &&& self.events.well_formed()
        &&& self.enrollment_events.well_formed()
        &&& forall|name: (Seq<char>, Seq<char>)| #[trigger]
            self.events@.contains_key(name) ==> event_name(self.events@[name]) == name
        &&& forall|name: (Seq<char>, Seq<char>)| #[trigger]
            self.enrollment_events@.contains_key(name) ==> enrollment_event_name(
                self.enrollment_events@[name],
            ) == name
    }

    #[must_use]
    pub fn new() -> (sink: Self)
        ensures
            sink.well_formed(),
            sink.job_events() == Map::<(Seq<char>, Seq<char>), AuditEvent>::empty(),
            sink.decisions() == Map::<(Seq<char>, Seq<char>), AgentEnrollmentAuditEvent>::empty(),
    {
        Self { events: Table::new(), enrollment_events: Table::new() }
    }

    /// Every job event, in order.
    #[must_use]
    pub fn events(&self) -> (events: Vec<AuditEvent>)
        requires
            self.well_formed(),
        ensures
            is_walk(self.job_event_entries(), self.job_events()),
            events@ == self.job_event_entries().map_values(
                |entry: ((TenantId, EventId), AuditEvent)| entry.1,
            ),
    {
        let mut events: Vec<AuditEvent> = Vec::new();
        let mut index: usize = 0;
        while index < self.events.len()
            invariant
                index <= self.job_event_entries().len(),
                events@ == self.job_event_entries().take(index as int).map_values(
                    |entry: ((TenantId, EventId), AuditEvent)| entry.1,
                ),
            decreases self.job_event_entries().len() - index,
        {
            events.push(self.events.entry_at(index).1.clone());
            index += 1;
        }
        assert(self.job_event_entries().take(index as int) =~= self.job_event_entries());
        events
    }

    /// Every enrollment decision, in order.
    #[must_use]
    pub fn enrollment_events(&self) -> (events: Vec<AgentEnrollmentAuditEvent>)
        requires
            self.well_formed(),
        ensures
            is_walk(self.decision_entries(), self.decisions()),
            events@ == self.decision_entries().map_values(
                |entry: ((TenantId, EventId), AgentEnrollmentAuditEvent)| entry.1,
            ),
    {
        let mut events: Vec<AgentEnrollmentAuditEvent> = Vec::new();
        let mut index: usize = 0;
        while index < self.enrollment_events.len()
            invariant
                index <= self.decision_entries().len(),
                events@ == self.decision_entries().take(index as int).map_values(
                    |entry: ((TenantId, EventId), AgentEnrollmentAuditEvent)| entry.1,
                ),
            decreases self.decision_entries().len() - index,
        {
            events.push(self.enrollment_events.entry_at(index).1.clone());
            index += 1;
        }
        assert(self.decision_entries().take(index as int) =~= self.decision_entries());
        events
    }

    /// Records a job event; tells whether it was recorded before. A replay keeps the first one.
    pub fn record(&mut self, event: AuditEvent) -> (result: CentralResult<bool>)
        requires
            old(self).well_formed(),
        ensures
            final(self).well_formed(),
            final(self).decisions() == old(self).decisions(),
            fault_of(result) == if old(self).job_events().contains_key(event_name(event))
                && !is_same_event(old(self).job_events()[event_name(event)], event) {
                Some(event_reused(event.event_id@))
            } else {
                None
            },
            result matches Ok(replayed) ==> replayed == old(self).job_events().contains_key(
                event_name(event),
            ),
            final(self).job_events() == if result == Ok::<bool, CentralError>(false) {
                old(self).job_events().insert(event_name(event), event)
            } else {
                old(self).job_events()
            },
    {
        let key = (event.job_key.tenant_id.clone(), Identifier::new(event.event_id.clone()));
        if let Some(existing) = self.events.get(&key) {
            resolve_existing_event(existing, &event)?;
            return Ok(true);
        }
        self.events.insert(key, event);
        Ok(false)
    }

    /// Records an enrollment decision; tells whether it was recorded before.
    pub fn record_enrollment_decision(&mut self, event: AgentEnrollmentAuditEvent) -> (result:
        CentralResult<bool>)
        requires
            old(self).well_formed(),
        ensures
            final(self).well_formed(),
            final(self).job_events() == old(self).job_events(),
            fault_of(result) == if old(self).decisions().contains_key(enrollment_event_name(event))
                && !is_same_enrollment_event(
                old(self).decisions()[enrollment_event_name(event)],
                event,
            ) {
                Some(enrollment_event_reused(event.event_id@))
            } else {
                None
            },
            result matches Ok(replayed) ==> replayed == old(self).decisions().contains_key(
                enrollment_event_name(event),
            ),
            final(self).decisions() == if result == Ok::<bool, CentralError>(false) {
                old(self).decisions().insert(enrollment_event_name(event), event)
            } else {
                old(self).decisions()
            },
    {
        let key = (event.tenant_id.clone(), event.event_id.clone());
        if let Some(existing) = self.enrollment_events.get(&key) {
            resolve_existing_enrollment_event(existing, &event)?;
            return Ok(true);
        }
        self.enrollment_events.insert(key, event);
        Ok(false)
    }
}

} // verus!
