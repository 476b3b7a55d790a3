//! The delivery outbox: assignments reserved, published and retired.
use vstd::prelude::*;

use crate::equality::Same;
use crate::error::{fault, fault_of, CentralError, CentralErrorCode, CentralResult, Fault};
use crate::identifier::{AgentId, AssignmentId, TenantId};
use crate::ports::{AssignmentPublishOutcome, AssignmentReserveOutcome, AssignmentRetireOutcome};
use crate::protocol::{assignment_identity, identity_of, JobAssignment};
use crate::table::{first_kept, is_walk, select_as, Named, Table};

verus! {

/// A claimed assignment identity and how far its delivery is.
pub struct AssignmentReservation {
    pub assignment: JobAssignment,
    pub published: bool,
    pub retired: bool,
}

/// The name under which an assignment is reserved.
pub open spec fn reservation_name(assignment: JobAssignment) -> (Seq<char>, Seq<char>) {
    (identity_of(assignment).0, identity_of(assignment).2)
}

/// An assignment that waits to be delivered.
pub open spec fn is_deliverable(reservation: AssignmentReservation, agent_id: Seq<char>) -> bool {
    reservation.published && !reservation.retired && identity_of(reservation.assignment).3
        == agent_id
}

/// The answer to an assignment identity that stands for another payload.
pub open spec fn assignment_reused(assignment_id: Seq<char>) -> Fault {
    fault(
        CentralErrorCode::JobIdReused,
        "assignment ID "@ + assignment_id + " was reused with another payload"@,
    )
}

fn assignment_was_reused(assignment_id: &AssignmentId) -> (failure: CentralError)
    ensures
        failure@ == assignment_reused(assignment_id@),
{
    let mut message = String::from_str("assignment ID ");
    message.append(assignment_id.as_str());
    message.append(" was reused with another payload");
    CentralError::new(CentralErrorCode::JobIdReused, message)
}

/// Why an assignment is not made visible. `unreserved` says what an assignment without a
/// reservation is told.
pub open spec fn publish_fault(
    reservations: Map<(Seq<char>, Seq<char>), AssignmentReservation>,
    assignment: JobAssignment,
    unreserved: Seq<char>,
) -> Option<Fault> {
    let name = reservation_name(assignment);
    if !reservations.contains_key(name) {
        Some(
            fault(CentralErrorCode::Internal, "assignment "@ + name.1 + unreserved),
        )
    } else if !reservations[name].assignment.same(assignment) {
        Some(assignment_reused(name.1))
    } else {
        None
    }
}

/// Why an assignment is not retired.
pub open spec fn retire_fault(
    reservations: Map<(Seq<char>, Seq<char>), AssignmentReservation>,
    name: (Seq<char>, Seq<char>),
) -> Option<Fault> {
    if !reservations.contains_key(name) {
        Some(fault(CentralErrorCode::Internal, "assignment "@ + name.1 + " is not reserved"@))
    } else if !reservations[name].published {
        Some(
            fault(CentralErrorCode::InvalidState, "assignment "@ + name.1 + " is not published"@),
        )
    } else {
        None
    }
}

fn assignment_failure(code: CentralErrorCode, assignment_id: &AssignmentId, what: &str) -> (failure:
    CentralError)
    ensures
        failure@ == fault(code, "assignment "@ + assignment_id@ + what@),
{
    let mut message = String::from_str("assignment ");
    message.append(assignment_id.as_str());
    message.append(what);
    CentralError::new(code, message)
}

pub struct InMemoryAssignmentOutbox {
    assignments: Table<(TenantId, AssignmentId), AssignmentReservation>,
}

impl View for InMemoryAssignmentOutbox {
    type V = Map<(Seq<char>, Seq<char>), AssignmentReservation>;

    closed spec fn view(&self) -> Map<(Seq<char>, Seq<char>), AssignmentReservation> {
        self.assignments@
    }
}

impl InMemoryAssignmentOutbox {
    /// The reservations in the order of tenant and assignment.
    pub closed spec fn entries(self) -> Seq<((TenantId, AssignmentId), AssignmentReservation)> {
        self.assignments.entries()
    }

    /// Every assignment is reserved under its own identity, and only a published one is retired.
    pub closed spec fn well_formed(self) -> bool {
        &&& self.assignments.well_formed()
        &&& forall|name: (Seq<char>, Seq<char>)| #[trigger]
            self.assignments@.contains_key(name) ==> {
                &&& reservation_name(self.assignments@[name].assignment) == name
                &&& self.assignments@[name].retired ==> self.assignments@[name].published
            }
    }

    /// Every reservation stands under its own identity, and only a published one is retired.
    pub proof fn lemma_consistent(&self, name: (Seq<char>, Seq<char>))
        requires
            self.well_formed(),
            self@.contains_key(name),
        ensures
            reservation_name(self@[name].assignment) == name,
            self@[name].retired ==> self@[name].published,
    {
    }

    #[must_use]
    pub fn new() -> (outbox: Self)
        ensures
            outbox.well_formed(),
            outbox@ == Map::<(Seq<char>, Seq<char>), AssignmentReservation>::empty(),
    {
        Self { assignments: Table::new() }
    }

    /// Every assignment that was published, retired or not.
    #[must_use]
    pub fn messages(&self) -> (assignments: Vec<JobAssignment>)
        requires
            self.well_formed(),
        ensures
            is_walk(self.entries(), self@),
            assignments@.same(
                first_kept(
                    self.entries(),
                    |entry: ((TenantId, AssignmentId), AssignmentReservation)| entry.1.published,
                    usize::MAX as nat,
                ).map_values(|reservation: AssignmentReservation| reservation.assignment),
            ),
    {
        let ghost kept = |entry: ((TenantId, AssignmentId), AssignmentReservation)|
            entry.1.published;
        let ghost image = |reservation: AssignmentReservation| reservation.assignment;
        let keep = |key: &(TenantId, AssignmentId), reservation: &AssignmentReservation| -> (verdict:
            bool)
            ensures
                verdict == reservation.published,
            { reservation.published };
        let project = |reservation: &AssignmentReservation| -> (copy: JobAssignment)
            ensures
                copy.same(reservation.assignment),
            { reservation.assignment.clone() };
        select_as(&self.assignments, keep, Ghost(kept), project, Ghost(image), usize::MAX)
    }

    /// Claims an assignment identity without exposing it for delivery.
    pub fn reserve(&mut self, assignment: JobAssignment) -> (result: CentralResult<
        AssignmentReserveOutcome,
    >)
        requires
            old(self).well_formed(),
        ensures
            final(self).well_formed(),
            fault_of(result) == if old(self)@.contains_key(reservation_name(assignment)) && !old(
                self,
            )@[reservation_name(assignment)].assignment.same(assignment) {
                Some(assignment_reused(identity_of(assignment).2))
            } else {
                None
            },
            result matches Ok(AssignmentReserveOutcome::Reserved) ==> {
                &&& !old(self)@.contains_key(reservation_name(assignment))
                &&& final(self)@ == old(self)@.insert(
                    reservation_name(assignment),
                    AssignmentReservation { assignment, published: false, retired: false },
                )
            },
            result matches Ok(AssignmentReserveOutcome::Existing) ==> {
                &&& old(self)@.contains_key(reservation_name(assignment))
                &&& final(self)@ == old(self)@
            },
            result is Err ==> final(self)@ == old(self)@,
    {
        let (tenant_id, _, assignment_id, _) = assignment_identity(&assignment);
        let key = (tenant_id.clone(), assignment_id.clone());
        if let Some(existing) = self.assignments.get(&key) {
            if existing.assignment == assignment {
                return Ok(AssignmentReserveOutcome::Existing);
            }
            return Err(assignment_was_reused(assignment_id));
        }
        self.assignments.insert(
            key,
            AssignmentReservation { assignment, published: false, retired: false },
        );
        Ok(AssignmentReserveOutcome::Reserved)
    }

    /// Makes a reserved assignment visible to delivery.
    pub fn publish(&mut self, assignment: JobAssignment) -> (result: CentralResult<
        AssignmentPublishOutcome,
    >)
        requires
            old(self).well_formed(),
        ensures
            final(self).well_formed(),
            fault_of(result) == publish_fault(
                old(self)@,
                assignment,
                " must be reserved before publication"@,
            ),
            result is Err ==> final(self)@ == old(self)@,
            result matches Ok(outcome) ==> {
                let reservation = old(self)@[reservation_name(assignment)];
                &&& outcome is AlreadyPublished <==> reservation.published
                &&& final(self)@ == old(self)@.insert(
                    reservation_name(assignment),
                    AssignmentReservation { published: true, ..reservation },
                )
            },
    {
        let (tenant_id, _, assignment_id, _) = assignment_identity(&assignment);
        let key = (tenant_id.clone(), assignment_id.clone());
        let ghost before = self.assignments@;
        let existing = match self.assignments.get(&key) {
            Some(existing) => existing,
            None => return Err(
                assignment_failure(
                    CentralErrorCode::Internal,
                    assignment_id,
                    " must be reserved before publication",
                ),
            ),
        };
        if existing.assignment != assignment {
            return Err(assignment_was_reused(assignment_id));
        }
        if existing.published {
            assert(before.insert(key.name(), before[key.name()]) =~= before);
            return Ok(AssignmentPublishOutcome::AlreadyPublished);
        }
        if let Some(reservation) = self.assignments.take(&key) {
            let mut reservation = reservation;
            reservation.published = true;
            self.assignments.insert(key, reservation);
        }
        assert(self.assignments@ =~= before.insert(key.name(), self.assignments@[key.name()]));
        Ok(AssignmentPublishOutcome::Published)
    }

    /// Makes a retired assignment visible to delivery again.
    pub fn reactivate(&mut self, assignment: JobAssignment) -> (result: CentralResult<
        AssignmentPublishOutcome,
    >)
        requires
            old(self).well_formed(),
        ensures
            final(self).well_formed(),
            fault_of(result) == publish_fault(
                old(self)@,
                assignment,
                " must be reserved before reactivation"@,
            ),
            result is Err ==> final(self)@ == old(self)@,
            result matches Ok(outcome) ==> {
                let reservation = old(self)@[reservation_name(assignment)];
                &&& outcome is AlreadyPublished <==> reservation.published && !reservation.retired
                &&& final(self)@ == old(self)@.insert(
                    reservation_name(assignment),
                    AssignmentReservation { published: true, retired: false, ..reservation },
                )
            },
    {
        let (tenant_id, _, assignment_id, _) = assignment_identity(&assignment);
        let key = (tenant_id.clone(), assignment_id.clone());
        let ghost before = self.assignments@;
        let existing = match self.assignments.get(&key) {
            Some(existing) => existing,
            None => return Err(
                assignment_failure(
                    CentralErrorCode::Internal,
                    assignment_id,
                    " must be reserved before reactivation",
                ),
            ),
        };
        if existing.assignment != assignment {
            return Err(assignment_was_reused(assignment_id));
        }
        if existing.published && !existing.retired {
            assert(before.insert(key.name(), before[key.name()]) =~= before);
            return Ok(AssignmentPublishOutcome::AlreadyPublished);
        }
        if let Some(reservation) = self.assignments.take(&key) {
            let mut reservation = reservation;
            reservation.published = true;
            reservation.retired = false;
            self.assignments.insert(key, reservation);
        }
        assert(self.assignments@ =~= before.insert(key.name(), self.assignments@[key.name()]));
        Ok(AssignmentPublishOutcome::Published)
    }

    /// Retires a published assignment. Its identity stays claimed.
    pub fn retire(&mut self, tenant_id: &TenantId, assignment_id: &AssignmentId) -> (result:
        CentralResult<AssignmentRetireOutcome>)
        requires
            old(self).well_formed(),
        ensures
            final(self).well_formed(),
            fault_of(result) == retire_fault(old(self)@, (tenant_id@, assignment_id@)),
            result is Err ==> final(self)@ == old(self)@,
            result matches Ok(outcome) ==> {
                let reservation = old(self)@[(tenant_id@, assignment_id@)];
                &&& outcome is AlreadyRetired <==> reservation.retired
                &&& final(self)@ == old(self)@.insert(
                    (tenant_id@, assignment_id@),
                    AssignmentReservation { retired: true, ..reservation },
                )
            },
    {
        let key = (tenant_id.clone(), assignment_id.clone());
        let ghost before = self.assignments@;
        let reservation = match self.assignments.get(&key) {
            Some(reservation) => reservation,
            None => return Err(
                assignment_failure(CentralErrorCode::Internal, assignment_id, " is not reserved"),
            ),
        };
        if !reservation.published {
            return Err(
                assignment_failure(
                    CentralErrorCode::InvalidState,
                    assignment_id,
                    " is not published",
                ),
            );
        }
        if reservation.retired {
            assert(before.insert(key.name(), before[key.name()]) =~= before);
            return Ok(AssignmentRetireOutcome::AlreadyRetired);
        }
        if let Some(reservation) = self.assignments.take(&key) {
            let mut reservation = reservation;
            reservation.retired = true;
            self.assignments.insert(key, reservation);
        }
        assert(self.assignments@ =~= before.insert(key.name(), self.assignments@[key.name()]));
        Ok(AssignmentRetireOutcome::Retired)
    }

    /// The first `limit` assignments that wait to be delivered to an Agent.
    #[must_use]
    pub fn pending_for_agent(&self, agent_id: &AgentId, limit: usize) -> (assignments: Vec<
        JobAssignment,
    >)
        requires
            self.well_formed(),
        ensures
            is_walk(self.entries(), self@),
            assignments@.same(
                first_kept(
                    self.entries(),
                    |entry: ((TenantId, AssignmentId), AssignmentReservation)|
                        is_deliverable(entry.1, agent_id@),
                    limit as nat,
                ).map_values(|reservation: AssignmentReservation| reservation.assignment),
            ),
    {
        let ghost kept = |entry: ((TenantId, AssignmentId), AssignmentReservation)|
            is_deliverable(entry.1, agent_id@);
        let ghost image = |reservation: AssignmentReservation| reservation.assignment;
        let keep = |key: &(TenantId, AssignmentId), reservation: &AssignmentReservation| -> (verdict:
            bool)
            ensures
                verdict == is_deliverable(*reservation, agent_id@),
            {
                reservation.published && !reservation.retired && *assignment_identity(
                    &reservation.assignment,
                ).3 == *agent_id
            };
        let project = |reservation: &AssignmentReservation| -> (copy: JobAssignment)
            ensures
                copy.same(reservation.assignment),
            { reservation.assignment.clone() };
        select_as(&self.assignments, keep, Ghost(kept), project, Ghost(image), limit)
    }
}

} // verus!
