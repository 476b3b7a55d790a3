//! Identities and the scalar values that go with them.
use vstd::prelude::*;

use crate::equality::Same;
use crate::text::{text_before, text_equals, text_is_before};

verus! {

/// An opaque text that is compared and ordered, never interpreted.
#[derive(Debug, Eq)]
pub struct Identifier {
    text: String,
}

pub type TenantId = Identifier;

pub type ProjectId = Identifier;

pub type ArtifactId = Identifier;

pub type PlaygroundId = Identifier;

pub type SnapshotId = Identifier;

pub type StorageVolumeId = Identifier;

pub type EdgeClusterId = Identifier;

pub type JobId = Identifier;

pub type AssignmentId = Identifier;

pub type ArtifactPlacementId = Identifier;

pub type MetadataBatchId = Identifier;

pub type RequestId = Identifier;

pub type PreCommitId = Identifier;

pub type ReceiptId = Identifier;

pub type AgentId = Identifier;

pub type AgentMountId = Identifier;

pub type AgentBootId = Identifier;

pub type AgentInstallationId = Identifier;

pub type AgentEnrollmentId = Identifier;

pub type AgentEnrollmentTokenId = Identifier;

pub type SessionId = Identifier;

pub type VolumeMarkerId = Identifier;

pub type LogicalPath = Identifier;

pub type PrincipalRef = Identifier;

pub type EventId = Identifier;

/// The stable code of a failure on the wire.
pub type ErrorCode = Identifier;

/// A text that the control plane carries and compares.
pub type OpaqueText = Identifier;

/// Unknown members of a message, retained verbatim as canonical text.
pub type Extensions = Identifier;

pub type ProtocolVersion = u32;

/// Milliseconds since the Unix epoch.
pub type UnixMillis = u64;

/// The version of a stored aggregate; every write advances it by one.
pub type ResourceVersion = u64;

pub type MountGeneration = u64;

pub type OwnerGeneration = u64;

pub type PlacementGeneration = u64;

pub type AssignmentGeneration = u64;

pub type DecisionGeneration = u64;

pub type IndexRevision = u64;

pub type SessionGeneration = u64;

pub type SequenceNumber = u64;

impl View for Identifier {
    type V = Seq<char>;

    closed spec fn view(&self) -> Seq<char> {
        self.text@
    }
}

impl Identifier {
    #[must_use]
    pub fn new(text: String) -> (id: Self)
        ensures
            id@ == text@,
    {
        Self { text }
    }

    #[must_use]
    pub fn as_str(&self) -> (text: &str)
        ensures
            text@ == self@,
    {
        self.text.as_str()
    }

    /// Tells whether this identity comes strictly before another one.
    #[must_use]
    pub fn is_before(&self, other: &Self) -> (before: bool)
        ensures
            before == text_before(self@, other@),
    {
        text_is_before(self.text.as_str(), other.text.as_str())
    }
}

/// An optional identity that is present and has the given text.
pub open spec fn names(option: Option<Identifier>, text: Seq<char>) -> bool {
    match option {
        Some(id) => id@ == text,
        None => false,
    }
}

/// No unknown members.
pub(crate) fn no_extensions() -> (extensions: Extensions)
    ensures
        extensions@.len() == 0,
{
    Identifier::new(String::new())
}

/// Tells whether an optional identity is present and equals another one.
pub(crate) fn is_named(option: &Option<Identifier>, id: &Identifier) -> (named: bool)
    ensures
        named == names(*option, id@),
{
    match option {
        Some(present) => *present == *id,
        None => false,
    }
}

impl Clone for Identifier {
    fn clone(&self) -> (copy: Self)
        ensures
            copy == *self,
    {
        Self { text: self.text.clone() }
    }
}

impl PartialEq for Identifier {
    fn eq(&self, other: &Self) -> (equal: bool) {
        text_equals(self.text.as_str(), other.text.as_str())
    }
}

impl Same for Identifier {
    open spec fn same(self, other: Self) -> bool {
        self@ == other@
    }
}

impl vstd::std_specs::cmp::PartialEqSpecImpl for Identifier {
    open spec fn obeys_eq_spec() -> bool {
        true
    }

    open spec fn eq_spec(&self, other: &Self) -> bool {
        self.same(*other)
    }
}

} // verus!
