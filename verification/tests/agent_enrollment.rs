use neoengramd::agent_registry::audit::{
    enrollment_audit_events, enrollment_lifecycle_audit_events, merge_enrollment_audit_events,
};
use neoengramd::agent_registry::bootstrap::{
    admit_bootstrap, admit_bootstrap_status, apply_bootstrap, bootstrap_accepted,
    bootstrap_candidate, bootstrap_status_response, conclude_bootstrap,
    conclude_status_watermark, conclude_token_expiry, identify_bootstrap_status,
    verify_bootstrap_credential, AgentBootstrapRequest, AgentBootstrapStatusRequest,
    AgentBootstrapStatusState, BootstrapAdmission, BootstrapIdentityOwners, BootstrapStep,
};
use neoengramd::agent_registry::conflict::{
    pvc_binding_role, registry_update_error, PvcBindingRole,
};
use neoengramd::agent_registry::decision::{
    decide_enrollment, enrollment_review_expired, EnrollmentDecisionStep,
};
use neoengramd::agent_registry::intent::{
    plan_token_intent, replay_token_intent, AgentEnrollmentTokenCreateRequest,
    AgentRegistryInsertOutcome, PvcVolumeBinding, StorageIntentMetadata,
};
use neoengramd::agent_registry::records::{
    AgentBootstrapProbe, AgentCandidateRecord, AgentCredentialEvidence,
    AgentEnrollmentApprovalRequest, AgentEnrollmentAuditKind, AgentEnrollmentDecision,
    AgentEnrollmentLifecycleAuditKind, AgentEnrollmentState, AgentRegistryRecord,
    AgentSignatureAlgorithm, BootstrapTokenMetadata, DerivedVolumeState, Ed25519PublicKeySpki,
    FrozenPvcReference, FrozenStorageDescriptor, MountAccessMode, ResourceHealth,
    StorageEnrollmentAccessMode, StorageEnrollmentMetadata, StorageEnrollmentState,
    VolumeOwnerState, AGENT_ENROLLMENT_REVIEW_WINDOW_MS,
};
use neoengramd::agent_registry::repository::{InMemoryAgentRegistry, RegistryEntry};
use neoengramd::agent_registry::session::{
    authenticate_agent_action, close_session, complete_recovery, expire_enrollment, open_session,
    query_enrollment, report_mount, session_id_of, volume_state, AgentActionFence,
    AgentMountStatusReport, CloseAgentSessionRequest, CompleteVolumeRecoveryRequest,
    ExpireAgentEnrollmentRequest, MountReportStep, OpenAgentSessionRequest, OpenSessionStep,
};
use neoengramd::agent_registry::validation::{
    validate_bootstrap_probe, validate_credential_evidence, validate_frozen_descriptor,
    validate_registry_insert, validate_registry_record, validate_rejection_reason,
    validate_token_key_id, AgentEnrollmentListRequest,
};
use neoengramd::digest::ContentDigest;
use neoengramd::error::{CentralError, CentralErrorCode, CentralResult};
use neoengramd::gateway::{
    AgentRouteLease, AgentRouteLeaseAcquireOutcome, GatewayCredential, GatewayCredentialState,
    GatewayPoolRecord, GatewayPoolState, GatewayReplicaRecord, GatewayReplicaState,
};
use neoengramd::identifier::Identifier;
use neoengramd::memory::gateway::{AcquireAgentSessionRouteRequest, InMemoryGatewayRegistry};

const TIMEOUT: u64 = 100;

fn id(text: &str) -> Identifier {
    Identifier::new(text.to_owned())
}

fn digest(byte: u8) -> ContentDigest {
    ContentDigest::from_bytes([byte; 32])
}

fn code<T>(result: CentralResult<T>) -> CentralErrorCode {
    match result {
        Ok(_) => panic!("expected a failure"),
        Err(error) => error.code(),
    }
}

fn ok<T>(result: CentralResult<T>) -> T {
    match result {
        Ok(value) => value,
        Err(error) => panic!("{}", error.display()),
    }
}

fn token_request(number: u8) -> AgentEnrollmentTokenCreateRequest {
    AgentEnrollmentTokenCreateRequest {
        token_id: id(&format!("token-{number}")),
        token_request_id: id(&format!("token-request-{number}")),
        enrollment_id: id(&format!("enrollment-{number}")),
        tenant_id: id("tenant-1"),
        edge_cluster_id: id("cluster-1"),
        storage_volume_id: id("volume-1"),
        volume_descriptor_digest: digest(50),
        pvc_identity_digest: digest(51),
        agent_id: id(&format!("agent-{number}")),
        agent_mount_id: id(&format!("mount-{number}")),
        bootstrap_token_digest: digest(number),
        created_at_unix_ms: 10,
        expires_at_unix_ms: 1_000,
        expected_volume_marker: id("volume-1"),
        desired_access_mode: MountAccessMode::ReadWrite,
        extensions: id(""),
    }
}

fn metadata() -> Option<StorageIntentMetadata> {
    Some(StorageIntentMetadata {
        descriptor: FrozenStorageDescriptor {
            display_name: "Training data".to_owned(),
            region: "eu-1".to_owned(),
            access_mode: StorageEnrollmentAccessMode::ReadWriteMany,
            pvc_reference: FrozenPvcReference {
                namespace: "ns".to_owned(),
                claim_name: "claim".to_owned(),
            },
        },
        token: BootstrapTokenMetadata {
            key_id: "key-1".to_owned(),
        },
    })
}

fn intent(number: u8, current: Option<AgentRegistryRecord>) -> AgentRegistryRecord {
    ok(plan_token_intent(
        token_request(number),
        &metadata(),
        &None,
        &current,
    ))
}

fn probe() -> AgentBootstrapProbe {
    AgentBootstrapProbe {
        mount_identity_digest: digest(60),
        observed_volume_marker: Some(id("volume-1")),
        marker_matches: true,
        mount_boundary_detected: true,
        access_mode: Some(MountAccessMode::ReadWrite),
        rename_supported: true,
        fsync_supported: true,
        health: ResourceHealth::Ready,
    }
}

fn bootstrap_request(number: u8) -> AgentBootstrapRequest {
    AgentBootstrapRequest {
        tenant_id: id("tenant-1"),
        edge_cluster_id: id("cluster-1"),
        storage_volume_id: id("volume-1"),
        volume_descriptor_digest: digest(50),
        bootstrap_request_id: id(&format!("bootstrap-{number}")),
        installation_id: id(&format!("installation-{number}")),
        public_key_fingerprint: digest(70 + number),
        bootstrap_token_digest: digest(number),
        signed_payload_digest: digest(90 + number),
        agent_version: id("1.0"),
        supported_protocol_versions: vec![1, 2],
        capabilities: vec![id("mount"), id("add"), id("mount")],
        probe: probe(),
    }
}

fn evidence(number: u8) -> AgentCredentialEvidence {
    AgentCredentialEvidence {
        algorithm: AgentSignatureAlgorithm::Ed25519,
        public_key_spki: Ed25519PublicKeySpki {
            encoded: id("key"),
            fingerprint: digest(70 + number),
        },
        proof_of_possession: id("proof"),
    }
}

fn candidate(number: u8) -> AgentCandidateRecord {
    bootstrap_candidate(bootstrap_request(number), Some(evidence(number)))
}

fn nobody() -> BootstrapIdentityOwners {
    BootstrapIdentityOwners {
        request: None,
        installation: None,
        public_key: None,
    }
}

fn bootstrapped(
    record: AgentRegistryRecord,
    number: u8,
    previous: Option<AgentRegistryRecord>,
    now: u64,
) -> AgentRegistryRecord {
    match ok(apply_bootstrap(
        record,
        candidate(number),
        digest(number),
        &nobody(),
        &previous,
        now,
    )) {
        BootstrapStep::Store { record, .. } => record,
        BootstrapStep::Replayed(_) => panic!("expected a fresh bootstrap"),
    }
}

fn decision(
    number: u8,
    decision: AgentEnrollmentDecision,
    confirm_replacement: bool,
) -> AgentEnrollmentApprovalRequest {
    AgentEnrollmentApprovalRequest {
        decision_request_id: id(&format!("decision-{number}")),
        enrollment_id: id(&format!("enrollment-{number}")),
        decision,
        expected_resource_version: 2,
        confirm_replacement,
        extensions: id(""),
    }
}

fn pending() -> AgentRegistryRecord {
    bootstrapped(intent(1, None), 1, None, 20)
}

fn approved() -> AgentRegistryRecord {
    match ok(decide_enrollment(
        pending(),
        decision(1, AgentEnrollmentDecision::Approve, false),
        id("admin"),
        None,
        &None,
        None,
        30,
    )) {
        EnrollmentDecisionStep::Store { record, .. } => record,
        _ => panic!("expected an approval"),
    }
}

fn open_request(boot: &str, version: u64) -> OpenAgentSessionRequest {
    OpenAgentSessionRequest {
        agent_id: id("agent-1"),
        installation_id: id("installation-1"),
        boot_id: id(boot),
        mount_identity_digest: digest(60),
        expected_resource_version: version,
    }
}

fn opened(record: AgentRegistryRecord, boot: &str, now: u64) -> AgentRegistryRecord {
    let version = record.resource_version;
    match ok(open_session(
        record,
        &open_request(boot, version),
        session_id_of(boot),
        now,
        TIMEOUT,
    )) {
        OpenSessionStep::Store { record, .. } => record,
        OpenSessionStep::Replayed { .. } => panic!("expected a fresh session"),
    }
}

fn report(record: &AgentRegistryRecord, sequence: u64) -> AgentMountStatusReport {
    let instance = record.instance.clone().unwrap_or_else(|| panic!("no instance"));
    AgentMountStatusReport {
        agent_id: instance.agent_id.clone(),
        installation_id: instance.installation_id.clone(),
        boot_id: instance.active_boot_id.clone().unwrap_or_else(|| id("none")),
        session_generation: instance.session_generation.unwrap_or(0),
        sequence,
        agent_mount_id: record.mount.agent_mount_id.clone(),
        storage_volume_id: id("volume-1"),
        mount_generation: record.mount.mount_generation,
        owner_generation: record.owner.owner_generation,
        mount_identity_digest: digest(60),
        observed_volume_marker: id("volume-1"),
        access_mode: MountAccessMode::ReadWrite,
        health: ResourceHealth::Ready,
        observed_at_unix_ms: 45,
    }
}

fn reported(record: AgentRegistryRecord, sequence: u64, now: u64) -> AgentRegistryRecord {
    let observation = report(&record, sequence);
    match ok(report_mount(record, &observation, now, TIMEOUT)) {
        MountReportStep::Store { record, .. } => record,
        MountReportStep::Replayed(_) => panic!("expected a fresh report"),
    }
}

fn valid(record: &AgentRegistryRecord) -> bool {
    validate_registry_record(record, Some(digest(51))).is_ok()
}

#[test]
fn a_token_intent_is_fresh_and_insertable() {
    let record = intent(1, None);
    assert_eq!(record.resource_version, 1);
    assert_eq!(record.enrollment.state, AgentEnrollmentState::TokenIssued);
    assert_eq!(record.mount.mount_generation, 1);
    assert!(validate_registry_insert(&record, Some(digest(51))).is_ok());
    let events = &record.storage_enrollment.lifecycle_audit_events;
    assert_eq!(events.len(), 1);
    assert_eq!(
        events[0].event_id.as_str(),
        "agent-enrollment-lifecycle:enrollment-1:1:token-issued"
    );
    assert_eq!(
        code(validate_registry_insert(&record, Some(digest(52)))),
        CentralErrorCode::StorageFailure
    );
}

#[test]
fn a_token_request_that_comes_again_is_compared() {
    let again = ok(replay_token_intent(intent(1, None), &token_request(1), &metadata()));
    assert!(again.replayed);
    let mut other = token_request(1);
    other.storage_volume_id = id("volume-2");
    assert_eq!(
        code(replay_token_intent(intent(1, None), &other, &metadata())),
        CentralErrorCode::EnrollmentIdReused
    );
}

#[test]
fn a_claim_bound_elsewhere_refuses_the_intent() {
    let binding = Some(PvcVolumeBinding {
        pvc_identity_digest: digest(51),
        tenant_id: id("tenant-1"),
        edge_cluster_id: id("cluster-1"),
        storage_volume_id: id("volume-2"),
    });
    assert_eq!(
        code(plan_token_intent(token_request(1), &metadata(), &binding, &None)),
        CentralErrorCode::VolumeOwnerConflict
    );
    let mut other = token_request(2);
    other.volume_descriptor_digest = digest(1);
    assert_eq!(
        code(plan_token_intent(other, &metadata(), &None, &Some(approved()))),
        CentralErrorCode::AgentIdentityMismatch
    );
}

#[test]
fn redeeming_a_token_starts_a_review() {
    let record = pending();
    assert_eq!(record.enrollment.state, AgentEnrollmentState::PendingApproval);
    assert_eq!(
        record.enrollment.review_expires_at_unix_ms,
        Some(20 + AGENT_ENROLLMENT_REVIEW_WINDOW_MS)
    );
    assert_eq!(
        record.storage_enrollment.state,
        Some(StorageEnrollmentState::PendingApproval)
    );
    let capabilities = record.candidate.clone().map(|candidate| candidate.capabilities);
    assert!(capabilities == Some(vec![id("add"), id("mount")]));
    assert!(valid(&record));
    let accepted = bootstrap_accepted(&record, false);
    assert_eq!(accepted.resource_version, 2);
    assert!(accepted.agent_id == id("agent-1"));
}

#[test]
fn a_token_is_redeemed_once() {
    match ok(apply_bootstrap(
        pending(),
        candidate(1),
        digest(1),
        &nobody(),
        &None,
        u64::MAX,
    )) {
        BootstrapStep::Replayed(answer) => assert!(answer.accepted.replayed),
        BootstrapStep::Store { .. } => panic!("expected a replay"),
    }
    assert_eq!(
        code(apply_bootstrap(pending(), candidate(2), digest(1), &nobody(), &None, 21)),
        CentralErrorCode::AgentIdentityMismatch
    );
}

#[test]
fn a_late_or_taken_bootstrap_is_denied() {
    assert_eq!(
        code(apply_bootstrap(
            intent(1, None),
            candidate(1),
            digest(1),
            &nobody(),
            &None,
            1_000
        )),
        CentralErrorCode::BootstrapDenied
    );
    let taken = |request: Option<Identifier>, installation: Option<Identifier>| {
        BootstrapIdentityOwners {
            request,
            installation,
            public_key: None,
        }
    };
    assert_eq!(
        code(apply_bootstrap(
            intent(1, None),
            candidate(1),
            digest(1),
            &taken(Some(id("enrollment-9")), None),
            &None,
            20
        )),
        CentralErrorCode::EnrollmentIdReused
    );
    assert_eq!(
        code(apply_bootstrap(
            intent(1, None),
            candidate(1),
            digest(1),
            &taken(None, Some(id("enrollment-9"))),
            &None,
            20
        )),
        CentralErrorCode::AgentIdentityMismatch
    );
    match admit_bootstrap(&intent(1, None), &bootstrap_request(1), true, 1_000) {
        Ok(admission) => assert!(admission == BootstrapAdmission::Expire),
        Err(error) => panic!("{}", error.display()),
    }
    match admit_bootstrap(&intent(1, None), &bootstrap_request(1), true, 20) {
        Ok(admission) => assert!(admission == BootstrapAdmission::Proceed),
        Err(error) => panic!("{}", error.display()),
    }
    let mut elsewhere = bootstrap_request(1);
    elsewhere.edge_cluster_id = id("cluster-2");
    assert!(admit_bootstrap(&intent(1, None), &elsewhere, true, 20).is_err());
}

#[test]
fn a_bootstrap_that_lost_its_write_is_answered_from_the_stored_record() {
    let lost = || CentralError::new(CentralErrorCode::ConcurrentUpdate, "lost".to_owned());
    let answer = ok(conclude_bootstrap(
        Err(lost()),
        Some(pending()),
        &candidate(1),
        digest(1),
    ));
    assert!(answer.accepted.replayed);
    assert_eq!(
        code(conclude_bootstrap(Err(lost()), None, &candidate(1), digest(1))),
        CentralErrorCode::BootstrapDenied
    );
    assert_eq!(
        conclude_token_expiry(Ok(()), &None).code(),
        CentralErrorCode::BootstrapDenied
    );
    assert_eq!(
        conclude_token_expiry(Err(lost()), &Some(pending())).code(),
        CentralErrorCode::ConcurrentUpdate
    );
}

#[test]
fn a_credential_must_be_proved_and_match() {
    assert!(verify_bootstrap_credential(true, evidence(1), digest(71)).is_ok());
    assert!(verify_bootstrap_credential(false, evidence(1), digest(71)).is_err());
    assert_eq!(
        code(validate_credential_evidence(&evidence(1), digest(72))),
        CentralErrorCode::AgentIdentityMismatch
    );
    let mut foreign = evidence(1);
    foreign.algorithm = AgentSignatureAlgorithm::Unrecognized;
    assert_eq!(
        code(validate_credential_evidence(&foreign, digest(71))),
        CentralErrorCode::BootstrapDenied
    );
}

#[test]
fn approval_makes_the_agent_the_owner() {
    let record = approved();
    assert_eq!(record.resource_version, 3);
    assert_eq!(record.enrollment.state, AgentEnrollmentState::Approved);
    assert_eq!(record.owner.state, VolumeOwnerState::Active);
    assert!(record.owner.active_agent_id == Some(id("agent-1")));
    let event = record
        .decision_audit_event
        .clone()
        .unwrap_or_else(|| panic!("no audit event"));
    assert_eq!(event.event_id.as_str(), "agent-enrollment:enrollment-1:decision-1");
    assert_eq!(event.kind, AgentEnrollmentAuditKind::Approved);
    assert_eq!(event.resource_version, 3);
    assert!(valid(&record));
    assert_eq!(pvc_binding_role(&record), Some(PvcBindingRole::Owner));
}

#[test]
fn a_decision_that_comes_again_is_compared() {
    let approve = decision(1, AgentEnrollmentDecision::Approve, false);
    match ok(decide_enrollment(
        approved(),
        approve.clone(),
        id("someone"),
        None,
        &Some(id("enrollment-1")),
        None,
        99,
    )) {
        EnrollmentDecisionStep::Replayed(answer) => assert!(answer.replayed),
        _ => panic!("expected a replay"),
    }
    let mut other = approve.clone();
    other.decision_request_id = id("decision-9");
    assert_eq!(
        code(decide_enrollment(approved(), other, id("admin"), None, &None, None, 99)),
        CentralErrorCode::EnrollmentDecisionConflict
    );
    assert_eq!(
        code(decide_enrollment(
            pending(),
            approve,
            id("admin"),
            None,
            &Some(id("enrollment-9")),
            None,
            30
        )),
        CentralErrorCode::EnrollmentDecisionConflict
    );
}

#[test]
fn a_rejection_keeps_its_reason_and_is_final() {
    let reject = decision(1, AgentEnrollmentDecision::Reject, false);
    let rejected = match ok(decide_enrollment(
        pending(),
        reject.clone(),
        id("admin"),
        Some(id("unknown host")),
        &None,
        None,
        30,
    )) {
        EnrollmentDecisionStep::Store { record, .. } => record,
        _ => panic!("expected a rejection"),
    };
    assert_eq!(rejected.enrollment.state, AgentEnrollmentState::Rejected);
    assert!(valid(&rejected));
    let last = rejected.storage_enrollment.lifecycle_audit_events.last().cloned();
    assert!(last.is_some_and(|event| {
        event.kind == AgentEnrollmentLifecycleAuditKind::Rejected
            && event.rejection_reason == Some(id("unknown host"))
    }));
    assert_eq!(
        code(decide_enrollment(
            rejected,
            reject,
            id("admin"),
            Some(id("other reason")),
            &None,
            None,
            31
        )),
        CentralErrorCode::EnrollmentDecisionConflict
    );
    assert_eq!(
        code(validate_rejection_reason(
            AgentEnrollmentDecision::Approve,
            &Some(id("why"))
        )),
        CentralErrorCode::ProtocolInvalid
    );
    assert!(
        validate_rejection_reason(AgentEnrollmentDecision::Reject, &Some(id(""))).is_err()
    );
}

#[test]
fn a_decision_after_the_review_window_closes_the_enrollment() {
    let late = 20 + AGENT_ENROLLMENT_REVIEW_WINDOW_MS;
    match ok(decide_enrollment(
        pending(),
        decision(1, AgentEnrollmentDecision::Approve, false),
        id("admin"),
        None,
        &None,
        None,
        late,
    )) {
        EnrollmentDecisionStep::Expire { record, .. } => {
            assert_eq!(record.enrollment.state, AgentEnrollmentState::Expired);
            assert!(valid(&record));
        }
        _ => panic!("expected an expiry"),
    }
    assert_eq!(
        enrollment_review_expired().code(),
        CentralErrorCode::EnrollmentExpired
    );
}

#[test]
fn a_weak_probe_or_an_odd_confirmation_is_not_approved() {
    let mut weak = pending();
    if let Some(found) = weak.candidate.as_mut() {
        found.probe.fsync_supported = false;
    }
    assert_eq!(
        code(decide_enrollment(
            weak,
            decision(1, AgentEnrollmentDecision::Approve, false),
            id("admin"),
            None,
            &None,
            None,
            30
        )),
        CentralErrorCode::EnrollmentProbeFailed
    );
    assert_eq!(
        code(decide_enrollment(
            pending(),
            decision(1, AgentEnrollmentDecision::Approve, true),
            id("admin"),
            None,
            &None,
            None,
            30
        )),
        CentralErrorCode::ProtocolInvalid
    );
    let mut stale = decision(1, AgentEnrollmentDecision::Approve, false);
    stale.expected_resource_version = 1;
    assert_eq!(
        code(decide_enrollment(pending(), stale, id("admin"), None, &None, None, 30)),
        CentralErrorCode::ConcurrentUpdate
    );
    assert!(validate_bootstrap_probe(&pending(), &probe()).is_ok());
}

#[test]
fn a_newer_session_fences_the_older_one() {
    let first = opened(approved(), "boot-1", 40);
    assert!(valid(&first));
    assert_eq!(
        first.instance.clone().and_then(|instance| instance.session_generation),
        Some(1)
    );
    match ok(open_session(
        first.clone(),
        &open_request("boot-1", 3),
        session_id_of("other"),
        41,
        TIMEOUT,
    )) {
        OpenSessionStep::Replayed { session_id, session_generation, .. } => {
            assert_eq!(session_id.as_str(), "session-boot-1");
            assert_eq!(session_generation, 1);
        }
        OpenSessionStep::Store { .. } => panic!("expected a replay"),
    }
    assert_eq!(
        code(open_session(
            first.clone(),
            &open_request("boot-2", 4),
            session_id_of("boot-2"),
            41,
            TIMEOUT
        )),
        CentralErrorCode::AgentSessionActive
    );
    let observation = report(&first, 1);
    let second = opened(first, "boot-2", 40 + TIMEOUT + 1);
    assert_eq!(
        code(report_mount(second, &observation, 200, TIMEOUT)),
        CentralErrorCode::GenerationMismatch
    );
}

#[test]
fn a_session_needs_the_approved_identity() {
    assert_eq!(
        code(open_session(
            pending(),
            &open_request("boot-1", 2),
            session_id_of("x"),
            40,
            TIMEOUT
        )),
        CentralErrorCode::ApprovalRequired
    );
    let mut foreign = open_request("boot-1", 3);
    foreign.installation_id = id("installation-9");
    assert_eq!(
        code(open_session(approved(), &foreign, session_id_of("x"), 40, TIMEOUT)),
        CentralErrorCode::AgentIdentityMismatch
    );
    assert_eq!(
        code(open_session(
            approved(),
            &open_request("boot-1", 9),
            session_id_of("x"),
            40,
            TIMEOUT
        )),
        CentralErrorCode::ConcurrentUpdate
    );
}

#[test]
fn the_first_ready_report_enrolls_the_volume() {
    let session = opened(approved(), "boot-1", 40);
    let ready = reported(session.clone(), 1, 45);
    assert_eq!(
        ready.storage_enrollment.state,
        Some(StorageEnrollmentState::Enrolled)
    );
    assert!(ok(volume_state(&ready, 46, TIMEOUT)) == DerivedVolumeState::Ready);
    assert!(ok(volume_state(&ready, 46 + 2 * TIMEOUT, TIMEOUT)) == DerivedVolumeState::Unavailable);
    assert!(valid(&ready));
    match ok(report_mount(ready.clone(), &report(&ready, 1), 50, TIMEOUT)) {
        MountReportStep::Replayed(found) => assert!(found == ready),
        MountReportStep::Store { .. } => panic!("expected a replay"),
    }
    let mut altered = report(&ready, 1);
    altered.health = ResourceHealth::Degraded;
    assert_eq!(
        code(report_mount(ready.clone(), &altered, 50, TIMEOUT)),
        CentralErrorCode::GenerationMismatch
    );
    assert_eq!(
        code(report_mount(ready.clone(), &report(&ready, 0), 50, TIMEOUT)),
        CentralErrorCode::GenerationMismatch
    );
    let mut foreign = report(&ready, 2);
    foreign.agent_mount_id = id("mount-9");
    assert_eq!(
        code(report_mount(ready.clone(), &foreign, 50, TIMEOUT)),
        CentralErrorCode::AgentIdentityMismatch
    );
    let mut read_only = report(&ready, 2);
    read_only.access_mode = MountAccessMode::ReadOnly;
    match ok(report_mount(ready.clone(), &read_only, 50, TIMEOUT)) {
        MountReportStep::Store { record, .. } => {
            assert_eq!(record.mount.health, ResourceHealth::Degraded)
        }
        MountReportStep::Replayed(_) => panic!("expected a fresh report"),
    }
    let mut unmarked = report(&ready, 2);
    unmarked.observed_volume_marker = id("volume-9");
    match ok(report_mount(ready, &unmarked, 50, TIMEOUT)) {
        MountReportStep::Store { record, .. } => {
            assert_eq!(record.mount.health, ResourceHealth::Unavailable)
        }
        MountReportStep::Replayed(_) => panic!("expected a fresh report"),
    }
}

#[test]
fn a_closed_session_leaves_its_generation_behind() {
    let session = opened(approved(), "boot-1", 40);
    let close = CloseAgentSessionRequest {
        agent_id: id("agent-1"),
        boot_id: id("boot-1"),
        session_generation: 1,
        expected_resource_version: 4,
    };
    let closed = ok(close_session(session.clone(), &close, 50));
    assert!(valid(&closed));
    let next = opened(closed.clone(), "boot-2", 60);
    assert_eq!(
        next.instance.and_then(|instance| instance.session_generation),
        Some(2)
    );
    let mut again = close;
    again.expected_resource_version = 5;
    assert_eq!(
        code(close_session(closed, &again, 60)),
        CentralErrorCode::GenerationMismatch
    );
}

#[test]
fn an_action_is_authenticated_by_identity_and_session() {
    let session = opened(approved(), "boot-1", 40);
    let fence = |boot: &str, generation: u64| AgentActionFence {
        agent_id: id("agent-1"),
        installation_id: id("installation-1"),
        boot_id: id(boot),
        session_id: Some(session_id_of("boot-1")),
        session_generation: Some(generation),
        signed_at_unix_ms: 41,
        algorithm: AgentSignatureAlgorithm::Ed25519,
        public_key_spki: Ed25519PublicKeySpki {
            encoded: id("key"),
            fingerprint: digest(71),
        },
    };
    assert!(authenticate_agent_action(&session, &fence("boot-1", 1), true).is_ok());
    assert!(authenticate_agent_action(&session, &fence("boot-2", 1), true).is_err());
    assert!(authenticate_agent_action(&session, &fence("boot-1", 2), true).is_err());
    let mut stranger = fence("boot-1", 1);
    stranger.installation_id = id("installation-9");
    assert!(authenticate_agent_action(&session, &stranger, true).is_err());
}

fn replacement_pending(previous: &AgentRegistryRecord) -> AgentRegistryRecord {
    bootstrapped(
        intent(2, Some(previous.clone())),
        2,
        Some(previous.clone()),
        40,
    )
}

#[test]
fn a_replacement_revokes_the_owner_and_awaits_recovery() {
    let owner = approved();
    let next = replacement_pending(&owner);
    assert_eq!(pvc_binding_role(&next), Some(PvcBindingRole::Replacement));
    assert_eq!(
        code(decide_enrollment(
            next.clone(),
            decision(2, AgentEnrollmentDecision::Approve, false),
            id("admin"),
            None,
            &None,
            Some(owner.clone()),
            50
        )),
        CentralErrorCode::VolumeOwnerConflict
    );
    let (revoked, replacement) = match ok(decide_enrollment(
        next.clone(),
        decision(2, AgentEnrollmentDecision::Approve, true),
        id("admin"),
        None,
        &None,
        Some(owner.clone()),
        50,
    )) {
        EnrollmentDecisionStep::Activate { revoked, replacement, .. } => (revoked, replacement),
        _ => panic!("expected an activation"),
    };
    assert_eq!(revoked.enrollment.state, AgentEnrollmentState::Revoked);
    assert!(revoked.enrollment.replaced_by_enrollment_id == Some(id("enrollment-2")));
    assert_eq!(replacement.owner.state, VolumeOwnerState::RecoveryRequired);
    assert_eq!(replacement.mount.mount_generation, 2);
    assert_eq!(replacement.owner.owner_generation, 2);
    assert_eq!(revoked.owner.owner_generation, 2);
    assert!(valid(&revoked) && valid(&replacement));
    assert_eq!(
        replacement.decision_audit_event.clone().map(|event| event.kind),
        Some(AgentEnrollmentAuditKind::ReplacementApproved)
    );

    let request = |record: &AgentRegistryRecord| OpenAgentSessionRequest {
        agent_id: id("agent-2"),
        installation_id: id("installation-2"),
        boot_id: id("boot-9"),
        mount_identity_digest: digest(60),
        expected_resource_version: record.resource_version,
    };
    let session = match ok(open_session(
        replacement.clone(),
        &request(&replacement),
        session_id_of("boot-9"),
        60,
        TIMEOUT,
    )) {
        OpenSessionStep::Store { record, .. } => record,
        OpenSessionStep::Replayed { .. } => panic!("expected a fresh session"),
    };
    let recovery = |record: &AgentRegistryRecord| CompleteVolumeRecoveryRequest {
        enrollment_id: id("enrollment-2"),
        expected_resource_version: record.resource_version,
        owner_generation: 2,
    };
    assert_eq!(
        code(complete_recovery(session.clone(), &recovery(&session), 61, TIMEOUT)),
        CentralErrorCode::InvalidState
    );
    let mounted = reported(session, 1, 62);
    assert_eq!(
        mounted.storage_enrollment.state,
        Some(StorageEnrollmentState::Approved)
    );
    let recovered = ok(complete_recovery(mounted.clone(), &recovery(&mounted), 63, TIMEOUT));
    assert_eq!(recovered.owner.state, VolumeOwnerState::Active);
    assert_eq!(
        recovered.storage_enrollment.state,
        Some(StorageEnrollmentState::Enrolled)
    );
    assert!(valid(&recovered));
    let mut other = recovery(&mounted);
    other.owner_generation = 1;
    assert_eq!(
        code(complete_recovery(mounted, &other, 63, TIMEOUT)),
        CentralErrorCode::VolumeOwnerConflict
    );
}

#[test]
fn an_enrollment_expires_when_its_window_has_passed() {
    let expire = |version: u64| ExpireAgentEnrollmentRequest {
        enrollment_id: id("enrollment-1"),
        expected_resource_version: version,
    };
    assert_eq!(
        code(expire_enrollment(intent(1, None), &expire(1), 999)),
        CentralErrorCode::InvalidState
    );
    let expired = ok(expire_enrollment(intent(1, None), &expire(1), 1_000));
    assert_eq!(expired.enrollment.state, AgentEnrollmentState::Expired);
    assert_eq!(expired.storage_enrollment.state, None);
    assert!(valid(&expired));
    assert_eq!(
        code(expire_enrollment(approved(), &expire(3), u64::MAX)),
        CentralErrorCode::InvalidState
    );
}

#[test]
fn status_is_told_to_the_candidate_alone() {
    let request = || AgentBootstrapStatusRequest {
        tenant_id: id("tenant-1"),
        bootstrap_request_id: id("bootstrap-1"),
        installation_id: id("installation-1"),
        signed_at_unix_ms: 30,
        algorithm: AgentSignatureAlgorithm::Ed25519,
        public_key_spki: Ed25519PublicKeySpki {
            encoded: id("key"),
            fingerprint: digest(71),
        },
    };
    assert!(identify_bootstrap_status(&Some(pending()), &request()).is_ok());
    assert!(identify_bootstrap_status(&None, &request()).is_err());
    let mut stranger = request();
    stranger.installation_id = id("installation-9");
    assert_eq!(
        code(identify_bootstrap_status(&Some(pending()), &stranger)),
        CentralErrorCode::BootstrapDenied
    );
    let waiting = ok(bootstrap_status_response(Some(pending()), &request()));
    assert!(waiting.state == AgentBootstrapStatusState::Pending);
    assert!(waiting.agent_id.is_none());
    let done = ok(bootstrap_status_response(Some(approved()), &request()));
    assert!(done.state == AgentBootstrapStatusState::Approved);
    assert!(done.agent_id == Some(id("agent-1")));
    assert!(admit_bootstrap_status(100, 90, 10, true).is_ok());
    assert!(admit_bootstrap_status(100, 89, 10, true).is_err());
    assert!(admit_bootstrap_status(100, 90, 10, false).is_err());
    assert!(conclude_status_watermark(Ok(())).is_ok());
}

#[test]
fn legacy_records_are_not_shown() {
    let mut legacy = approved();
    legacy.storage_enrollment.token_key_id = None;
    assert_eq!(
        code(query_enrollment(Some(legacy))),
        CentralErrorCode::LegacyEnrollmentRequiresReissue
    );
    assert_eq!(code(query_enrollment(None)), CentralErrorCode::EnrollmentNotFound);
    assert!(query_enrollment(Some(approved())).is_ok());
}

#[test]
fn descriptors_and_key_ids_are_checked() {
    let descriptor = metadata().map(|metadata| metadata.descriptor);
    let descriptor = descriptor.unwrap_or_else(|| panic!("no descriptor"));
    assert!(validate_frozen_descriptor(&descriptor, digest(51), Ok(digest(51))).is_ok());
    assert_eq!(
        code(validate_frozen_descriptor(&descriptor, digest(51), Ok(digest(52)))),
        CentralErrorCode::AgentIdentityMismatch
    );
    let mut blank = descriptor.clone();
    blank.display_name = "   ".to_owned();
    assert_eq!(
        code(validate_frozen_descriptor(&blank, digest(51), Ok(digest(51)))),
        CentralErrorCode::ProtocolInvalid
    );
    let mut region = descriptor;
    region.region = "not a region!".to_owned();
    assert_eq!(
        code(validate_frozen_descriptor(&region, digest(51), Ok(digest(51)))),
        CentralErrorCode::ProtocolInvalid
    );
    assert!(validate_token_key_id("key-1").is_ok());
    assert!(validate_token_key_id("").is_err());
}

fn registry() -> InMemoryAgentRegistry {
    let mut registry = InMemoryAgentRegistry::new();
    match ok(registry.insert_or_load(intent(1, None), Some(digest(51)))) {
        AgentRegistryInsertOutcome::Inserted(_) => {}
        AgentRegistryInsertOutcome::Existing(_) => panic!("expected an insert"),
    }
    registry
}

#[test]
fn the_registry_stores_every_step_of_an_enrollment() {
    let mut registry = registry();
    ok(registry.replace(1, pending(), Some(digest(51))));
    ok(registry.replace(2, approved(), Some(digest(51))));
    let session = opened(approved(), "boot-1", 40);
    ok(registry.replace(3, session.clone(), Some(digest(51))));
    let ready = reported(session, 1, 45);
    ok(registry.replace(4, ready.clone(), Some(digest(51))));
    assert!(registry.get(&id("enrollment-1")) == Some(ready.clone()));
    assert!(registry.get_by_agent(&id("agent-1")).is_some());
    assert!(registry.get_by_token_digest(&digest(1)).is_some());
    assert!(registry
        .get_by_token_request_id(&id("tenant-1"), &id("token-request-1"))
        .is_some());
    assert!(registry
        .get_by_bootstrap_request_id(&id("tenant-1"), &id("bootstrap-1"))
        .is_some());
    assert!(registry
        .get_by_decision_request_id(&id("tenant-1"), &id("decision-1"))
        .is_some());
    assert!(registry.get_by_installation_id(&id("installation-1")).is_some());
    assert!(registry.get_by_public_key_fingerprint(&digest(71)).is_some());
    assert!(registry
        .get_current_by_volume(&id("tenant-1"), &id("volume-1"))
        .is_some());
    assert!(registry
        .get_pvc_binding(&id("cluster-1"), &digest(51))
        .is_some_and(|binding| binding.storage_volume_id == id("volume-1")));
    assert!(registry.get_for_tenant(&id("tenant-2"), &id("enrollment-1")).is_none());
    assert_eq!(
        code(registry.replace(4, ready, Some(digest(51)))),
        CentralErrorCode::ConcurrentUpdate
    );
}

#[test]
fn the_registry_refuses_changes_of_identity_and_jumps_of_state() {
    let mut registry = registry();
    let mut moved = pending();
    moved.enrollment.edge_cluster_id = id("cluster-9");
    assert_eq!(
        code(registry.replace(1, moved, Some(digest(51)))),
        CentralErrorCode::AgentIdentityMismatch
    );
    let mut jump = approved();
    jump.resource_version = 2;
    assert!(registry.replace(1, jump, Some(digest(51))).is_err());
    let mut unknown = pending();
    unknown.enrollment.enrollment_id = id("enrollment-9");
    assert!(registry.replace(1, unknown, Some(digest(51))).is_err());
    match ok(registry.insert_or_load(intent(1, None), Some(digest(51)))) {
        AgentRegistryInsertOutcome::Existing(_) => {}
        AgentRegistryInsertOutcome::Inserted(_) => panic!("expected the stored record"),
    }
    assert!(registry.insert_or_load(intent(2, None), Some(digest(51))).is_err());
}

#[test]
fn a_volume_has_one_owner_before_and_after_a_replacement() {
    let mut registry = registry();
    ok(registry.replace(1, pending(), Some(digest(51))));
    ok(registry.replace(2, approved(), Some(digest(51))));
    let owner = approved();
    ok(registry.insert_or_load(intent(2, Some(owner.clone())), Some(digest(51))));
    let next = replacement_pending(&owner);
    ok(registry.replace(1, next.clone(), Some(digest(51))));
    let (expected_previous, revoked, expected_replacement, replacement) =
        match ok(decide_enrollment(
            next,
            decision(2, AgentEnrollmentDecision::Approve, true),
            id("admin"),
            None,
            &None,
            Some(owner),
            50,
        )) {
            EnrollmentDecisionStep::Activate {
                expected_previous,
                revoked,
                expected_replacement,
                replacement,
            } => (expected_previous, revoked, expected_replacement, replacement),
            _ => panic!("expected an activation"),
        };
    let entry = |record: &AgentRegistryRecord| RegistryEntry {
        record: record.clone(),
        derived_pvc_identity: Some(digest(51)),
    };
    let stored = ok(registry.activate_replacement(
        expected_previous,
        entry(&revoked),
        expected_replacement,
        entry(&replacement),
    ));
    assert!(stored.revoked == revoked && stored.replacement == replacement);
    let current = registry.get_current_by_volume(&id("tenant-1"), &id("volume-1"));
    assert!(current.is_some_and(|found| found.enrollment.enrollment_id == id("enrollment-2")));
    assert!(registry
        .activate_replacement(
            expected_previous,
            entry(&revoked),
            expected_replacement,
            entry(&replacement),
        )
        .is_err());
    let events = registry.enrollment_audit_events();
    assert_eq!(events.len(), 2);
    assert!(!registry.enrollment_lifecycle_audit_events(&id("tenant-1")).is_empty());
}

#[test]
fn status_watermarks_only_grow() {
    let mut registry = registry();
    assert!(registry
        .consume_bootstrap_status_signed_at(&id("enrollment-1"), 10)
        .is_ok());
    assert!(registry
        .consume_bootstrap_status_signed_at(&id("enrollment-1"), 10)
        .is_err());
    assert!(registry
        .consume_bootstrap_status_signed_at(&id("enrollment-1"), 11)
        .is_ok());
    assert!(registry
        .consume_bootstrap_status_signed_at(&id("enrollment-9"), 11)
        .is_err());
}

#[test]
fn stale_enrollments_are_reconciled() {
    let mut registry = registry();
    let report = ok(registry.reconcile_expired_enrollments(999));
    assert_eq!(report.expired_token_intents, 0);
    let report = ok(registry.reconcile_expired_enrollments(1_000));
    assert_eq!(report.expired_token_intents, 1);
    assert_eq!(report.expired_review_enrollments, 0);
    assert!(registry
        .get(&id("enrollment-1"))
        .is_some_and(|record| record.enrollment.state == AgentEnrollmentState::Expired));
    let report = ok(registry.reconcile_expired_enrollments(u64::MAX));
    assert_eq!(report.expired_token_intents, 0);
}

#[test]
fn stale_enrollments_of_every_format_are_reconciled() {
    let mut legacy = intent(1, None);
    legacy.storage_enrollment = StorageEnrollmentMetadata::default();
    let mut registry = InMemoryAgentRegistry::new();
    ok(registry.insert_or_load(legacy.clone(), None));
    let report = ok(registry.reconcile_expired_enrollments(999));
    assert_eq!(report.expired_token_intents, 0);
    assert!(registry.get(&id("enrollment-1")) == Some(legacy.clone()));

    let report = ok(registry.reconcile_expired_enrollments(1_000));
    assert_eq!(report.expired_token_intents, 1);
    assert_eq!(report.expired_review_enrollments, 0);
    let closed = registry
        .get(&id("enrollment-1"))
        .unwrap_or_else(|| panic!("no record"));
    assert!(closed.enrollment.state == AgentEnrollmentState::Expired);
    assert_eq!(closed.resource_version, legacy.resource_version + 1);
    assert!(closed.storage_enrollment == legacy.storage_enrollment);

    let report = ok(registry.reconcile_expired_enrollments(1_000));
    assert_eq!(report.expired_token_intents, 0);
    assert_eq!(report.expired_review_enrollments, 0);
    assert!(registry.get(&id("enrollment-1")) == Some(closed));
}

#[test]
fn stale_reviews_are_reconciled_apart_from_tokens() {
    let mut registry = registry();
    ok(registry.replace(1, pending(), Some(digest(51))));
    let end = 20 + AGENT_ENROLLMENT_REVIEW_WINDOW_MS;
    let report = ok(registry.reconcile_expired_enrollments(end - 1));
    assert_eq!(report.expired_review_enrollments, 0);
    let report = ok(registry.reconcile_expired_enrollments(end));
    assert_eq!(report.expired_token_intents, 0);
    assert_eq!(report.expired_review_enrollments, 1);
    let report = ok(registry.reconcile_expired_enrollments(end));
    assert_eq!(report.expired_review_enrollments, 0);
}

#[test]
fn enrollments_are_listed_for_their_tenant() {
    let mut registry = registry();
    ok(registry.replace(1, pending(), Some(digest(51))));
    let request = |query: Option<&str>| AgentEnrollmentListRequest {
        tenant_id: id("tenant-1"),
        state: None,
        registration_kind: None,
        query: query.map(id),
        after: None,
        limit: 10,
    };
    assert_eq!(ok(registry.list_for_tenant(&request(None))).records.len(), 1);
    assert_eq!(
        ok(registry.list_for_tenant(&request(Some("TRAINING")))).records.len(),
        1
    );
    assert!(ok(registry.list_for_tenant(&request(Some("other")))).records.is_empty());
    let mut none = request(None);
    none.limit = 0;
    assert_eq!(
        code(registry.list_for_tenant(&none)),
        CentralErrorCode::ProtocolInvalid
    );
}

#[test]
fn audit_trails_are_merged_without_contradiction() {
    let records = vec![approved()];
    let registry_events = enrollment_audit_events(&records);
    assert_eq!(registry_events.len(), 1);
    let merged = ok(merge_enrollment_audit_events(
        registry_events.clone(),
        &registry_events,
    ));
    assert_eq!(merged.len(), 1);
    let mut altered = registry_events.clone();
    altered[0].actor = id("someone else");
    assert!(merge_enrollment_audit_events(altered, &registry_events).is_err());
    let lifecycle = enrollment_lifecycle_audit_events(&records, &id("tenant-1"));
    assert_eq!(lifecycle.len(), 3);
    assert!(enrollment_lifecycle_audit_events(&records, &id("tenant-2")).is_empty());
}

#[test]
fn database_messages_are_classified() {
    let told = |column: &str| {
        registry_update_error(&format!("UNIQUE constraint failed: agent_registry.{column}")).code()
    };
    assert_eq!(told("pvc_binding_role"), CentralErrorCode::VolumeOwnerConflict);
    assert_eq!(told("installation_id"), CentralErrorCode::AgentIdentityMismatch);
    assert_eq!(
        told("public_key_fingerprint"),
        CentralErrorCode::AgentIdentityMismatch
    );
    assert_eq!(
        told("decision_request_id"),
        CentralErrorCode::EnrollmentDecisionConflict
    );
    assert_eq!(
        told("bootstrap_request_id"),
        CentralErrorCode::EnrollmentIdReused
    );
}

fn gateways() -> InMemoryGatewayRegistry {
    let mut gateways = InMemoryGatewayRegistry::new();
    let pool = GatewayPoolRecord {
        gateway_pool_id: id("pool-1"),
        edge_cluster_id: id("cluster-1"),
        resource_version: 1,
        config_generation: 1,
        state: GatewayPoolState::Other(id("active")),
        agent_endpoint: "pool-agent".to_owned(),
        s3_endpoint: None,
        detail: id(""),
    };
    assert!(gateways.insert_pool(pool, Ok(())).is_ok());
    let replica = GatewayReplicaRecord {
        gateway_replica_id: id("replica-1"),
        gateway_pool_id: id("pool-1"),
        edge_cluster_id: id("cluster-1"),
        resource_version: 1,
        state: GatewayReplicaState::Pending,
        credential: GatewayCredential {
            state: GatewayCredentialState::PendingActivation,
            activation_token_digest: digest(99),
        },
        control_endpoint: "control".to_owned(),
        peer_endpoint: "peer".to_owned(),
        bootstrap_endpoint: "bootstrap".to_owned(),
        last_heartbeat_at_unix_ms: None,
        detail: id(""),
    };
    assert!(gateways.insert_replica(replica, Ok(())).is_ok());
    gateways
}

fn session_route(boot: &str, version: u64) -> AcquireAgentSessionRouteRequest {
    AcquireAgentSessionRouteRequest {
        session: open_request(boot, version),
        edge_cluster_id: id("cluster-1"),
        gateway_pool_id: id("pool-1"),
        gateway_replica_id: id("replica-1"),
        connection_id: id("connection-1"),
        request_id: id("route-1"),
        observed_at_unix_ms: 40,
        heartbeat_timeout_ms: TIMEOUT,
    }
}

#[test]
fn a_session_and_its_route_are_written_together() {
    let mut agents = registry();
    let mut gateways = gateways();
    let take = |gateways: &mut InMemoryGatewayRegistry,
                agents: &mut InMemoryAgentRegistry,
                request: &AcquireAgentSessionRouteRequest,
                target: bool| {
        gateways.acquire_agent_session_route(
            agents,
            request,
            |generation| session_id_of(&format!("generation-{generation}")),
            |record| {
                let opened = record.instance.as_ref().map(|found| found.session_generation);
                assert!(opened == Some(Some(1)));
                if target {
                    Ok(())
                } else {
                    Err(CentralError::new(
                        CentralErrorCode::AssignmentMismatch,
                        "elsewhere".to_owned(),
                    ))
                }
            },
            |_, _| Ok(()),
            |stored, generation| {
                Ok(AgentRouteLeaseAcquireOutcome {
                    replayed: stored.is_some(),
                    lease: AgentRouteLease {
                        agent_id: id("agent-1"),
                        edge_cluster_id: id("cluster-1"),
                        gateway_pool_id: id("pool-1"),
                        gateway_replica_id: id("replica-1"),
                        connection_id: id("connection-1"),
                        session_generation: generation,
                        acquire_request_id: id("route-1"),
                        last_renew_request_id: None,
                        release_request_id: None,
                        detail: id(""),
                    },
                })
            },
        )
    };
    let nobody = InMemoryAgentRegistry::new();
    let request = session_route("boot-1", 3);
    let missing = take(&mut gateways, &mut { nobody }, &request, true);
    assert_eq!(
        missing.err().map(|error| error.message().to_owned()),
        Some(neoengramd::gateway::agent_not_found().message().to_owned())
    );
    assert_eq!(
        code(take(&mut gateways, &mut agents, &request, true)),
        CentralErrorCode::ApprovalRequired
    );
    ok(agents.replace(1, pending(), Some(digest(51))));
    ok(agents.replace(2, approved(), Some(digest(51))));
    assert_eq!(
        code(take(&mut gateways, &mut agents, &request, false)),
        CentralErrorCode::AssignmentMismatch
    );
    assert!(gateways.get_agent_route(&id("agent-1")).is_none());
    assert!(agents.get(&id("enrollment-1")) == Some(approved()));

    let first = ok(take(&mut gateways, &mut agents, &request, true));
    assert!(!first.session_replayed && !first.route.replayed);
    assert_eq!(first.route.lease.session_generation, 1);
    assert!(agents.get(&id("enrollment-1")).as_ref() == Some(&first.record));
    assert!(gateways.get_agent_route(&id("agent-1")).as_ref() == Some(&first.route.lease));
    let session = first.record.instance.as_ref().and_then(|found| found.active_session_id.clone());
    assert!(session == Some(id("session-generation-1")));

    let again = ok(take(&mut gateways, &mut agents, &request, true));
    assert!(again.session_replayed && again.record == first.record);
    assert!(agents.get(&id("enrollment-1")) == Some(first.record));
}
