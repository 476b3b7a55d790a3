CREATE TABLE agent_registry_records (
    enrollment_id TEXT NOT NULL PRIMARY KEY,
    agent_id TEXT NOT NULL UNIQUE,
    token_id TEXT NOT NULL UNIQUE,
    token_request_id TEXT NOT NULL,
    token_digest TEXT NOT NULL UNIQUE,
    tenant_id TEXT NOT NULL,
    edge_cluster_id TEXT NOT NULL,
    storage_volume_id TEXT NOT NULL,
    pvc_identity_digest TEXT NOT NULL,
    pvc_binding_role TEXT CHECK (pvc_binding_role IN ('owner', 'replacement')),
    bootstrap_request_id TEXT,
    decision_request_id TEXT,
    installation_id TEXT,
    public_key_fingerprint TEXT,
    resource_version TEXT NOT NULL CHECK (
        resource_version <> '' AND resource_version NOT GLOB '*[^0-9]*'
    ),
    payload BLOB NOT NULL,
    enrollment_state TEXT NOT NULL DEFAULT 'legacy' CHECK (
        enrollment_state IN (
            'legacy', 'token_issued', 'pending_approval', 'approved', 'enrolled',
            'rejected', 'expired', 'revoked'
        )
    ),
    registration_kind TEXT NOT NULL DEFAULT 'legacy' CHECK (
        registration_kind IN ('legacy', 'initial', 'replacement')
    ),
    enrollment_created_at_unix_ms INTEGER NOT NULL DEFAULT 0 CHECK (
        enrollment_created_at_unix_ms >= 0
    ),
    display_name TEXT
) STRICT;
CREATE TABLE agent_bootstrap_status_watermarks (
    enrollment_id TEXT NOT NULL PRIMARY KEY
        REFERENCES agent_registry_records(enrollment_id) ON DELETE CASCADE,
    signed_at_unix_ms INTEGER NOT NULL CHECK (signed_at_unix_ms >= 0)
) STRICT;
CREATE INDEX agent_registry_volume_scope
    ON agent_registry_records (tenant_id, storage_volume_id);
CREATE INDEX agent_registry_pvc_identity_scope
    ON agent_registry_records (edge_cluster_id, pvc_identity_digest);
CREATE UNIQUE INDEX agent_registry_active_volume_binding
    ON agent_registry_records (tenant_id, storage_volume_id, pvc_binding_role)
    WHERE pvc_binding_role IS NOT NULL;
CREATE UNIQUE INDEX agent_registry_active_pvc_binding
    ON agent_registry_records (edge_cluster_id, pvc_identity_digest, pvc_binding_role)
    WHERE pvc_binding_role IS NOT NULL;
CREATE UNIQUE INDEX agent_registry_token_request_identity
    ON agent_registry_records (tenant_id, token_request_id);
CREATE UNIQUE INDEX agent_registry_bootstrap_request_identity
    ON agent_registry_records (tenant_id, bootstrap_request_id)
    WHERE bootstrap_request_id IS NOT NULL;
CREATE UNIQUE INDEX agent_registry_decision_request_identity
    ON agent_registry_records (tenant_id, decision_request_id)
    WHERE decision_request_id IS NOT NULL;
CREATE UNIQUE INDEX agent_registry_installation_identity
    ON agent_registry_records (installation_id)
    WHERE installation_id IS NOT NULL;
CREATE UNIQUE INDEX agent_registry_public_key_identity
    ON agent_registry_records (public_key_fingerprint)
    WHERE public_key_fingerprint IS NOT NULL;
CREATE INDEX agent_registry_tenant_enrollment_keyset
    ON agent_registry_records (
        tenant_id, enrollment_created_at_unix_ms DESC, enrollment_id ASC
    );
CREATE INDEX agent_registry_tenant_status_keyset
    ON agent_registry_records (
        tenant_id, enrollment_state, registration_kind,
        enrollment_created_at_unix_ms DESC, enrollment_id ASC
    );
CREATE TABLE tenant_catalog_records (
    tenant_id TEXT NOT NULL PRIMARY KEY,
    display_name TEXT NOT NULL,
    description TEXT,
    resource_version TEXT NOT NULL CHECK (
        resource_version <> '' AND resource_version NOT GLOB '*[^0-9]*'
    ),
    created_at_unix_ms INTEGER NOT NULL CHECK (created_at_unix_ms >= 0),
    updated_at_unix_ms INTEGER NOT NULL CHECK (updated_at_unix_ms >= created_at_unix_ms)
) STRICT;
CREATE INDEX tenant_catalog_keyset
    ON tenant_catalog_records (created_at_unix_ms DESC, tenant_id ASC);
CREATE TABLE artifact_catalog_records (
    tenant_id TEXT NOT NULL,
    project_id TEXT NOT NULL,
    artifact_id TEXT NOT NULL,
    display_name TEXT NOT NULL,
    description TEXT,
    initialization_mode TEXT NOT NULL CHECK (initialization_mode IN ('empty', 'derived')),
    source_project_id TEXT,
    source_artifact_id TEXT,
    source_commit_digest BLOB,
    head_commit_digest BLOB CHECK (
        head_commit_digest IS NULL OR length(head_commit_digest) = 32
    ),
    resource_version TEXT NOT NULL CHECK (
        resource_version <> '' AND resource_version NOT GLOB '*[^0-9]*'
    ),
    created_at_unix_ms INTEGER NOT NULL CHECK (created_at_unix_ms >= 0),
    updated_at_unix_ms INTEGER NOT NULL CHECK (updated_at_unix_ms >= created_at_unix_ms),
    PRIMARY KEY (tenant_id, artifact_id),
    UNIQUE (tenant_id, project_id, artifact_id),
    CHECK (
        (initialization_mode = 'empty' AND source_project_id IS NULL
            AND source_artifact_id IS NULL AND source_commit_digest IS NULL)
        OR
        (initialization_mode = 'derived' AND source_project_id IS NOT NULL
            AND source_artifact_id IS NOT NULL AND length(source_commit_digest) = 32)
    ),
    FOREIGN KEY (tenant_id) REFERENCES tenant_catalog_records(tenant_id),
    FOREIGN KEY (tenant_id, source_project_id, source_artifact_id)
        REFERENCES artifact_catalog_records(tenant_id, project_id, artifact_id)
) STRICT;
CREATE INDEX artifact_catalog_keyset
    ON artifact_catalog_records (
        tenant_id, created_at_unix_ms DESC, project_id ASC, artifact_id ASC
    );
CREATE INDEX artifact_catalog_filter_keyset
    ON artifact_catalog_records (
        tenant_id, project_id, created_at_unix_ms DESC, artifact_id ASC
    );
CREATE TABLE storage_volume_catalog_records (
    tenant_id TEXT NOT NULL,
    storage_volume_id TEXT NOT NULL,
    display_name TEXT NOT NULL,
    edge_cluster_id TEXT NOT NULL,
    region TEXT NOT NULL,
    backend_type TEXT NOT NULL CHECK (backend_type IN ('pvc', 'nfs')),
    access_mode TEXT NOT NULL CHECK (
        access_mode IN ('read_write_once', 'read_write_many', 'read_only_many')
    ),
    pvc_namespace TEXT,
    pvc_claim_name TEXT,
    nfs_server TEXT,
    nfs_export_path TEXT,
    state TEXT NOT NULL CHECK (state IN ('ready', 'degraded', 'unavailable')),
    enrollment_id TEXT,
    resource_version TEXT NOT NULL CHECK (
        resource_version <> '' AND resource_version NOT GLOB '*[^0-9]*'
    ),
    created_at_unix_ms INTEGER NOT NULL CHECK (created_at_unix_ms >= 0),
    updated_at_unix_ms INTEGER NOT NULL CHECK (updated_at_unix_ms >= created_at_unix_ms),
    PRIMARY KEY (tenant_id, storage_volume_id),
    CHECK (
        (backend_type = 'pvc' AND pvc_namespace IS NOT NULL AND pvc_claim_name IS NOT NULL
            AND nfs_server IS NULL AND nfs_export_path IS NULL)
        OR
        (backend_type = 'nfs' AND pvc_namespace IS NULL AND pvc_claim_name IS NULL
            AND nfs_server IS NOT NULL AND nfs_export_path IS NOT NULL)
    )
) STRICT;
CREATE UNIQUE INDEX storage_volume_catalog_pvc_identity
    ON storage_volume_catalog_records (edge_cluster_id, pvc_namespace, pvc_claim_name)
    WHERE backend_type = 'pvc';
CREATE INDEX storage_volume_catalog_keyset
    ON storage_volume_catalog_records (
        tenant_id, created_at_unix_ms DESC, storage_volume_id ASC
    );
CREATE INDEX storage_volume_catalog_filter_keyset
    ON storage_volume_catalog_records (
        tenant_id, region, backend_type, created_at_unix_ms DESC, storage_volume_id ASC
    );
CREATE TABLE playground_catalog_records (
    tenant_id TEXT NOT NULL,
    project_id TEXT NOT NULL,
    artifact_id TEXT NOT NULL,
    playground_id TEXT NOT NULL,
    storage_volume_id TEXT NOT NULL,
    region TEXT NOT NULL,
    display_name TEXT NOT NULL,
    base_commit_digest BLOB CHECK (
        base_commit_digest IS NULL OR length(base_commit_digest) = 32
    ),
    head_commit_digest BLOB CHECK (
        head_commit_digest IS NULL OR length(head_commit_digest) = 32
    ),
    state TEXT NOT NULL CHECK (state IN ('creating', 'ready', 'abnormal')),
    relative_root TEXT NOT NULL CHECK (
        relative_root <> '' AND substr(relative_root, 1, 1) <> '/'
    ),
    created_at_unix_ms INTEGER NOT NULL CHECK (created_at_unix_ms >= 0),
    updated_at_unix_ms INTEGER NOT NULL CHECK (updated_at_unix_ms >= created_at_unix_ms),
    PRIMARY KEY (tenant_id, project_id, artifact_id, playground_id),
    FOREIGN KEY (tenant_id, project_id, artifact_id)
        REFERENCES artifact_catalog_records(tenant_id, project_id, artifact_id),
    FOREIGN KEY (tenant_id, storage_volume_id)
        REFERENCES storage_volume_catalog_records(tenant_id, storage_volume_id)
) STRICT;
CREATE INDEX playground_catalog_keyset
    ON playground_catalog_records (
        tenant_id, created_at_unix_ms DESC, project_id ASC, artifact_id ASC, playground_id ASC
    );
CREATE INDEX playground_catalog_filter_keyset
    ON playground_catalog_records (
        tenant_id, project_id, artifact_id, region, state,
        created_at_unix_ms DESC, playground_id ASC
    );
CREATE TABLE snapshot_catalog_records (
    tenant_id TEXT NOT NULL,
    project_id TEXT NOT NULL,
    artifact_id TEXT NOT NULL,
    snapshot_id TEXT NOT NULL,
    snapshot_request_id TEXT NOT NULL,
    commit_digest BLOB NOT NULL CHECK (length(commit_digest) = 32),
    storage_volume_id TEXT NOT NULL,
    region TEXT NOT NULL,
    state TEXT NOT NULL CHECK (state IN ('creating', 'ready', 'abnormal')),
    phase TEXT NOT NULL CHECK (phase IN ('planning', 'materializing', 'verifying', 'idle')),
    relative_root TEXT NOT NULL CHECK (
        relative_root <> '' AND substr(relative_root, 1, 1) <> '/'
    ),
    created_at_unix_ms INTEGER NOT NULL CHECK (created_at_unix_ms >= 0),
    updated_at_unix_ms INTEGER NOT NULL CHECK (updated_at_unix_ms >= created_at_unix_ms),
    PRIMARY KEY (tenant_id, snapshot_id),
    UNIQUE (tenant_id, snapshot_request_id),
    UNIQUE (tenant_id, project_id, artifact_id, commit_digest, storage_volume_id),
    FOREIGN KEY (tenant_id, project_id, artifact_id)
        REFERENCES artifact_catalog_records(tenant_id, project_id, artifact_id),
    FOREIGN KEY (tenant_id, storage_volume_id)
        REFERENCES storage_volume_catalog_records(tenant_id, storage_volume_id)
) STRICT;
CREATE INDEX snapshot_catalog_keyset
    ON snapshot_catalog_records (tenant_id, created_at_unix_ms DESC, snapshot_id ASC);
CREATE INDEX snapshot_catalog_filter_keyset
    ON snapshot_catalog_records (
        tenant_id, project_id, artifact_id, region, state,
        created_at_unix_ms DESC, snapshot_id ASC
    );
