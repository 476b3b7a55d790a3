ALTER TABLE agent_registry_records ADD COLUMN enrollment_state TEXT NOT NULL DEFAULT 'legacy'
    CHECK (enrollment_state IN ('legacy', 'token_issued', 'pending_approval', 'approved',
    'enrolled', 'rejected', 'expired', 'revoked'));
ALTER TABLE agent_registry_records ADD COLUMN registration_kind TEXT NOT NULL DEFAULT 'legacy'
    CHECK (registration_kind IN ('legacy', 'initial', 'replacement'));
ALTER TABLE agent_registry_records ADD COLUMN enrollment_created_at_unix_ms INTEGER NOT NULL
    DEFAULT 0 CHECK (enrollment_created_at_unix_ms >= 0);
ALTER TABLE agent_registry_records ADD COLUMN display_name TEXT;
CREATE TABLE agent_bootstrap_status_watermarks ( enrollment_id TEXT NOT NULL PRIMARY KEY
    REFERENCES agent_registry_records(enrollment_id) ON DELETE CASCADE, signed_at_unix_ms INTEGER
    NOT NULL CHECK (signed_at_unix_ms >= 0) ) STRICT;
CREATE INDEX agent_registry_tenant_enrollment_keyset ON agent_registry_records ( tenant_id,
    enrollment_created_at_unix_ms DESC, enrollment_id ASC );
CREATE INDEX agent_registry_tenant_status_keyset ON agent_registry_records ( tenant_id,
    enrollment_state, registration_kind, enrollment_created_at_unix_ms DESC, enrollment_id ASC );
PRAGMA user_version = 3;
