ALTER TABLE assignment_outbox RENAME TO assignment_outbox_v2;

CREATE TABLE assignment_outbox (
    tenant_id TEXT NOT NULL,
    assignment_id TEXT NOT NULL,
    job_id TEXT NOT NULL,
    payload BLOB NOT NULL,
    published INTEGER NOT NULL DEFAULT 0 CHECK (published IN (0, 1)),
    retired INTEGER NOT NULL DEFAULT 0 CHECK (retired IN (0, 1)),
    PRIMARY KEY (tenant_id, assignment_id),
    FOREIGN KEY (tenant_id, job_id) REFERENCES control_jobs (tenant_id, job_id),
    CHECK (retired = 0 OR published = 1)
) STRICT;

INSERT INTO assignment_outbox
(tenant_id, assignment_id, job_id, payload, published, retired)
SELECT outbox.tenant_id, outbox.assignment_id, outbox.job_id, outbox.payload,
       outbox.published,
       CASE WHEN outbox.published = 1 AND jobs.state <> 'assigned' THEN 1 ELSE 0 END
FROM assignment_outbox_v2 AS outbox
JOIN control_jobs AS jobs
  ON jobs.tenant_id = outbox.tenant_id AND jobs.job_id = outbox.job_id;

DROP TABLE assignment_outbox_v2;

PRAGMA user_version = 3;
