UPDATE index_publications
SET request_payload = CAST(json_set(
    CAST(request_payload AS TEXT), '$.value.index_key.project_id',
    (SELECT json_extract(CAST(job.payload AS TEXT), '$.value.spec.project_id')
     FROM control_jobs AS job
     WHERE job.tenant_id = index_publications.tenant_id
       AND job.job_id = index_publications.job_id)) AS BLOB)
WHERE json_extract(
    CAST(request_payload AS TEXT), '$.value.index_key.project_id'
) IS NULL;

SELECT count(*) FROM index_publications
WHERE json_type(
          CAST(request_payload AS TEXT), '$.value.index_key.project_id'
      ) IS NULL
   OR json_type(
          CAST(request_payload AS TEXT), '$.value.index_key.project_id'
      ) <> 'text'
   OR json_extract(
          CAST(request_payload AS TEXT), '$.value.index_key.project_id'
      ) = '';

SELECT count(*)
FROM index_publications AS publication
JOIN control_jobs AS job
  ON job.tenant_id = publication.tenant_id
 AND job.job_id = publication.job_id
WHERE json_extract(
          CAST(publication.request_payload AS TEXT),
          '$.value.index_key.tenant_id'
      ) <> json_extract(CAST(job.payload AS TEXT), '$.value.spec.tenant_id')
   OR json_extract(
          CAST(publication.request_payload AS TEXT),
          '$.value.index_key.project_id'
      ) <> json_extract(CAST(job.payload AS TEXT), '$.value.spec.project_id')
   OR json_extract(
          CAST(publication.request_payload AS TEXT),
          '$.value.index_key.artifact_id'
      ) <> json_extract(CAST(job.payload AS TEXT), '$.value.spec.artifact_id')
   OR json_extract(
          CAST(publication.request_payload AS TEXT),
          '$.value.index_key.playground_id'
      ) <> json_extract(CAST(job.payload AS TEXT), '$.value.spec.playground_id');

CREATE TABLE index_projects_v4_migration (
    tenant_id TEXT NOT NULL,
    artifact_id TEXT NOT NULL,
    playground_id TEXT NOT NULL,
    project_id TEXT NOT NULL,
    PRIMARY KEY (tenant_id, artifact_id, playground_id)
) STRICT;

INSERT INTO index_projects_v4_migration
(tenant_id, artifact_id, playground_id, project_id)
SELECT json_extract(
           CAST(request_payload AS TEXT), '$.value.index_key.tenant_id'
       ),
       json_extract(
           CAST(request_payload AS TEXT), '$.value.index_key.artifact_id'
       ),
       json_extract(
           CAST(request_payload AS TEXT), '$.value.index_key.playground_id'
       ),
       min(json_extract(
           CAST(request_payload AS TEXT), '$.value.index_key.project_id'
       ))
FROM index_publications
WHERE json_type(CAST(outcome_payload AS TEXT), '$.value.Published') IS NOT NULL
GROUP BY 1, 2, 3
HAVING count(DISTINCT json_extract(
           CAST(request_payload AS TEXT), '$.value.index_key.project_id'
       )) = 1;

SELECT count(*)
FROM playground_indexes AS old
LEFT JOIN index_projects_v4_migration AS mapped
  ON mapped.tenant_id = old.tenant_id
 AND mapped.artifact_id = old.artifact_id
 AND mapped.playground_id = old.playground_id
WHERE mapped.project_id IS NULL;

ALTER TABLE playground_index_records RENAME TO playground_index_records_v3;

ALTER TABLE playground_indexes RENAME TO playground_indexes_v3;

CREATE TABLE playground_indexes (
    tenant_id TEXT NOT NULL,
    project_id TEXT NOT NULL,
    artifact_id TEXT NOT NULL,
    playground_id TEXT NOT NULL,
    revision TEXT NOT NULL CHECK (revision <> '' AND revision NOT GLOB '*[^0-9]*'),
    digest BLOB NOT NULL CHECK (length(digest) = 32),
    PRIMARY KEY (tenant_id, project_id, artifact_id, playground_id)
) STRICT;

CREATE TABLE playground_index_records (
    tenant_id TEXT NOT NULL,
    project_id TEXT NOT NULL,
    artifact_id TEXT NOT NULL,
    playground_id TEXT NOT NULL,
    path TEXT NOT NULL,
    manifest_id BLOB NOT NULL CHECK (length(manifest_id) = 32),
    total_size TEXT NOT NULL CHECK (total_size <> '' AND total_size NOT GLOB '*[^0-9]*'),
    chunk_count TEXT NOT NULL CHECK (chunk_count <> '' AND chunk_count NOT GLOB '*[^0-9]*'),
    PRIMARY KEY (tenant_id, project_id, artifact_id, playground_id, path),
    FOREIGN KEY (tenant_id, project_id, artifact_id, playground_id)
        REFERENCES playground_indexes (tenant_id, project_id, artifact_id, playground_id)
        ON DELETE CASCADE
) STRICT;

INSERT INTO playground_indexes
(tenant_id, project_id, artifact_id, playground_id, revision, digest)
SELECT old.tenant_id, mapped.project_id, old.artifact_id, old.playground_id,
       old.revision, old.digest
FROM playground_indexes_v3 AS old
JOIN index_projects_v4_migration AS mapped
  ON mapped.tenant_id = old.tenant_id
 AND mapped.artifact_id = old.artifact_id
 AND mapped.playground_id = old.playground_id;

INSERT INTO playground_index_records
(tenant_id, project_id, artifact_id, playground_id, path, manifest_id, total_size,
 chunk_count)
SELECT old.tenant_id, mapped.project_id, old.artifact_id, old.playground_id,
       old.path, old.manifest_id, old.total_size, old.chunk_count
FROM playground_index_records_v3 AS old
JOIN index_projects_v4_migration AS mapped
  ON mapped.tenant_id = old.tenant_id
 AND mapped.artifact_id = old.artifact_id
 AND mapped.playground_id = old.playground_id;

DROP TABLE playground_index_records_v3;

DROP TABLE playground_indexes_v3;

DROP TABLE index_projects_v4_migration;

PRAGMA user_version = 4;
