# neoengramd

The control plane of a content store: it takes Add jobs from users, hands them to Agents, publishes
what the Agents prepared as versions of an Index, and keeps the enrollment of Agents, the Volumes
they own and the catalog of Tenants, Artifacts, Playgrounds and Snapshots.

## Layout

- `src/` is the library. Every decision stands there as a function with a contract, checked by
  Verus: what a request does to a job or an enrollment, what the stores accept, what a stored row
  must look like. The modules named `laws` state what holds across several steps.
- `tests/` runs the library.
- `app/` is the service around it: the storage ports, the services that load, decide and store,
  and the in-memory and SQLite stores.
- `extras/sql/` holds the scripts of the two SQLite databases: the current layouts, and the steps
  to them that are plain statements. The service is given their text when it opens a database.
