//! What the durable stores write and read back: columns, rows and schema statements.
pub mod authority_rows;
pub mod catalog_rows;
pub mod codec;
pub mod commits;
pub mod datasource;
pub mod names;
pub mod registry_rows;
pub mod schema;
pub mod volume_sync;
