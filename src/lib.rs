//! Aggregated, simplified view of the computers managed by a Jamf server:
//! session data, paginated inventory retrieval, OS freshness evaluation and
//! the mapping of raw inventory records into device summaries.
pub mod inventory;
pub mod models;
pub mod provider;
pub mod routes;
pub mod sections;
pub mod session;
pub mod version;
