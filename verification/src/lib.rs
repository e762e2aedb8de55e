//! What a build server keeps in PostgreSQL, and the decisions it takes on it.
//!
//! The functions here take what the database answered, as plain values, and say what follows: what is read
//! out of a row, what a request comes to, which statement is next and what is written. Reading and writing
//! are left to the caller, so that every decision can be stated and proved.

pub mod accept_trigger;
pub mod agent_credential;
pub mod agent_mutation;
pub mod agent_query;
pub mod agent_registration;
pub mod artifact;
pub mod attempt_materialization;
pub mod audit_query;
pub mod build_configuration;
pub mod build_query;
pub mod cache_data;
pub mod cache_session;
pub mod cancel_build;
pub mod database;
pub mod decimal;
pub mod document;
pub mod domain;
pub mod external_trigger;
pub mod fingerprint;
pub mod hash;
pub mod identity_text;
pub mod internal_trigger;
pub mod internal_trigger_definition;
pub mod job_claim;
pub mod job_completion;
pub mod job_event_query;
pub mod job_events;
pub mod lease;
pub mod lease_heartbeat;
pub mod lease_recovery;
pub mod log_chunk;
pub mod log_index_work;
pub mod log_search;
pub mod migration;
pub mod mutation;
pub mod orchestration;
pub mod ordered;
pub mod page;
pub mod pipeline;
pub mod policy;
pub mod pool;
pub mod project;
pub mod refusal;
pub mod repository;
pub mod retention;
pub mod retention_hold;
pub mod retention_orphan;
pub mod retry_build;
pub mod schedule;
pub mod state;
pub mod text;
pub mod trigger_definition;
pub mod versioned;
pub mod webhook_delivery;

pub use log_search::LogSearchRebuildSummary;
pub use migration::{health_check, migration_status, MigrationStatus, READY_JOB_NOTIFICATION_CHANNEL};
