//! Mail ingestion engine.
//!
//! - `vault`: the service passphrase and the authenticated encryption of
//!   mailbox passwords.
//! - `translate`: turns one fetch result into a normalised message record.
//! - `sync`: the per-mailbox synchronisation algorithm (first sync in
//!   batches, incremental sync by UID) as a state machine.
//! - `laws`: what ingestion does to a mailbox's stored rows, and its laws.
//! - `scheduler`: when passes over all mailboxes start.
//! - `models`, `api`: the records the engine stores and the interface shows.
//! - `text`: UTF-8 and string helpers.

pub mod text;
pub mod vault;
pub mod models;
pub mod translate;
pub mod sync;
pub mod laws;
pub mod scheduler;
pub mod api;
