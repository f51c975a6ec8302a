//! A verified core for a desktop log viewer: the SQL that filters the stored
//! log entries, the statements of each user command, where the database lives,
//! and how the tray icon and the ingestion endpoint react.
pub mod sql;
pub mod text;
pub mod filters;
pub mod commands;
pub mod payloads;
pub mod config;
pub mod tray;
pub mod endpoints;
