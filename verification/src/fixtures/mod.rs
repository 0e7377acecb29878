//! Seed data for a fresh database: which fixtures run, in which order, and
//! what each one creates.
pub mod loader;
pub mod account_fixtures;
pub mod app_fixtures;
pub mod audit_log_fixtures;
pub mod entity_fixtures;
pub mod user_fixtures;
pub mod seeds;
pub mod catalog;
