//! The configuration API: what may change while the gateway runs, how a
//! requested change is validated and applied, what changed between two
//! configurations, which services must reload, and the sanitized view of the
//! configuration that the API shows.

pub mod types;
pub mod validate;
pub mod update;
pub mod diff;
pub mod reload;
pub mod persist;
pub mod sanitize;
pub mod watcher;
pub mod handlers;
pub mod schema;
