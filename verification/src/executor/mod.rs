//! Script execution: the backends that run skill scripts in a sandbox, the
//! requests and limits they take, and the manager that routes a script to a
//! backend by its file extension.

pub mod error;
pub mod traits;
pub mod types;
pub mod manager;
pub mod deno;
pub mod docker;
pub mod native;
pub mod wasmtime;
