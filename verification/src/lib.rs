//! Moss: configuration management, script execution routing and skill
//! management logic of the Moss AI agent gateway, with Verus contracts.

pub mod config;
pub mod config_api;
pub mod cli;
pub mod error;
pub mod executor;
pub mod mcp;
pub mod laws;
pub mod logging;
pub mod mcp_handlers;
pub mod ordered_map;
pub mod sys;
pub mod text;
