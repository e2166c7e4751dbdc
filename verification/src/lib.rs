//! Verified core of the ARK cluster manager and node agent: configuration
//! validation, guarded operations, travel decisions, RCON framing and chat
//! parsing, systemd status parsing, and the small text utilities they share.

pub mod admin;
pub mod agent;
pub mod audit;
pub mod auth;
pub mod backup;
pub mod config;
pub mod config_edit;
pub mod dashboard;
pub mod domain;
pub mod governor;
pub mod maps;
pub mod nodes;
pub mod operations;
pub mod policy;
pub mod rcon;
pub mod resources;
pub mod runtime;
pub mod systemd;
pub mod text;
pub mod travel;
