//! Verified core of a command-line client for the Forma benefits API.

pub mod text;
pub mod error;
pub mod forma;
pub mod claims;
pub mod http;
pub mod config;
pub mod commands;
