//! The language-model side: its configuration, and the rules for talking to
//! each provider.
pub mod client;
pub mod config;
