//! Per-client theming for a small admin application: a registry of named
//! themes, a directory of clients, and the rules that resolve which theme and
//! which stylesheets a client gets; plus the login gate's decision.
pub mod config;
pub mod laws;
pub mod login;
pub mod theme;
