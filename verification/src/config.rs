//! Application configuration: its model, validation, and the rules applied
//! when a configuration is loaded, overridden from the command line, or
//! replaced.
pub mod error;
pub mod models;
pub mod validation;
pub mod loader;
pub mod backups;
pub mod patch;
pub mod cli;
