//! The sensor polling server: its settings, sensor definitions, the history
//! of readings, and the decisions of its polling loop and client sessions.
pub mod history;
pub mod session;
pub mod expr;
pub mod ads1115;
pub mod sensors;
pub mod settings;
