//! Verified core of a Raspberry Pi smoker controller: configuration models and
//! their validation, sensor / fan / alarm data models, statistics, and the
//! decision logic of the sensor polling server.
pub mod float_bits;
pub mod time;
pub mod text;
pub mod named_map;
pub mod stable_sort;
pub mod models;
pub mod config;
pub mod server;
