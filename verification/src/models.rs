//! Data models: sensor readings, fan states, alarm events, statistics and API
//! responses.
pub mod validation;
pub mod alarm;
pub mod sensor;
pub mod fan;
pub mod stats;
pub mod api;
