//! The settings of the sensor polling server, and the command line of the
//! station application.
use vstd::prelude::*;
use crate::named_map::NamedMap;
use crate::server::expr::ParseableExpr;
use crate::server::sensors::SensorDef;

verus! {

/// The settings file of the polling server.
#[derive(Debug, Clone)]
pub struct Config {
    /// The temperature sensors, by name.
    pub temp_sensors: NamedMap<SensorDef>,
    /// Where the fan is.
    pub fan_location: Option<String>,
    /// Seconds between polls.
    pub poll_rate: u64,
    /// Conditions on the temperatures that raise an alarm, by name.
    pub alarms: NamedMap<ParseableExpr>,
    /// Seconds of readings that the history keeps.
    pub history_size: u64,
}

/// The history kept where the settings name none: fifteen hours, in
/// seconds.
pub fn default_history_size() -> (s: u64)
    ensures
        s == 15 * 60 * 60,
{
    15 * 60 * 60
}

/// The poll interval where the settings name none: five seconds.
pub fn default_poll_rate() -> (s: u64)
    ensures
        s == 5,
{
    5
}

/// How much the station application logs.
#[derive(Debug, Clone, Copy, PartialEq, Eq, Structural)]
pub enum LogLevel {
    Error,
    Warn,
    Info,
    Debug,
    Trace,
}

/// The station application's command line.
#[derive(Debug, Clone)]
pub struct CommandlineOpts {
    /// The configuration file (`Config.yaml` by default).
    pub cfg: String,
    /// How much to log (`error` by default).
    pub log_level: LogLevel,
}

} // verus!
