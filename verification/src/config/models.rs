//! The configuration model.
use vstd::prelude::*;
use crate::named_map::NamedMap;

verus! {

/// The whole application configuration.
#[derive(Debug, Clone)]
pub struct AppConfig {
    /// The file the configuration was loaded from, if any.
    pub loaded_from: Option<String>,
    pub server: ServerConfig,
    pub hardware: HardwareConfig,
    pub temp_sensors: NamedMap<TempSensorConfig>,
    pub fans: NamedMap<FanConfig>,
    pub alarms: NamedMap<AlarmConfig>,
    pub data_retention: DataRetentionConfig,
}

/// Settings of the web server.
#[derive(Debug, Clone)]
pub struct ServerConfig {
    pub host: String,
    pub port: u16,
    pub cors_origins: Vec<String>,
    pub request_timeout_seconds: u64,
    /// The directory that configuration backups are written to.
    pub config_backup_dir: String,
}

/// Settings of the attached hardware.
#[derive(Debug, Clone)]
pub struct HardwareConfig {
    pub ads1115: ADS1115Config,
    /// Run without hardware, for development and testing.
    pub mock_mode: bool,
}

/// Gain of the ADS1115 converter, by its full-scale range.
#[derive(Debug, Clone, Copy, PartialEq, Eq, Structural)]
pub enum ADSGain {
    /// The measurable range is ±6.144V.
    TwoThirds,
    /// The measurable range is ±4.096V.
    One,
    /// The measurable range is ±2.048V (the default).
    Two,
    /// The measurable range is ±1.024V.
    Four,
    /// The measurable range is ±0.512V.
    Eight,
    /// The measurable range is ±0.256V.
    Sixteen,
}

/// Input channel of the ADS1115 converter.
#[derive(Debug, Clone, Copy, PartialEq, Eq, Structural)]
pub enum ADSChannel {
    A0,
    A1,
    A2,
    A3,
}

/// Samples per second of the ADS1115 converter.
#[derive(Debug, Clone, Copy, PartialEq, Eq, Structural)]
pub enum ADSDataRate {
    Rate8SPS,
    Rate16SPS,
    Rate32SPS,
    Rate64SPS,
    Rate128SPS,
    Rate250SPS,
    Rate475SPS,
    Rate860SPS,
}

/// Settings of the ADS1115 converter.
#[derive(Debug, Clone)]
pub struct ADS1115Config {
    /// The I2C bus that the converter is connected to.
    pub i2c_bus: Option<u8>,
    /// The converter's I2C address.
    pub address: Option<u16>,
    pub gain: ADSGain,
    pub data_rate: ADSDataRate,
    pub poll_interval_ms: u64,
}

/// A temperature probe.
#[derive(Debug, Clone)]
pub struct TempSensorConfig {
    pub ads_channel: ADSChannel,
    /// Conversion from volts to degrees Celsius.
    pub conversion_formula: String,
    /// The probe's name (its key in the configuration).
    pub name: String,
}

/// A PWM-driven fan.
#[derive(Debug, Clone)]
pub struct FanConfig {
    pub pwm_pin: u8,
    pub frequency_hz: u32,
    pub duty_cycle_formulas: Vec<ConditionalFormula>,
    /// The fan's name (its key in the configuration).
    pub name: String,
}

/// A formula that applies when its optional condition holds.
#[derive(Debug, Clone)]
pub struct ConditionalFormula {
    pub when: Option<String>,
    pub value: String,
}

/// An alarm.
#[derive(Debug, Clone)]
pub struct AlarmConfig {
    /// The alarm's name (its key in the configuration).
    pub name: String,
    pub condition: String,
    pub message: String,
    pub actions: Vec<String>,
    pub enabled: bool,
}

/// Limits on the data kept in memory. The two fractions are `f64` bit
/// patterns (see [`crate::float_bits`]).
#[derive(Debug, Clone)]
pub struct DataRetentionConfig {
    pub max_age_hours: u64,
    pub max_memory_mb: u64,
    pub cleanup_threshold_percent: u64,
    pub cleanup_percentage: u64,
}

impl ADSChannel {
    /// The channel's number.
    pub fn number(&self) -> (n: u8)
        ensures
            n == match self {
                ADSChannel::A0 => 0u8,
                ADSChannel::A1 => 1u8,
                ADSChannel::A2 => 2u8,
                ADSChannel::A3 => 3u8,
            },
    {
        match self {
            ADSChannel::A0 => 0,
            ADSChannel::A1 => 1,
            ADSChannel::A2 => 2,
            ADSChannel::A3 => 3,
        }
    }

    /// The channel with number `n`, if there is one.
    pub fn from_number(n: u8) -> (c: Option<ADSChannel>)
        ensures
            c is Some <==> n < 4,
            c matches Some(ch) ==> ch.number_spec() == n,
    {
        match n {
            0 => Some(ADSChannel::A0),
            1 => Some(ADSChannel::A1),
            2 => Some(ADSChannel::A2),
            3 => Some(ADSChannel::A3),
            _ => None,
        }
    }

    /// The channel's number.
    pub open spec fn number_spec(&self) -> u8 {
        match self {
            ADSChannel::A0 => 0u8,
            ADSChannel::A1 => 1u8,
            ADSChannel::A2 => 2u8,
            ADSChannel::A3 => 3u8,
        }
    }
}

impl ADSDataRate {
    /// The samples per second.
    pub open spec fn sps_spec(&self) -> u16 {
        match self {
            ADSDataRate::Rate8SPS => 8u16,
            ADSDataRate::Rate16SPS => 16u16,
            ADSDataRate::Rate32SPS => 32u16,
            ADSDataRate::Rate64SPS => 64u16,
            ADSDataRate::Rate128SPS => 128u16,
            ADSDataRate::Rate250SPS => 250u16,
            ADSDataRate::Rate475SPS => 475u16,
            ADSDataRate::Rate860SPS => 860u16,
        }
    }

    /// The samples per second.
    pub fn samples_per_second(&self) -> (n: u16)
        ensures
            n == self.sps_spec(),
    {
        match self {
            ADSDataRate::Rate8SPS => 8,
            ADSDataRate::Rate16SPS => 16,
            ADSDataRate::Rate32SPS => 32,
            ADSDataRate::Rate64SPS => 64,
            ADSDataRate::Rate128SPS => 128,
            ADSDataRate::Rate250SPS => 250,
            ADSDataRate::Rate475SPS => 475,
            ADSDataRate::Rate860SPS => 860,
        }
    }

    /// The rate of `n` samples per second, if it is one of the eight.
    pub fn from_samples_per_second(n: u16) -> (r: Option<ADSDataRate>)
        ensures
            r is Some <==> (n == 8 || n == 16 || n == 32 || n == 64 || n == 128 || n == 250 || n
                == 475 || n == 860),
            r matches Some(rate) ==> rate.sps_spec() == n,
    {
        match n {
            8 => Some(ADSDataRate::Rate8SPS),
            16 => Some(ADSDataRate::Rate16SPS),
            32 => Some(ADSDataRate::Rate32SPS),
            64 => Some(ADSDataRate::Rate64SPS),
            128 => Some(ADSDataRate::Rate128SPS),
            250 => Some(ADSDataRate::Rate250SPS),
            475 => Some(ADSDataRate::Rate475SPS),
            860 => Some(ADSDataRate::Rate860SPS),
            _ => None,
        }
    }
}

impl Default for ADSGain {
    fn default() -> (g: ADSGain)
        ensures
            g == ADSGain::Two,
    {
        ADSGain::Two
    }
}

impl Default for ADSChannel {
    fn default() -> (c: ADSChannel)
        ensures
            c == ADSChannel::A0,
    {
        ADSChannel::A0
    }
}

impl Default for ADSDataRate {
    fn default() -> (r: ADSDataRate)
        ensures
            r == ADSDataRate::Rate128SPS,
    {
        ADSDataRate::Rate128SPS
    }
}

impl Default for ServerConfig {
    fn default() -> (c: ServerConfig)
        ensures
            c.host@ == "0.0.0.0"@,
            c.port == 3000,
            c.cors_origins@.len() == 1,
            c.cors_origins@[0]@ == "*"@,
            c.request_timeout_seconds == 30,
            c.config_backup_dir@ == "config_backup"@,
    {
        let mut cors_origins = Vec::new();
        cors_origins.push(String::from_str("*"));
        ServerConfig {
            host: String::from_str("0.0.0.0"),
            port: 3000,
            cors_origins,
            request_timeout_seconds: 30,
            config_backup_dir: String::from_str("config_backup"),
        }
    }
}

impl Default for ADS1115Config {
    fn default() -> (c: ADS1115Config)
        ensures
            c.i2c_bus == Some(1u8),
            c.address == Some(0x48u16),
            c.gain == ADSGain::Two,
            c.data_rate == ADSDataRate::Rate128SPS,
            c.poll_interval_ms == 1000,
    {
        ADS1115Config {
            i2c_bus: Some(1),
            address: Some(0x48),
            gain: ADSGain::Two,
            data_rate: ADSDataRate::Rate128SPS,
            poll_interval_ms: 1000,
        }
    }
}

impl Default for HardwareConfig {
    fn default() -> (c: HardwareConfig)
        ensures
            c.ads1115.i2c_bus == Some(1u8),
            c.ads1115.address == Some(0x48u16),
            c.ads1115.gain == ADSGain::Two,
            c.ads1115.data_rate == ADSDataRate::Rate128SPS,
            c.ads1115.poll_interval_ms == 1000,
            c.mock_mode,
    {
        HardwareConfig { ads1115: ADS1115Config::default(), mock_mode: true }
    }
}

impl Default for DataRetentionConfig {
    fn default() -> (c: DataRetentionConfig)
        ensures
            c.max_age_hours == 168,
            c.max_memory_mb == 1024,
            c.cleanup_threshold_percent == 0x3FE9_9999_9999_999Au64,
            c.cleanup_percentage == 0x3FC9_9999_9999_999Au64,
    {
        DataRetentionConfig {
            max_age_hours: 24 * 7,
            max_memory_mb: 1024,
            cleanup_threshold_percent: 0x3FE9_9999_9999_999A,
            cleanup_percentage: 0x3FC9_9999_9999_999A,
        }
    }
}

impl Default for AppConfig {
    fn default() -> (c: AppConfig)
        ensures
            c.loaded_from is None,
            c.server.host@ == "0.0.0.0"@,
            c.server.port == 3000,
            c.server.cors_origins@.len() == 1,
            c.server.cors_origins@[0]@ == "*"@,
            c.server.request_timeout_seconds == 30,
            c.server.config_backup_dir@ == "config_backup"@,
            c.hardware.mock_mode,
            c.hardware.ads1115.poll_interval_ms == 1000,
            c.hardware.ads1115.i2c_bus == Some(1u8),
            c.hardware.ads1115.address == Some(0x48u16),
            c.temp_sensors@.len() == 0,
            c.fans@.len() == 0,
            c.alarms@.len() == 0,
            c.data_retention.max_age_hours == 168,
            c.data_retention.max_memory_mb == 1024,
            c.data_retention.cleanup_threshold_percent == 0x3FE9_9999_9999_999Au64,
            c.data_retention.cleanup_percentage == 0x3FC9_9999_9999_999Au64,
    {
        AppConfig {
            loaded_from: None,
            server: ServerConfig::default(),
            hardware: HardwareConfig::default(),
            temp_sensors: NamedMap::new(),
            fans: NamedMap::new(),
            alarms: NamedMap::new(),
            data_retention: DataRetentionConfig::default(),
        }
    }
}

} // verus!
