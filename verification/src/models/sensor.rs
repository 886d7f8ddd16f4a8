//! Temperature readings.
use vstd::prelude::*;
use crate::float_bits;
use crate::models::validation::{
    checked, id_format_check, not_future_check, range_check, then_check, validate_id_format,
    validate_range, validate_timestamp_not_after, Checked, Validate, ValidationError,
};
use crate::time::{seconds_between, Timestamp};

verus! {

/// Bit pattern of `5.0`, the highest voltage the converter reports.
pub const MAX_VOLTAGE_BITS: u64 = 0x4014_0000_0000_0000;

/// Bit pattern of `-100.0`, the lowest plausible temperature (°C).
pub const MIN_TEMPERATURE_BITS: u64 = 0xC059_0000_0000_0000;

/// Bit pattern of `500.0`, the highest plausible temperature (°C).
pub const MAX_TEMPERATURE_BITS: u64 = 0x407F_4000_0000_0000;

/// A reading of a temperature probe through the ADS1115 converter. The
/// voltage and temperature are `f64` bit patterns (see
/// [`crate::float_bits`]).
#[derive(Debug)]
pub struct SensorReading {
    /// Identifier of the probe (e.g. `temp_probe_1`).
    pub sensor_id: String,
    /// When the reading was taken.
    pub timestamp: Timestamp,
    /// Volts measured (0.0 to 5.0).
    pub voltage: u64,
    /// Degrees Celsius computed from the voltage.
    pub temperature_celsius: u64,
    /// The converter's raw value.
    pub raw_adc_value: Option<u16>,
}

/// The outcome of validating a reading of probe `sensor_id` at `ts` with
/// the given voltage and temperature, when the clock reads `now`.
pub open spec fn reading_check(sensor_id: Seq<char>, ts: int, voltage: u64, temperature: u64, now: int) -> Checked {
    then_check(
        id_format_check("sensor_id"@, sensor_id),
        then_check(
            not_future_check("timestamp"@, ts, now),
            then_check(
                range_check("voltage"@, voltage, float_bits::ZERO_BITS, MAX_VOLTAGE_BITS),
                range_check(
                    "temperature_celsius"@,
                    temperature,
                    MIN_TEMPERATURE_BITS,
                    MAX_TEMPERATURE_BITS,
                ),
            ),
        ),
    )
}

impl SensorReading {
    /// A copy of the reading.
    pub fn duplicate(&self) -> (r: SensorReading)
        ensures
            r.sensor_id == self.sensor_id,
            r.timestamp@ == self.timestamp@,
            r.voltage == self.voltage,
            r.temperature_celsius == self.temperature_celsius,
            r.raw_adc_value == self.raw_adc_value,
    {
        SensorReading {
            sensor_id: self.sensor_id.clone(),
            timestamp: self.timestamp.copy(),
            voltage: self.voltage,
            temperature_celsius: self.temperature_celsius,
            raw_adc_value: self.raw_adc_value,
        }
    }

    /// Checks the reading against the clock reading `now`.
    pub fn validate_at(&self, now: &Timestamp) -> (r: Result<(), ValidationError>)
        ensures
            checked(r) == reading_check(
                self.sensor_id@,
                self.timestamp@,
                self.voltage,
                self.temperature_celsius,
                now@,
            ),
    {
        validate_id_format("sensor_id", self.sensor_id.as_str())?;
        validate_timestamp_not_after("timestamp", &self.timestamp, now)?;
        validate_range("voltage", self.voltage, float_bits::ZERO_BITS, MAX_VOLTAGE_BITS)?;
        validate_range(
            "temperature_celsius",
            self.temperature_celsius,
            MIN_TEMPERATURE_BITS,
            MAX_TEMPERATURE_BITS,
        )?;
        Ok(())
    }

    /// A reading taken at `timestamp`; it must pass validation by the clock
    /// now.
    pub fn with_timestamp(
        sensor_id: String,
        timestamp: Timestamp,
        voltage: u64,
        temperature_celsius: u64,
        raw_adc_value: Option<u16>,
    ) -> (r: Result<SensorReading, ValidationError>)
        ensures
            exists|now: int|
                match r {
                    Ok(_) => reading_check(sensor_id@, timestamp@, voltage, temperature_celsius, now) is Ok,
                    Err(e) => #[trigger] reading_check(
                        sensor_id@,
                        timestamp@,
                        voltage,
                        temperature_celsius,
                        now,
                    ) == Err::<(), _>(e@),
                },
            r matches Ok(s) ==> {
                &&& s.sensor_id == sensor_id
                &&& s.timestamp@ == timestamp@
                &&& s.voltage == voltage
                &&& s.temperature_celsius == temperature_celsius
                &&& s.raw_adc_value == raw_adc_value
            },
    {
        let reading = SensorReading { sensor_id, timestamp, voltage, temperature_celsius, raw_adc_value };
        let now = Timestamp::now();
        match reading.validate_at(&now) {
            Ok(()) => Ok(reading),
            Err(e) => Err(e),
        }
    }

    /// A reading taken now; it must pass validation.
    pub fn new(sensor_id: String, voltage: u64, temperature_celsius: u64, raw_adc_value: Option<u16>) -> (r:
        Result<SensorReading, ValidationError>)
        ensures
            exists|ts: int, now: int|
                #![trigger reading_check(sensor_id@, ts, voltage, temperature_celsius, now)]
                match r {
                    Ok(s) => s.timestamp@ == ts && reading_check(
                        sensor_id@,
                        ts,
                        voltage,
                        temperature_celsius,
                        now,
                    ) is Ok,
                    Err(e) => reading_check(sensor_id@, ts, voltage, temperature_celsius, now) == Err::<
                        (),
                        _,
                    >(e@),
                },
            r matches Ok(s) ==> {
                &&& s.sensor_id == sensor_id
                &&& s.voltage == voltage
                &&& s.temperature_celsius == temperature_celsius
                &&& s.raw_adc_value == raw_adc_value
            },
    {
        let ts = Timestamp::now();
        SensorReading::with_timestamp(sensor_id, ts, voltage, temperature_celsius, raw_adc_value)
    }

    /// Whether the temperature is above `threshold` (an `f64` bit pattern).
    pub fn is_overheating(&self, threshold: u64) -> (r: bool)
        ensures
            r == float_bits::lt(threshold, self.temperature_celsius),
    {
        float_bits::bits_lt(threshold, self.temperature_celsius)
    }

    /// Whether the temperature is below `threshold` (an `f64` bit pattern).
    pub fn is_underheating(&self, threshold: u64) -> (r: bool)
        ensures
            r == float_bits::lt(self.temperature_celsius, threshold),
    {
        float_bits::bits_lt(self.temperature_celsius, threshold)
    }

    /// Whole seconds from the reading to the present (rounded toward zero).
    pub fn age_seconds(&self) -> (s: i64)
        ensures
            exists|now: int| s == #[trigger] seconds_between(now, self.timestamp@),
    {
        let now = Timestamp::now();
        let s = now.whole_seconds_since(&self.timestamp);
        assert(s == seconds_between(now@, self.timestamp@));
        s
    }
}

impl Validate for SensorReading {
    /// Checks the id, that the reading is not from the future, and the
    /// voltage and temperature ranges, in that order.
    fn validate(&self) -> (r: Result<(), ValidationError>)
        ensures
            exists|now: int|
                checked(r) == #[trigger] reading_check(
                    self.sensor_id@,
                    self.timestamp@,
                    self.voltage,
                    self.temperature_celsius,
                    now,
                ),
    {
        let now = Timestamp::now();
        self.validate_at(&now)
    }
}

} // verus!
