//! Fan states.
use vstd::prelude::*;
use crate::float_bits;
use crate::models::validation::{
    checked, id_format_check, not_future_check, range_check, then_check, validate_id_format,
    validate_range, validate_timestamp_not_after, Checked, Validate, ValidationError,
};
use crate::time::{seconds_between, Timestamp};

verus! {

/// Bit pattern of `100000.0`, the highest PWM frequency (Hz).
pub const MAX_FREQUENCY_BITS: u64 = 0x40F8_6A00_0000_0000;

/// The state of a PWM-driven fan. The duty cycle is an `f64` bit pattern
/// (see [`crate::float_bits`]).
#[derive(Debug)]
pub struct FanState {
    /// Identifier of the fan (e.g. `intake_fan`).
    pub fan_id: String,
    /// PWM duty cycle, from 0.0 (off) to 1.0 (full speed).
    pub duty_cycle: u64,
    /// PWM frequency in Hz.
    pub pwm_frequency_hz: u32,
    /// When this state was set.
    pub timestamp: Timestamp,
    /// Whether the state was set by hand rather than by the controller.
    pub is_manual_override: bool,
}

/// The outcome of validating a fan state, when the clock reads `now`.
pub open spec fn fan_check(fan_id: Seq<char>, duty_cycle: u64, frequency: u32, ts: int, now: int) -> Checked {
    then_check(
        id_format_check("fan_id"@, fan_id),
        then_check(
            not_future_check("timestamp"@, ts, now),
            then_check(
                range_check("duty_cycle"@, duty_cycle, float_bits::ZERO_BITS, float_bits::ONE_BITS),
                range_check(
                    "pwm_frequency_hz"@,
                    float_bits::u32_as_f64_bits(frequency),
                    float_bits::ONE_BITS,
                    MAX_FREQUENCY_BITS,
                ),
            ),
        ),
    )
}

/// What a constructor of fan states promises: the check passed or failed by
/// some reading of the clock, and a state built holds the given values.
pub open spec fn built_state(
    r: Result<FanState, ValidationError>,
    fan_id: String,
    duty_cycle: u64,
    frequency: u32,
    is_manual_override: bool,
) -> bool {
    &&& exists|ts: int, now: int|
        #![trigger fan_check(fan_id@, duty_cycle, frequency, ts, now)]
        match r {
            Ok(s) => s.timestamp@ == ts && fan_check(fan_id@, duty_cycle, frequency, ts, now) is Ok,
            Err(e) => fan_check(fan_id@, duty_cycle, frequency, ts, now) == Err::<(), _>(e@),
        }
    &&& r matches Ok(s) ==> {
        &&& s.fan_id == fan_id
        &&& s.duty_cycle == duty_cycle
        &&& s.pwm_frequency_hz == frequency
        &&& s.is_manual_override == is_manual_override
    }
}

impl FanState {
    /// A copy of the state.
    pub fn duplicate(&self) -> (r: FanState)
        ensures
            r.fan_id == self.fan_id,
            r.duty_cycle == self.duty_cycle,
            r.pwm_frequency_hz == self.pwm_frequency_hz,
            r.timestamp@ == self.timestamp@,
            r.is_manual_override == self.is_manual_override,
    {
        FanState {
            fan_id: self.fan_id.clone(),
            duty_cycle: self.duty_cycle,
            pwm_frequency_hz: self.pwm_frequency_hz,
            timestamp: self.timestamp.copy(),
            is_manual_override: self.is_manual_override,
        }
    }

    /// Checks the state against the clock reading `now`.
    pub fn validate_at(&self, now: &Timestamp) -> (r: Result<(), ValidationError>)
        ensures
            checked(r) == fan_check(
                self.fan_id@,
                self.duty_cycle,
                self.pwm_frequency_hz,
                self.timestamp@,
                now@,
            ),
    {
        validate_id_format("fan_id", self.fan_id.as_str())?;
        validate_timestamp_not_after("timestamp", &self.timestamp, now)?;
        validate_range("duty_cycle", self.duty_cycle, float_bits::ZERO_BITS, float_bits::ONE_BITS)?;
        validate_range(
            "pwm_frequency_hz",
            float_bits::u32_to_f64_bits(self.pwm_frequency_hz),
            float_bits::ONE_BITS,
            MAX_FREQUENCY_BITS,
        )?;
        Ok(())
    }

    /// A state set at `timestamp`; it must pass validation by the clock now.
    pub fn with_timestamp(
        fan_id: String,
        duty_cycle: u64,
        pwm_frequency_hz: u32,
        timestamp: Timestamp,
        is_manual_override: bool,
    ) -> (r: Result<FanState, ValidationError>)
        ensures
            exists|now: int|
                match r {
                    Ok(_) => fan_check(fan_id@, duty_cycle, pwm_frequency_hz, timestamp@, now) is Ok,
                    Err(e) => #[trigger] fan_check(
                        fan_id@,
                        duty_cycle,
                        pwm_frequency_hz,
                        timestamp@,
                        now,
                    ) == Err::<(), _>(e@),
                },
            r matches Ok(s) ==> {
                &&& s.fan_id == fan_id
                &&& s.duty_cycle == duty_cycle
                &&& s.pwm_frequency_hz == pwm_frequency_hz
                &&& s.timestamp@ == timestamp@
                &&& s.is_manual_override == is_manual_override
            },
    {
        let state = FanState { fan_id, duty_cycle, pwm_frequency_hz, timestamp, is_manual_override };
        let now = Timestamp::now();
        match state.validate_at(&now) {
            Ok(()) => Ok(state),
            Err(e) => Err(e),
        }
    }

    /// A state set now; it must pass validation.
    pub fn new(fan_id: String, duty_cycle: u64, pwm_frequency_hz: u32, is_manual_override: bool) -> (r:
        Result<FanState, ValidationError>)
        ensures
            built_state(r, fan_id, duty_cycle, pwm_frequency_hz, is_manual_override),
    {
        let ts = Timestamp::now();
        FanState::with_timestamp(fan_id, duty_cycle, pwm_frequency_hz, ts, is_manual_override)
    }

    /// The fan switched off: duty cycle 0.0 at 1 kHz, set by the controller.
    pub fn off(fan_id: String) -> (r: Result<FanState, ValidationError>)
        ensures
            built_state(r, fan_id, float_bits::ZERO_BITS, 1000, false),
    {
        FanState::new(fan_id, float_bits::ZERO_BITS, 1000, false)
    }

    /// The fan at full speed: duty cycle 1.0, set by the controller.
    pub fn full_speed(fan_id: String, pwm_frequency_hz: u32) -> (r: Result<FanState, ValidationError>)
        ensures
            built_state(r, fan_id, float_bits::ONE_BITS, pwm_frequency_hz, false),
    {
        FanState::new(fan_id, float_bits::ONE_BITS, pwm_frequency_hz, false)
    }

    /// Whether the duty cycle is above 0.0.
    pub fn is_running(&self) -> (r: bool)
        ensures
            r == float_bits::lt(float_bits::ZERO_BITS, self.duty_cycle),
    {
        float_bits::bits_lt(float_bits::ZERO_BITS, self.duty_cycle)
    }

    /// Whether the duty cycle is at least 1.0.
    pub fn is_full_speed(&self) -> (r: bool)
        ensures
            r == float_bits::le(float_bits::ONE_BITS, self.duty_cycle),
    {
        float_bits::bits_le(float_bits::ONE_BITS, self.duty_cycle)
    }

    /// Whole seconds from the state's instant to the present (rounded toward
    /// zero).
    pub fn age_seconds(&self) -> (s: i64)
        ensures
            exists|now: int| s == #[trigger] seconds_between(now, self.timestamp@),
    {
        let now = Timestamp::now();
        let s = now.whole_seconds_since(&self.timestamp);
        assert(s == seconds_between(now@, self.timestamp@));
        s
    }

    /// The same fan with another duty cycle, set now.
    pub fn with_duty_cycle(&self, duty_cycle: u64) -> (r: Result<FanState, ValidationError>)
        ensures
            built_state(r, self.fan_id, duty_cycle, self.pwm_frequency_hz, self.is_manual_override),
    {
        FanState::new(self.fan_id.clone(), duty_cycle, self.pwm_frequency_hz, self.is_manual_override)
    }

    /// The same state marked as set by hand, set now.
    pub fn as_manual_override(&self) -> (r: Result<FanState, ValidationError>)
        ensures
            built_state(r, self.fan_id, self.duty_cycle, self.pwm_frequency_hz, true),
    {
        FanState::new(self.fan_id.clone(), self.duty_cycle, self.pwm_frequency_hz, true)
    }

    /// The same state marked as set by the controller, set now.
    pub fn as_automatic(&self) -> (r: Result<FanState, ValidationError>)
        ensures
            built_state(r, self.fan_id, self.duty_cycle, self.pwm_frequency_hz, false),
    {
        FanState::new(self.fan_id.clone(), self.duty_cycle, self.pwm_frequency_hz, false)
    }
}

impl Validate for FanState {
    /// Checks the id, that the state is not from the future, the duty cycle
    /// and the frequency, in that order.
    fn validate(&self) -> (r: Result<(), ValidationError>)
        ensures
            exists|now: int|
                checked(r) == #[trigger] fan_check(
                    self.fan_id@,
                    self.duty_cycle,
                    self.pwm_frequency_hz,
                    self.timestamp@,
                    now,
                ),
    {
        let now = Timestamp::now();
        self.validate_at(&now)
    }
}

} // verus!
