//! Validation of the configuration.
use vstd::prelude::*;
use crate::config::error::{
    and_then, config_checked, failed, validation_failed, ConfigCheck, ConfigError, ConfigResult,
};
use crate::config::models::{
    ADS1115Config, AlarmConfig, AppConfig, ConditionalFormula, DataRetentionConfig, FanConfig,
    HardwareConfig, ServerConfig, TempSensorConfig,
};
use crate::float_bits;
use crate::named_map::NamedMap;
use crate::text::{decimal, utf8_len, with_decimal};

verus! {

/// A configuration part that checks its own settings.
pub trait ConfigValidator {
    /// The outcome of the check.
    spec fn validation(&self) -> ConfigCheck;

    /// Checks the settings, reporting the first that fails.
    fn validate(&self) -> (r: ConfigResult<()>)
        ensures
            config_checked(r) == self.validation(),
    ;
}

/// The first failure of `check` over the items of `s`, in order.
pub open spec fn first_failure<T>(s: Seq<T>, check: spec_fn(T) -> ConfigCheck) -> ConfigCheck
    decreases s.len(),
{
    if s.len() == 0 {
        Ok(())
    } else {
        and_then(check(s[0]), first_failure(s.drop_first(), check))
    }
}

/// Items that pass do not change the first failure.
pub proof fn lemma_first_failure_skip<T>(s: Seq<T>, check: spec_fn(T) -> ConfigCheck, i: int)
    requires
        0 <= i <= s.len(),
        forall|j: int| 0 <= j < i ==> check(#[trigger] s[j]) is Ok,
    ensures
        first_failure(s, check) == first_failure(s.skip(i), check),
    decreases i,
{
    if i > 0 {
        lemma_first_failure_skip(s, check, i - 1);
        let t = s.skip(i - 1);
        assert(t[0] == s[i - 1]);
        assert(t.drop_first() =~= s.skip(i));
    } else {
        assert(s.skip(0) =~= s);
    }
}

/// The first failure is `Ok` exactly when every item passes.
pub proof fn lemma_first_failure_ok<T>(s: Seq<T>, check: spec_fn(T) -> ConfigCheck)
    ensures
        first_failure(s, check) is Ok <==> forall|j: int| 0 <= j < s.len() ==> check(#[trigger] s[j]) is Ok,
    decreases s.len(),
{
    if s.len() > 0 {
        lemma_first_failure_ok(s.drop_first(), check);
        assert forall|j: int| 1 <= j < s.len() implies #[trigger] s[j] == s.drop_first()[j - 1] by {}
        if forall|j: int| 0 <= j < s.len() ==> check(#[trigger] s[j]) is Ok {
            assert(check(s[0]) is Ok);
            assert forall|j: int| 0 <= j < s.drop_first().len() implies check(
                #[trigger] s.drop_first()[j],
            ) is Ok by {
                assert(s.drop_first()[j] == s[j + 1]);
            }
        }
    }
}

pub open spec fn port_check(port: u16) -> ConfigCheck {
    if port < 1024 {
        failed("port"@, "Port must be between 1024 and 65535"@)
    } else {
        Ok(())
    }
}

pub open spec fn timeout_check(timeout: u64) -> ConfigCheck {
    if !(1 <= timeout && timeout <= 3600) {
        failed("request_timeout_seconds"@, "Timeout must be between 1 and 3600 seconds"@)
    } else {
        Ok(())
    }
}

pub open spec fn host_check(host: Seq<char>) -> ConfigCheck {
    if host.len() == 0 {
        failed("host"@, "Host cannot be empty"@)
    } else {
        Ok(())
    }
}

pub open spec fn backup_dir_check(dir: Seq<char>) -> ConfigCheck {
    if dir.len() == 0 {
        failed("config_backup_dir"@, "Backup directory cannot be empty"@)
    } else {
        Ok(())
    }
}

pub open spec fn poll_interval_check(interval: u64) -> ConfigCheck {
    if !(250 <= interval && interval <= 60000) {
        failed("poll_interval_ms"@, "Poll interval must be between 250ms and 60000ms"@)
    } else {
        Ok(())
    }
}

pub open spec fn i2c_address_check(address: u16) -> ConfigCheck {
    if address > 0xFF {
        failed("i2c_address"@, "I2C address must be between 0x00 and 0xFF"@)
    } else {
        Ok(())
    }
}

pub open spec fn i2c_bus_check(bus: u8) -> ConfigCheck {
    if bus > 10 {
        failed("i2c_bus"@, "I2C bus number must be reasonable (0-10)"@)
    } else {
        Ok(())
    }
}

/// GPIO pins 2 to 27 can drive PWM on a Raspberry Pi.
pub open spec fn pwm_pin_check(pin: u8) -> ConfigCheck {
    if !(2 <= pin && pin <= 27) {
        failed("pwm_pin"@, "GPIO pin "@ + decimal(pin as nat) + " is not valid for Raspberry Pi"@)
    } else {
        Ok(())
    }
}

pub open spec fn frequency_check(freq: u32) -> ConfigCheck {
    if !(1 <= freq && freq <= 100000) {
        failed("frequency_hz"@, "PWM frequency must be between 1Hz and 100kHz"@)
    } else {
        Ok(())
    }
}

/// A formula is not empty and at most 1000 bytes long.
pub open spec fn formula_check(formula: Seq<char>) -> ConfigCheck {
    if formula.len() == 0 {
        failed("formula"@, "Formula cannot be empty"@)
    } else if utf8_len(formula) > 1000 {
        failed("formula"@, "Formula is too long (max 1000 characters)"@)
    } else {
        Ok(())
    }
}

/// A fraction (an `f64` bit pattern) lies in `[0.0, 1.0]`.
pub open spec fn percentage_check(value: u64, field: Seq<char>) -> ConfigCheck {
    if !float_bits::in_range(value, float_bits::ZERO_BITS, float_bits::ONE_BITS) {
        failed(field, "Percentage value must be between 0.0 and 1.0"@)
    } else {
        Ok(())
    }
}

pub open spec fn memory_limit_check(mb: u64) -> ConfigCheck {
    if !(10 <= mb && mb <= 4096) {
        failed("max_memory_mb"@, "Memory limit must be between 10MB and 4GB"@)
    } else {
        Ok(())
    }
}

pub open spec fn age_hours_check(hours: u64) -> ConfigCheck {
    if !(1 <= hours && hours <= 8760) {
        failed("max_age_hours"@, "Age limit must be between 1 hour and 1 year"@)
    } else {
        Ok(())
    }
}

/// A name is 1 to `max` bytes long; otherwise it fails as `field` with
/// `message`.
pub open spec fn length_between_check(text: Seq<char>, max: usize, field: Seq<char>, message: Seq<char>) -> ConfigCheck {
    if text.len() == 0 || utf8_len(text) > max {
        failed(field, message)
    } else {
        Ok(())
    }
}

pub open spec fn sensor_name_check(name: Seq<char>) -> ConfigCheck {
    length_between_check(name, 50, "sensor_name"@, "Sensor name must be between 1 and 50 characters"@)
}

pub open spec fn fan_name_check(name: Seq<char>) -> ConfigCheck {
    length_between_check(name, 50, "fan_name"@, "Fan name must be between 1 and 50 characters"@)
}

pub open spec fn alarm_name_check(name: Seq<char>) -> ConfigCheck {
    length_between_check(name, 50, "alarm_name"@, "Alarm name must be between 1 and 50 characters"@)
}

pub open spec fn alarm_message_check(message: Seq<char>) -> ConfigCheck {
    length_between_check(
        message,
        500,
        "alarm_message"@,
        "Alarm message must be between 1 and 500 characters"@,
    )
}

/// There is at least one action, and every action is 1 to 100 bytes long.
pub open spec fn alarm_actions_check(actions: Seq<Seq<char>>) -> ConfigCheck {
    if actions.len() == 0 {
        failed("alarm_actions"@, "At least one alarm action must be specified"@)
    } else if exists|i: int|
        0 <= i < actions.len() && (#[trigger] actions[i].len() == 0 || utf8_len(actions[i]) > 100) {
        failed("alarm_action"@, "Alarm action must be between 1 and 100 characters"@)
    } else {
        Ok(())
    }
}

fn validate_port(port: u16) -> (r: ConfigResult<()>)
    ensures
        config_checked(r) == port_check(port),
{
    if port < 1024 {
        return Err(validation_failed("port", "Port must be between 1024 and 65535"));
    }
    Ok(())
}

fn validate_timeout(timeout: u64) -> (r: ConfigResult<()>)
    ensures
        config_checked(r) == timeout_check(timeout),
{
    if !(1 <= timeout && timeout <= 3600) {
        return Err(
            validation_failed("request_timeout_seconds", "Timeout must be between 1 and 3600 seconds"),
        );
    }
    Ok(())
}

fn validate_host(host: &str) -> (r: ConfigResult<()>)
    ensures
        config_checked(r) == host_check(host@),
{
    if host.is_empty() {
        return Err(validation_failed("host", "Host cannot be empty"));
    }
    Ok(())
}

fn validate_backup_dir(dir: &str) -> (r: ConfigResult<()>)
    ensures
        config_checked(r) == backup_dir_check(dir@),
{
    if dir.is_empty() {
        return Err(validation_failed("config_backup_dir", "Backup directory cannot be empty"));
    }
    Ok(())
}

fn validate_poll_interval(interval: u64) -> (r: ConfigResult<()>)
    ensures
        config_checked(r) == poll_interval_check(interval),
{
    if !(250 <= interval && interval <= 60000) {
        return Err(
            validation_failed("poll_interval_ms", "Poll interval must be between 250ms and 60000ms"),
        );
    }
    Ok(())
}

fn validate_i2c_address(address: u16) -> (r: ConfigResult<()>)
    ensures
        config_checked(r) == i2c_address_check(address),
{
    if address > 0xFF {
        return Err(validation_failed("i2c_address", "I2C address must be between 0x00 and 0xFF"));
    }
    Ok(())
}

fn validate_i2c_bus(bus: u8) -> (r: ConfigResult<()>)
    ensures
        config_checked(r) == i2c_bus_check(bus),
{
    if bus > 10 {
        return Err(validation_failed("i2c_bus", "I2C bus number must be reasonable (0-10)"));
    }
    Ok(())
}

fn validate_pwm_pin(pin: u8) -> (r: ConfigResult<()>)
    ensures
        config_checked(r) == pwm_pin_check(pin),
{
    if !(2 <= pin && pin <= 27) {
        return Err(
            ConfigError::ValidationFailed {
                field: String::from_str("pwm_pin"),
                message: with_decimal("GPIO pin ", pin as u64, " is not valid for Raspberry Pi"),
            },
        );
    }
    Ok(())
}

fn validate_frequency(freq: u32) -> (r: ConfigResult<()>)
    ensures
        config_checked(r) == frequency_check(freq),
{
    if !(1 <= freq && freq <= 100000) {
        return Err(validation_failed("frequency_hz", "PWM frequency must be between 1Hz and 100kHz"));
    }
    Ok(())
}

fn validate_formula(formula: &str) -> (r: ConfigResult<()>)
    ensures
        config_checked(r) == formula_check(formula@),
{
    if formula.is_empty() {
        return Err(validation_failed("formula", "Formula cannot be empty"));
    }
    if formula.len() > 1000 {
        return Err(validation_failed("formula", "Formula is too long (max 1000 characters)"));
    }
    Ok(())
}

fn validate_percentage(value: u64, field: &str) -> (r: ConfigResult<()>)
    ensures
        config_checked(r) == percentage_check(value, field@),
{
    if !float_bits::bits_in_range(value, float_bits::ZERO_BITS, float_bits::ONE_BITS) {
        return Err(validation_failed(field, "Percentage value must be between 0.0 and 1.0"));
    }
    Ok(())
}

fn validate_memory_limit(mb: u64) -> (r: ConfigResult<()>)
    ensures
        config_checked(r) == memory_limit_check(mb),
{
    if !(10 <= mb && mb <= 4096) {
        return Err(validation_failed("max_memory_mb", "Memory limit must be between 10MB and 4GB"));
    }
    Ok(())
}

fn validate_age_hours(hours: u64) -> (r: ConfigResult<()>)
    ensures
        config_checked(r) == age_hours_check(hours),
{
    if !(1 <= hours && hours <= 8760) {
        return Err(validation_failed("max_age_hours", "Age limit must be between 1 hour and 1 year"));
    }
    Ok(())
}

fn validate_length_between(text: &str, max: usize, field: &str, message: &str) -> (r: ConfigResult<()>)
    ensures
        config_checked(r) == length_between_check(text@, max, field@, message@),
{
    if text.is_empty() || text.len() > max {
        return Err(validation_failed(field, message));
    }
    Ok(())
}

fn validate_sensor_name(name: &str) -> (r: ConfigResult<()>)
    ensures
        config_checked(r) == sensor_name_check(name@),
{
    validate_length_between(name, 50, "sensor_name", "Sensor name must be between 1 and 50 characters")
}

fn validate_fan_name(name: &str) -> (r: ConfigResult<()>)
    ensures
        config_checked(r) == fan_name_check(name@),
{
    validate_length_between(name, 50, "fan_name", "Fan name must be between 1 and 50 characters")
}

fn validate_alarm_name(name: &str) -> (r: ConfigResult<()>)
    ensures
        config_checked(r) == alarm_name_check(name@),
{
    validate_length_between(name, 50, "alarm_name", "Alarm name must be between 1 and 50 characters")
}

fn validate_alarm_message(message: &str) -> (r: ConfigResult<()>)
    ensures
        config_checked(r) == alarm_message_check(message@),
{
    validate_length_between(
        message,
        500,
        "alarm_message",
        "Alarm message must be between 1 and 500 characters",
    )
}

fn validate_alarm_actions(actions: &Vec<String>) -> (r: ConfigResult<()>)
    ensures
        config_checked(r) == alarm_actions_check(actions@.map_values(|a: String| a@)),
{
    let ghost views = actions@.map_values(|a: String| a@);
    if actions.len() == 0 {
        return Err(
            validation_failed("alarm_actions", "At least one alarm action must be specified"),
        );
    }
    let n = actions.len();
    let mut i: usize = 0;
    while i < n
        invariant
            n == actions@.len(),
            views == actions@.map_values(|a: String| a@),
            i <= n,
            forall|j: int| 0 <= j < i ==> !(#[trigger] views[j].len() == 0 || utf8_len(views[j]) > 100),
        decreases n - i,
    {
        let action = &actions[i];
        assert(views[i as int] == action@);
        if action.as_str().is_empty() || action.as_str().len() > 100 {
            return Err(
                validation_failed("alarm_action", "Alarm action must be between 1 and 100 characters"),
            );
        }
        i = i + 1;
    }
    Ok(())
}

/// The check of each entry of a named part: its name, then its settings.
pub open spec fn named_entry_check<V: ConfigValidator>(
    name_check: spec_fn(Seq<char>) -> ConfigCheck,
) -> spec_fn((Seq<char>, V)) -> ConfigCheck {
    |e: (Seq<char>, V)| and_then(name_check(e.0), e.1.validation())
}

fn validate_named<V: ConfigValidator>(
    map: &NamedMap<V>,
    field: &str,
    message: &str,
) -> (r: ConfigResult<()>)
    ensures
        config_checked(r) == first_failure(
            map@,
            named_entry_check::<V>(|name: Seq<char>| length_between_check(name, 50, field@, message@)),
        ),
{
    let ghost check = named_entry_check::<V>(
        |name: Seq<char>| length_between_check(name, 50, field@, message@),
    );
    let n = map.len();
    let mut i: usize = 0;
    while i < n
        invariant
            n == map@.len(),
            i <= n,
            check == named_entry_check::<V>(
                |name: Seq<char>| length_between_check(name, 50, field@, message@),
            ),
            forall|j: int| 0 <= j < i ==> check(#[trigger] map@[j]) is Ok,
        decreases n - i,
    {
        let name = map.name_at(i);
        let value = map.value_at(i);
        let r1 = validate_length_between(name.as_str(), 50, field, message);
        let r = match r1 {
            Ok(()) => value.validate(),
            Err(e) => Err(e),
        };
        if r.is_err() {
            proof {
                lemma_first_failure_skip(map@, check, i as int);
                assert(map@.skip(i as int)[0] == map@[i as int]);
            }
            return r;
        }
        i = i + 1;
    }
    proof {
        lemma_first_failure_skip(map@, check, n as int);
    }
    Ok(())
}

impl ConfigValidator for ServerConfig {
    open spec fn validation(&self) -> ConfigCheck {
        and_then(
            port_check(self.port),
            and_then(
                timeout_check(self.request_timeout_seconds),
                and_then(host_check(self.host@), backup_dir_check(self.config_backup_dir@)),
            ),
        )
    }

    fn validate(&self) -> (r: ConfigResult<()>) {
        validate_port(self.port)?;
        validate_timeout(self.request_timeout_seconds)?;
        validate_host(self.host.as_str())?;
        validate_backup_dir(self.config_backup_dir.as_str())?;
        Ok(())
    }
}

impl ConfigValidator for ADS1115Config {
    open spec fn validation(&self) -> ConfigCheck {
        and_then(
            poll_interval_check(self.poll_interval_ms),
            and_then(
                match self.address {
                    Some(a) => i2c_address_check(a),
                    None => Ok(()),
                },
                match self.i2c_bus {
                    Some(b) => i2c_bus_check(b),
                    None => Ok(()),
                },
            ),
        )
    }

    fn validate(&self) -> (r: ConfigResult<()>) {
        validate_poll_interval(self.poll_interval_ms)?;
        if let Some(address) = self.address {
            validate_i2c_address(address)?;
        }
        if let Some(bus) = self.i2c_bus {
            validate_i2c_bus(bus)?;
        }
        Ok(())
    }
}

impl ConfigValidator for HardwareConfig {
    open spec fn validation(&self) -> ConfigCheck {
        self.ads1115.validation()
    }

    fn validate(&self) -> (r: ConfigResult<()>) {
        self.ads1115.validate()
    }
}

impl ConfigValidator for TempSensorConfig {
    open spec fn validation(&self) -> ConfigCheck {
        formula_check(self.conversion_formula@)
    }

    fn validate(&self) -> (r: ConfigResult<()>) {
        validate_formula(self.conversion_formula.as_str())?;
        Ok(())
    }
}

impl ConfigValidator for ConditionalFormula {
    open spec fn validation(&self) -> ConfigCheck {
        and_then(
            formula_check(self.value@),
            match self.when {
                Some(c) => formula_check(c@),
                None => Ok(()),
            },
        )
    }

    fn validate(&self) -> (r: ConfigResult<()>) {
        validate_formula(self.value.as_str())?;
        if let Some(condition) = &self.when {
            validate_formula(condition.as_str())?;
        }
        Ok(())
    }
}

/// The check of one formula of a fan.
pub open spec fn formula_item_check() -> spec_fn(ConditionalFormula) -> ConfigCheck {
    |f: ConditionalFormula| f.validation()
}

impl ConfigValidator for FanConfig {
    open spec fn validation(&self) -> ConfigCheck {
        and_then(
            pwm_pin_check(self.pwm_pin),
            and_then(
                frequency_check(self.frequency_hz),
                first_failure(self.duty_cycle_formulas@, formula_item_check()),
            ),
        )
    }

    fn validate(&self) -> (r: ConfigResult<()>) {
        validate_pwm_pin(self.pwm_pin)?;
        validate_frequency(self.frequency_hz)?;
        let n = self.duty_cycle_formulas.len();
        let mut i: usize = 0;
        while i < n
            invariant
                n == self.duty_cycle_formulas@.len(),
                i <= n,
                forall|j: int|
                    0 <= j < i ==> formula_item_check()(#[trigger] self.duty_cycle_formulas@[j]) is Ok,
                pwm_pin_check(self.pwm_pin) is Ok,
                frequency_check(self.frequency_hz) is Ok,
            decreases n - i,
        {
            let r = self.duty_cycle_formulas[i].validate();
            if r.is_err() {
                proof {
                    lemma_first_failure_skip(self.duty_cycle_formulas@, formula_item_check(), i as int);
                }
                return r;
            }
            i = i + 1;
        }
        proof {
            lemma_first_failure_skip(self.duty_cycle_formulas@, formula_item_check(), n as int);
        }
        Ok(())
    }
}

impl ConfigValidator for AlarmConfig {
    open spec fn validation(&self) -> ConfigCheck {
        and_then(
            formula_check(self.condition@),
            and_then(
                alarm_message_check(self.message@),
                alarm_actions_check(self.actions@.map_values(|a: String| a@)),
            ),
        )
    }

    fn validate(&self) -> (r: ConfigResult<()>) {
        validate_formula(self.condition.as_str())?;
        validate_alarm_message(self.message.as_str())?;
        validate_alarm_actions(&self.actions)?;
        Ok(())
    }
}

impl ConfigValidator for DataRetentionConfig {
    open spec fn validation(&self) -> ConfigCheck {
        and_then(
            memory_limit_check(self.max_memory_mb),
            and_then(
                percentage_check(self.cleanup_threshold_percent, "cleanup_threshold_percent"@),
                and_then(
                    percentage_check(self.cleanup_percentage, "cleanup_percentage"@),
                    age_hours_check(self.max_age_hours),
                ),
            ),
        )
    }

    fn validate(&self) -> (r: ConfigResult<()>) {
        validate_memory_limit(self.max_memory_mb)?;
        validate_percentage(self.cleanup_threshold_percent, "cleanup_threshold_percent")?;
        validate_percentage(self.cleanup_percentage, "cleanup_percentage")?;
        validate_age_hours(self.max_age_hours)?;
        Ok(())
    }
}

/// The check of each probe: its name, then its settings.
pub open spec fn sensor_entry_check() -> spec_fn((Seq<char>, TempSensorConfig)) -> ConfigCheck {
    named_entry_check::<TempSensorConfig>(
        |name: Seq<char>|
            length_between_check(name, 50, "sensor_name"@, "Sensor name must be between 1 and 50 characters"@),
    )
}

/// The check of each fan: its name, then its settings.
pub open spec fn fan_entry_check() -> spec_fn((Seq<char>, FanConfig)) -> ConfigCheck {
    named_entry_check::<FanConfig>(
        |name: Seq<char>|
            length_between_check(name, 50, "fan_name"@, "Fan name must be between 1 and 50 characters"@),
    )
}

/// The check of each alarm: its name, then its settings.
pub open spec fn alarm_entry_check() -> spec_fn((Seq<char>, AlarmConfig)) -> ConfigCheck {
    named_entry_check::<AlarmConfig>(
        |name: Seq<char>|
            length_between_check(name, 50, "alarm_name"@, "Alarm name must be between 1 and 50 characters"@),
    )
}

impl ConfigValidator for AppConfig {
    /// Server, hardware and retention settings first, then each probe, each
    /// fan and each alarm in the order of their maps.
    open spec fn validation(&self) -> ConfigCheck {
        and_then(
            self.server.validation(),
            and_then(
                self.hardware.validation(),
                and_then(
                    self.data_retention.validation(),
                    and_then(
                        first_failure(self.temp_sensors@, sensor_entry_check()),
                        and_then(
                            first_failure(self.fans@, fan_entry_check()),
                            first_failure(self.alarms@, alarm_entry_check()),
                        ),
                    ),
                ),
            ),
        )
    }

    fn validate(&self) -> (r: ConfigResult<()>) {
        self.server.validate()?;
        self.hardware.validate()?;
        self.data_retention.validate()?;
        validate_named(&self.temp_sensors, "sensor_name", "Sensor name must be between 1 and 50 characters")?;
        validate_named(&self.fans, "fan_name", "Fan name must be between 1 and 50 characters")?;
        validate_named(&self.alarms, "alarm_name", "Alarm name must be between 1 and 50 characters")?;
        Ok(())
    }
}

/// Whether an entry of a named part passes on its own: its name is 1 to 50
/// bytes long and its settings validate.
pub open spec fn entry_passes<V: ConfigValidator>(e: (Seq<char>, V)) -> bool {
    &&& e.0.len() > 0
    &&& utf8_len(e.0) <= 50
    &&& e.1.validation() is Ok
}

/// An entry's check passes exactly when the entry passes on its own.
proof fn lemma_entry_check<V: ConfigValidator>(
    e: (Seq<char>, V),
    field: Seq<char>,
    message: Seq<char>,
)
    ensures
        (named_entry_check::<V>(|name: Seq<char>| length_between_check(name, 50, field, message)))(e)
            is Ok <==> entry_passes(e),
{
}

/// A configuration validates exactly when its server, hardware and retention
/// settings do and every probe, every fan and every alarm passes on its own
/// (a name of 1 to 50 bytes and valid settings).
pub proof fn law_app_validation(c: AppConfig)
    ensures
        c.validation() is Ok <==> {
            &&& c.server.validation() is Ok
            &&& c.hardware.validation() is Ok
            &&& c.data_retention.validation() is Ok
            &&& forall|i: int| 0 <= i < c.temp_sensors@.len() ==> entry_passes(#[trigger] c.temp_sensors@[i])
            &&& forall|i: int| 0 <= i < c.fans@.len() ==> entry_passes(#[trigger] c.fans@[i])
            &&& forall|i: int| 0 <= i < c.alarms@.len() ==> entry_passes(#[trigger] c.alarms@[i])
        },
{
    lemma_first_failure_ok(c.temp_sensors@, sensor_entry_check());
    lemma_first_failure_ok(c.fans@, fan_entry_check());
    lemma_first_failure_ok(c.alarms@, alarm_entry_check());
    assert forall|i: int| 0 <= i < c.temp_sensors@.len() implies (sensor_entry_check()(
        #[trigger] c.temp_sensors@[i],
    ) is Ok <==> entry_passes(c.temp_sensors@[i])) by {
        lemma_entry_check(c.temp_sensors@[i], "sensor_name"@, "Sensor name must be between 1 and 50 characters"@);
    }
    assert forall|i: int| 0 <= i < c.fans@.len() implies (fan_entry_check()(#[trigger] c.fans@[i]) is Ok
        <==> entry_passes(c.fans@[i])) by {
        lemma_entry_check(c.fans@[i], "fan_name"@, "Fan name must be between 1 and 50 characters"@);
    }
    assert forall|i: int| 0 <= i < c.alarms@.len() implies (alarm_entry_check()(#[trigger] c.alarms@[i])
        is Ok <==> entry_passes(c.alarms@[i])) by {
        lemma_entry_check(c.alarms@[i], "alarm_name"@, "Alarm name must be between 1 and 50 characters"@);
    }
}

/// When the server, hardware and retention settings and every probe pass,
/// the first fan that fails decides the outcome: the configuration fails
/// with that fan's own error (its name's, else its settings').
pub proof fn law_first_failing_fan(c: AppConfig, j: int)
    requires
        0 <= j < c.fans@.len(),
        c.server.validation() is Ok,
        c.hardware.validation() is Ok,
        c.data_retention.validation() is Ok,
        forall|i: int| 0 <= i < c.temp_sensors@.len() ==> entry_passes(#[trigger] c.temp_sensors@[i]),
        forall|i: int| 0 <= i < j ==> entry_passes(#[trigger] c.fans@[i]),
        !entry_passes(c.fans@[j]),
    ensures
        c.validation() is Err,
        c.validation() == (if !(c.fans@[j].0.len() > 0 && utf8_len(c.fans@[j].0) <= 50) {
            failed("fan_name"@, "Fan name must be between 1 and 50 characters"@)
        } else {
            c.fans@[j].1.validation()
        }),
{
    lemma_first_failure_ok(c.temp_sensors@, sensor_entry_check());
    assert forall|i: int| 0 <= i < c.temp_sensors@.len() implies sensor_entry_check()(
        #[trigger] c.temp_sensors@[i],
    ) is Ok by {
        lemma_entry_check(c.temp_sensors@[i], "sensor_name"@, "Sensor name must be between 1 and 50 characters"@);
    }
    assert forall|i: int| 0 <= i < j implies fan_entry_check()(#[trigger] c.fans@[i]) is Ok by {
        lemma_entry_check(c.fans@[i], "fan_name"@, "Fan name must be between 1 and 50 characters"@);
    }
    lemma_entry_check(c.fans@[j], "fan_name"@, "Fan name must be between 1 and 50 characters"@);
    lemma_first_failure_skip(c.fans@, fan_entry_check(), j);
    let t = c.fans@.skip(j);
    assert(t[0] == c.fans@[j]);
    assert(first_failure(t, fan_entry_check()) == and_then(
        fan_entry_check()(t[0]),
        first_failure(t.drop_first(), fan_entry_check()),
    ));
}

} // verus!
