use rpi_smoker::models::alarm::{AlarmEvent, AlarmSeverity};
use rpi_smoker::models::api::{
    AlarmsResponse, ApiResponse, FansResponse, HealthResponse, SensorsResponse,
};
use rpi_smoker::models::fan::FanState;
use rpi_smoker::models::sensor::SensorReading;
use rpi_smoker::models::stats::{DataStats, FanStats, SensorStats};
use rpi_smoker::models::validation::{
    validate_id_format, validate_non_empty_string, validate_range, validate_string_length,
    validate_timestamp_not_after, validate_timestamp_not_future, ValidationError,
};
use rpi_smoker::named_map::NamedMap;
use rpi_smoker::time::Timestamp;

fn bits(x: f64) -> u64 {
    x.to_bits()
}

/// The instant `secs` seconds from now.
fn from_now(secs: i64) -> Timestamp {
    let now = Timestamp::now();
    Timestamp::from_parts(now.secs() + secs, now.nanos()).unwrap()
}

// ---- validation ----

#[test]
fn test_validate_non_empty_string() {
    assert!(validate_non_empty_string("test", "valid").is_ok());
    assert!(validate_non_empty_string("test", "").is_err());
}

#[test]
fn test_validate_id_format() {
    assert!(validate_id_format("id", "valid_id_123").is_ok());
    assert!(validate_id_format("id", "invalid-id").is_err());
    assert!(validate_id_format("id", "invalid id").is_err());
    assert!(validate_id_format("id", "").is_err());
}

#[test]
fn test_validate_range() {
    assert!(validate_range("temp", bits(25.0), bits(0.0), bits(100.0)).is_ok());
    assert!(validate_range("temp", bits(-1.0), bits(0.0), bits(100.0)).is_err());
    assert!(validate_range("temp", bits(101.0), bits(0.0), bits(100.0)).is_err());
}

#[test]
fn test_validate_timestamp_not_future() {
    let now = Timestamp::now();
    let past = from_now(-3600);
    let future = from_now(3600);

    assert!(validate_timestamp_not_future("timestamp", &past).is_ok());
    assert!(validate_timestamp_not_future("timestamp", &now).is_ok());
    assert!(validate_timestamp_not_future("timestamp", &future).is_err());
}

#[test]
fn test_validate_string_length() {
    assert!(validate_string_length("message", "short", 10).is_ok());
    assert!(validate_string_length("message", "this is too long", 10).is_err());
}

#[test]
fn validation_error_variants() {
    match validate_non_empty_string("name", "") {
        Err(ValidationError::EmptyField(f)) => assert_eq!(f, "name"),
        other => panic!("unexpected {:?}", other),
    }
    match validate_id_format("id", "a-b") {
        Err(ValidationError::InvalidFormat { field, message }) => {
            assert_eq!(field, "id");
            assert_eq!(message, "must contain only alphanumeric characters and underscores");
        }
        other => panic!("unexpected {:?}", other),
    }
    match validate_range("temp", bits(5.0), bits(0.0), bits(1.0)) {
        Err(ValidationError::OutOfRange { field, value, min, max }) => {
            assert_eq!(field, "temp");
            assert_eq!((value, min, max), (bits(5.0), bits(0.0), bits(1.0)));
        }
        other => panic!("unexpected {:?}", other),
    }
    match validate_string_length("message", "abcdef", 3) {
        Err(ValidationError::InvalidFormat { field, message }) => {
            assert_eq!(field, "message");
            assert_eq!(message, "must be no more than 3 characters");
        }
        other => panic!("unexpected {:?}", other),
    }
}

#[test]
fn validation_edges() {
    // the bounds themselves are in range; NaN is in no range
    assert!(validate_range("x", bits(0.0), bits(0.0), bits(1.0)).is_ok());
    assert!(validate_range("x", bits(1.0), bits(0.0), bits(1.0)).is_ok());
    assert!(validate_range("x", bits(f64::NAN), bits(0.0), bits(1.0)).is_err());
    assert!(validate_range("x", bits(-0.0), bits(0.0), bits(1.0)).is_ok());
    // length is counted in bytes of UTF-8
    assert!(validate_string_length("m", "ééé", 6).is_ok());
    assert!(validate_string_length("m", "ééé", 5).is_err());
    assert!(validate_string_length("m", "", 0).is_ok());
    // letters of other scripts are alphanumeric
    assert!(validate_id_format("id", "température_1").is_ok());
    // an instant equal to the clock is not after it
    let t = from_now(-10);
    assert!(validate_timestamp_not_after("ts", &t, &t).is_ok());
    let later = Timestamp::from_parts(t.secs(), (t.nanos() + 1) % 1_000_000_000).unwrap();
    if later.nanos() > t.nanos() {
        assert!(validate_timestamp_not_after("ts", &later, &t).is_err());
    }
}

// ---- alarms ----

#[test]
fn test_alarm_event_new() {
    let event = AlarmEvent::new("high_temp_alarm".to_string(), true);
    assert!(event.is_ok());

    let event = event.unwrap();
    assert_eq!(event.alarm_id, "high_temp_alarm");
    assert!(event.triggered);
    assert_eq!(event.trigger_count, 1);
    assert!(!event.acknowledged);
}

#[test]
fn test_alarm_event_validation() {
    assert!(AlarmEvent::new("alarm_1".to_string(), true).is_ok());
    assert!(AlarmEvent::new("".to_string(), true).is_err());
}

#[test]
fn test_alarm_event_convenience_constructors() {
    let triggered = AlarmEvent::triggered("alarm_1".to_string()).unwrap();
    assert!(triggered.triggered);
    assert_eq!(triggered.trigger_count, 1);

    let cleared = AlarmEvent::cleared("alarm_1".to_string()).unwrap();
    assert!(!cleared.triggered);
    assert_eq!(cleared.trigger_count, 0);
}

#[test]
fn test_alarm_event_acknowledge() {
    let mut event = AlarmEvent::triggered("alarm_1".to_string()).unwrap();

    assert!(!event.acknowledged);
    assert!(event.needs_attention());

    event.acknowledge();
    assert!(event.acknowledged);
    assert!(!event.needs_attention());
}

#[test]
fn test_alarm_event_trigger_and_clear() {
    let mut event = AlarmEvent::cleared("alarm_1".to_string()).unwrap();

    assert!(!event.triggered);
    assert_eq!(event.trigger_count, 0);

    event.trigger();
    assert!(event.triggered);
    assert_eq!(event.trigger_count, 1);
    assert!(!event.acknowledged);

    event.acknowledge();
    event.trigger();
    assert!(event.triggered);
    assert_eq!(event.trigger_count, 2);
    assert!(!event.acknowledged);

    event.clear();
    assert!(!event.triggered);
    assert_eq!(event.trigger_count, 2);
    assert!(!event.acknowledged);
}

#[test]
fn test_alarm_severity_levels() {
    let mut event = AlarmEvent::cleared("alarm_1".to_string()).unwrap();

    assert_eq!(event.severity_level(), AlarmSeverity::Info);

    event.trigger_count = 1;
    assert_eq!(event.severity_level(), AlarmSeverity::Warning);

    event.trigger_count = 3;
    assert_eq!(event.severity_level(), AlarmSeverity::High);

    event.trigger_count = 10;
    assert_eq!(event.severity_level(), AlarmSeverity::Critical);
}

#[test]
fn alarm_severity_boundaries() {
    let mut event = AlarmEvent::cleared("alarm_1".to_string()).unwrap();
    let expected = [
        (0, AlarmSeverity::Info),
        (2, AlarmSeverity::Warning),
        (5, AlarmSeverity::High),
        (6, AlarmSeverity::Critical),
        (u32::MAX, AlarmSeverity::Critical),
    ];
    for (count, severity) in expected {
        event.trigger_count = count;
        assert_eq!(event.severity_level(), severity);
    }
    assert_eq!(AlarmSeverity::Critical.as_str(), "CRITICAL");
    assert!(AlarmSeverity::Info.rank() < AlarmSeverity::Critical.rank());
}

#[test]
fn test_alarm_with_future_timestamp() {
    let future = from_now(3600);
    let event = AlarmEvent::with_timestamp("alarm_1".to_string(), true, future);
    assert!(event.is_err());
}

#[test]
fn alarm_test_age_seconds() {
    let past = from_now(-180);
    let event = AlarmEvent::with_timestamp("alarm_1".to_string(), true, past).unwrap();

    let age = event.age_seconds();
    assert!((175..=185).contains(&age));
}

#[test]
fn alarm_test_display() {
    let mut event = AlarmEvent::triggered("high_temp_alarm".to_string()).unwrap();

    let display = event.to_display_string();
    assert!(display.contains("high_temp_alarm"));
    assert!(display.contains("TRIGGERED"));
    assert!(display.contains("count: 1"));

    event.acknowledge();
    let display = event.to_display_string();
    assert!(display.contains("TRIGGERED (ACK)"));
}

#[test]
fn alarm_display_exact() {
    let ts = Timestamp::from_parts(3 * 3600 + 4 * 60 + 5, 0).unwrap();
    let event = AlarmEvent::with_timestamp("a1".to_string(), false, ts).unwrap();
    assert_eq!(event.to_display_string(), "Alarm a1 [CLEARED] at 03:04:05 (count: 0)");
    let again = event.with_incremented_trigger_count();
    assert_eq!(again.trigger_count, 1);
    let acked = event.with_acknowledged(true);
    assert!(acked.acknowledged);
    assert_eq!(acked.alarm_id, "a1");
}

// ---- sensor readings ----

#[test]
fn test_sensor_reading_new() {
    let reading = SensorReading::new("test_sensor".to_string(), bits(3.3), bits(25.0), Some(2048));
    assert!(reading.is_ok());

    let reading = reading.unwrap();
    assert_eq!(reading.sensor_id, "test_sensor");
    assert_eq!(reading.voltage, bits(3.3));
    assert_eq!(reading.temperature_celsius, bits(25.0));
    assert_eq!(reading.raw_adc_value, Some(2048));
}

#[test]
fn test_sensor_reading_validation() {
    assert!(SensorReading::new("temp_1".to_string(), bits(3.3), bits(25.0), None).is_ok());

    assert!(SensorReading::new("".to_string(), bits(3.3), bits(25.0), None).is_err());
    assert!(SensorReading::new("invalid-id".to_string(), bits(3.3), bits(25.0), None).is_err());

    assert!(SensorReading::new("temp_1".to_string(), bits(-1.0), bits(25.0), None).is_err());
    assert!(SensorReading::new("temp_1".to_string(), bits(6.0), bits(25.0), None).is_err());

    assert!(SensorReading::new("temp_1".to_string(), bits(3.3), bits(-150.0), None).is_err());
    assert!(SensorReading::new("temp_1".to_string(), bits(3.3), bits(600.0), None).is_err());
}

#[test]
fn test_sensor_reading_with_future_timestamp() {
    let future = from_now(3600);
    let reading =
        SensorReading::with_timestamp("temp_1".to_string(), future, bits(3.3), bits(25.0), None);
    assert!(reading.is_err());
}

#[test]
fn test_overheating_underheating() {
    let reading = SensorReading::new("temp_1".to_string(), bits(3.3), bits(250.0), None).unwrap();
    assert!(reading.is_overheating(bits(200.0)));
    assert!(!reading.is_underheating(bits(200.0)));

    let reading = SensorReading::new("temp_1".to_string(), bits(3.3), bits(150.0), None).unwrap();
    assert!(!reading.is_overheating(bits(200.0)));
    assert!(reading.is_underheating(bits(200.0)));
}

#[test]
fn sensor_test_age_seconds() {
    let past = from_now(-300);
    let reading =
        SensorReading::with_timestamp("temp_1".to_string(), past, bits(3.3), bits(25.0), None)
            .unwrap();

    let age = reading.age_seconds();
    assert!((295..=305).contains(&age));
}

#[test]
fn sensor_reading_range_edges() {
    let ok = |v: f64, t: f64| SensorReading::new("p".to_string(), bits(v), bits(t), None).is_ok();
    assert!(ok(0.0, -100.0));
    assert!(ok(5.0, 500.0));
    assert!(!ok(5.0001, 20.0));
    assert!(!ok(1.0, 500.5));
    assert!(!ok(f64::NAN, 20.0));
    // the id is checked before the ranges
    match SensorReading::new("".to_string(), bits(9.0), bits(20.0), None) {
        Err(ValidationError::EmptyField(f)) => assert_eq!(f, "sensor_id"),
        other => panic!("unexpected {:?}", other),
    }
}

// ---- fan states ----

#[test]
fn test_fan_state_new() {
    let state = FanState::new("intake_fan".to_string(), bits(0.75), 25000, false);
    assert!(state.is_ok());

    let state = state.unwrap();
    assert_eq!(state.fan_id, "intake_fan");
    assert_eq!(state.duty_cycle, bits(0.75));
    assert_eq!(state.pwm_frequency_hz, 25000);
    assert!(!state.is_manual_override);
}

#[test]
fn test_fan_state_validation() {
    assert!(FanState::new("fan_1".to_string(), bits(0.5), 1000, false).is_ok());

    assert!(FanState::new("".to_string(), bits(0.5), 1000, false).is_err());
    assert!(FanState::new("invalid-id".to_string(), bits(0.5), 1000, false).is_err());

    assert!(FanState::new("fan_1".to_string(), bits(-0.1), 1000, false).is_err());
    assert!(FanState::new("fan_1".to_string(), bits(1.1), 1000, false).is_err());

    assert!(FanState::new("fan_1".to_string(), bits(0.5), 0, false).is_err());
    assert!(FanState::new("fan_1".to_string(), bits(0.5), 200000, false).is_err());
}

#[test]
fn test_fan_state_with_future_timestamp() {
    let future = from_now(3600);
    let state = FanState::with_timestamp("fan_1".to_string(), bits(0.5), 1000, future, false);
    assert!(state.is_err());
}

#[test]
fn test_fan_state_convenience_constructors() {
    let off_state = FanState::off("fan_1".to_string()).unwrap();
    assert_eq!(off_state.duty_cycle, bits(0.0));
    assert!(!off_state.is_running());

    let full_state = FanState::full_speed("fan_1".to_string(), 25000).unwrap();
    assert_eq!(full_state.duty_cycle, bits(1.0));
    assert!(full_state.is_full_speed());
    assert!(full_state.is_running());
}

#[test]
fn test_fan_state_properties() {
    let state = FanState::new("fan_1".to_string(), bits(0.75), 25000, false).unwrap();

    assert!(state.is_running());
    assert!(!state.is_full_speed());
}

#[test]
fn test_fan_state_modifications() {
    let initial = FanState::new("fan_1".to_string(), bits(0.5), 25000, false).unwrap();

    let modified = initial.with_duty_cycle(bits(0.8)).unwrap();
    assert_eq!(modified.duty_cycle, bits(0.8));
    assert_eq!(modified.fan_id, initial.fan_id);

    let manual = initial.as_manual_override().unwrap();
    assert!(manual.is_manual_override);

    let auto = manual.as_automatic().unwrap();
    assert!(!auto.is_manual_override);
}

#[test]
fn fan_test_age_seconds() {
    let past = from_now(-120);
    let state =
        FanState::with_timestamp("fan_1".to_string(), bits(0.5), 1000, past, false).unwrap();

    let age = state.age_seconds();
    assert!((115..=125).contains(&age));
}

#[test]
fn fan_state_edges() {
    assert!(FanState::new("f".to_string(), bits(0.0), 1, false).is_ok());
    assert!(FanState::new("f".to_string(), bits(1.0), 100_000, false).is_ok());
    assert!(FanState::new("f".to_string(), bits(1.0), 100_001, false).is_err());
    let negative_zero = FanState::new("f".to_string(), bits(-0.0), 1000, false).unwrap();
    assert!(!negative_zero.is_running());
    match FanState::new("f".to_string(), bits(0.5), 0, false) {
        Err(ValidationError::OutOfRange { field, value, min, max }) => {
            assert_eq!(field, "pwm_frequency_hz");
            assert_eq!((value, min, max), (bits(0.0), bits(1.0), bits(100000.0)));
        }
        other => panic!("unexpected {:?}", other),
    }
}

// ---- statistics ----

#[test]
fn test_data_stats_new() {
    let stats = DataStats::new(1024 * 1024);
    assert_eq!(stats.total_readings, 0);
    assert_eq!(stats.memory_limit_bytes, 1024 * 1024);
    assert!(!stats.is_memory_limit_exceeded());
}

#[test]
fn test_data_stats_memory_checks() {
    let mut stats = DataStats::new(1000);

    stats.memory_usage_bytes = 850;
    assert!(!stats.is_memory_limit_exceeded());

    stats.memory_usage_bytes = 1100;
    assert!(stats.is_memory_limit_exceeded());

    stats.memory_usage_bytes = 1000;
    assert!(!stats.is_memory_limit_exceeded());
}

#[test]
fn test_data_stats_timespan() {
    let mut stats = DataStats::new(1000);

    assert!(stats.data_timespan_seconds().is_none());

    let now = Timestamp::now();
    let past = from_now(-7200);

    stats.oldest_reading = Some(past);
    stats.newest_reading = Some(now);

    let timespan = stats.data_timespan_seconds().unwrap();
    assert!((7195..=7205).contains(&timespan));
}

#[test]
fn stats_active_counts() {
    let mut stats = DataStats::new(10);
    assert_eq!(stats.active_sensor_count(), 0);
    let mut with_data = SensorStats::new();
    with_data.reading_count = 1;
    with_data.last_reading =
        Some(SensorReading::new("p1".to_string(), bits(1.0), bits(20.0), None).unwrap());
    stats.sensors_by_id.insert("p1".to_string(), with_data);
    stats.sensors_by_id.insert("p2".to_string(), SensorStats::new());
    assert_eq!(stats.active_sensor_count(), 1);
    assert!(stats.sensors_by_id.get("p1").unwrap().has_recent_data());
    assert!(!stats.sensors_by_id.get("p2").unwrap().has_recent_data());

    let mut fan = FanStats::new();
    fan.record_state_change(&FanState::new("f1".to_string(), bits(0.5), 1000, false).unwrap());
    stats.fans_by_id.insert("f1".to_string(), fan);
    stats.fans_by_id.insert("f2".to_string(), FanStats::new());
    assert_eq!(stats.active_fan_count(), 1);
}

#[test]
fn test_sensor_stats_updates() {
    let mut stats = SensorStats::new();

    let reading1 = SensorReading::new("temp_1".to_string(), bits(3.3), bits(25.0), None).unwrap();
    stats.record_reading(&reading1);
    assert_eq!(stats.reading_count, 1);
    assert_eq!(stats.min_temperature, bits(25.0));
    assert_eq!(stats.max_temperature, bits(25.0));

    let reading2 = SensorReading::new("temp_1".to_string(), bits(3.4), bits(35.0), None).unwrap();
    stats.record_reading(&reading2);
    assert_eq!(stats.reading_count, 2);
    assert_eq!(stats.min_temperature, bits(25.0));
    assert_eq!(stats.max_temperature, bits(35.0));
    assert_eq!(stats.last_reading.as_ref().unwrap().temperature_celsius, bits(35.0));
}

#[test]
fn sensor_stats_extremes_skip_nan() {
    let mut stats = SensorStats::new();
    let r = |t: f64| SensorReading::with_timestamp("p".to_string(), from_now(-1), bits(1.0), bits(t), None);
    // a NaN temperature fails validation, so place it by hand
    let mut nan = r(20.0).unwrap();
    nan.temperature_celsius = bits(f64::NAN);
    stats.record_reading(&r(20.0).unwrap());
    stats.record_reading(&nan);
    assert_eq!(stats.min_temperature, bits(20.0));
    assert_eq!(stats.max_temperature, bits(20.0));
    stats.record_reading(&r(-3.0).unwrap());
    assert_eq!(stats.min_temperature, bits(-3.0));
    assert_eq!(stats.max_temperature, bits(20.0));
    assert_eq!(stats.reading_count, 3);
}

#[test]
fn test_sensor_stats_errors() {
    let mut stats = SensorStats::new();
    let reading = SensorReading::new("temp_1".to_string(), bits(3.3), bits(25.0), None).unwrap();
    stats.record_reading(&reading);
    stats.record_error();
    stats.record_error();
    assert_eq!(stats.error_count, 2);
    assert_eq!(stats.reading_count, 1);
}

#[test]
fn test_fan_stats_updates() {
    let mut stats = FanStats::new();

    let state1 = FanState::new("fan_1".to_string(), bits(0.5), 1000, false).unwrap();

    stats.record_state_change(&state1);
    assert_eq!(stats.state_changes, 1);
    assert!(stats.is_currently_running());

    let mut state2 = FanState::new("fan_1".to_string(), bits(0.8), 1000, false).unwrap();
    state2.timestamp = Timestamp::from_parts(state1.timestamp.secs() + 60, state1.timestamp.nanos())
        .unwrap();

    stats.record_state_change(&state2);
    assert_eq!(stats.state_changes, 2);
    assert_eq!(stats.total_runtime_seconds, 60);
}

#[test]
fn fan_stats_runtime_only_while_running() {
    let mut stats = FanStats::new();
    let off = FanState::off("f".to_string()).unwrap();
    stats.record_state_change(&off);
    let mut on = FanState::new("f".to_string(), bits(1.0), 1000, false).unwrap();
    on.timestamp = Timestamp::from_parts(off.timestamp.secs() + 30, off.timestamp.nanos()).unwrap();
    stats.record_state_change(&on);
    // the fan was off during those 30 seconds
    assert_eq!(stats.total_runtime_seconds, 0);
    assert!(stats.has_recent_activity());
    // a state from before the present one adds nothing
    let mut earlier = FanState::new("f".to_string(), bits(1.0), 1000, false).unwrap();
    earlier.timestamp =
        Timestamp::from_parts(off.timestamp.secs() - 100, off.timestamp.nanos()).unwrap();
    stats.record_state_change(&earlier);
    assert_eq!(stats.total_runtime_seconds, 0);
    assert_eq!(stats.state_changes, 3);
}

// ---- responses ----

#[test]
fn test_api_response() {
    let success_response = ApiResponse::success("test data".to_string());
    assert!(success_response.success);
    assert_eq!(success_response.data, Some("test data".to_string()));
    assert!(success_response.error.is_none());

    let error_response = ApiResponse::<String>::error("test error".to_string());
    assert!(!error_response.success);
    assert!(error_response.data.is_none());
    assert_eq!(error_response.error, Some("test error".to_string()));

    let from_error = ApiResponse::<u8>::from_error("bad thing");
    assert_eq!(from_error.error, Some("bad thing".to_string()));
}

#[test]
fn test_sensors_response() {
    let mut sensors = NamedMap::new();

    let reading1 = SensorReading::new("temp_1".to_string(), bits(3.3), bits(25.0), None).unwrap();
    let reading2 = SensorReading::new("temp_2".to_string(), bits(3.4), bits(35.0), None).unwrap();

    sensors.insert("temp_1".to_string(), reading1);
    sensors.insert("temp_2".to_string(), reading2);

    let response = SensorsResponse::new(sensors);

    assert_eq!(response.sensor_count(), 2);
    assert!(response.has_sensor("temp_1"));
    assert!(!response.has_sensor("temp_3"));
    assert_eq!(response.max_temperature(), Some(bits(35.0)));
    assert_eq!(response.min_temperature(), Some(bits(25.0)));
}

#[test]
fn sensors_response_empty_and_single() {
    let empty = SensorsResponse::empty();
    assert_eq!(empty.sensor_count(), 0);
    assert_eq!(empty.max_temperature(), None);
    assert_eq!(empty.min_temperature(), None);

    let mut sensors = NamedMap::new();
    sensors.insert(
        "p".to_string(),
        SensorReading::new("p".to_string(), bits(1.0), bits(-5.5), None).unwrap(),
    );
    let one = SensorsResponse::new(sensors);
    assert_eq!(one.max_temperature(), Some(bits(-5.5)));
    assert_eq!(one.min_temperature(), Some(bits(-5.5)));
}

#[test]
fn test_fans_response() {
    let mut fans = NamedMap::new();

    let state1 = FanState::new("fan_1".to_string(), bits(0.5), 1000, false).unwrap();
    let state2 = FanState::new("fan_2".to_string(), bits(0.8), 1000, true).unwrap();

    fans.insert("fan_1".to_string(), state1);
    fans.insert("fan_2".to_string(), state2);

    let response = FansResponse::new(fans);

    assert_eq!(response.fan_count(), 2);
    assert!(response.has_fan("fan_1"));
    assert_eq!(response.running_fan_count(), 2);
    assert_eq!(response.manual_override_fans().len(), 1);
    assert_eq!(response.manual_override_fans()[0].fan_id, "fan_2");
    assert_eq!(FansResponse::empty().fan_count(), 0);
}

#[test]
fn test_alarms_response() {
    let mut alarms = NamedMap::new();

    let alarm1 = AlarmEvent::triggered("alarm_1".to_string()).unwrap();

    let mut alarm2 = AlarmEvent::triggered("alarm_2".to_string()).unwrap();
    alarm2.trigger_count = 10;

    alarms.insert("alarm_1".to_string(), alarm1);
    alarms.insert("alarm_2".to_string(), alarm2);

    let response = AlarmsResponse::new(alarms);

    assert_eq!(response.total_alarm_count(), 2);
    assert_eq!(response.active_count, 2);
    assert_eq!(response.attention_count(), 2);
    assert!(response.has_critical_alarms());
    assert_eq!(response.alarms_by_severity(AlarmSeverity::Critical).len(), 1);
    assert_eq!(response.alarms_by_severity(AlarmSeverity::Warning).len(), 1);
}

#[test]
fn alarms_response_cleared_critical_is_not_raised() {
    let mut alarms = NamedMap::new();
    let mut quiet = AlarmEvent::cleared("a".to_string()).unwrap();
    quiet.trigger_count = 10;
    alarms.insert("a".to_string(), quiet);
    let mut acked = AlarmEvent::triggered("b".to_string()).unwrap();
    acked.acknowledge();
    alarms.insert("b".to_string(), acked);
    let response = AlarmsResponse::new(alarms);
    assert_eq!(response.active_count, 1);
    assert_eq!(response.attention_count(), 0);
    assert!(!response.has_critical_alarms());
    assert_eq!(AlarmsResponse::empty().total_alarm_count(), 0);
}

#[test]
fn test_health_response() {
    let healthy = HealthResponse::healthy("1.0.0".to_string(), 3600);
    assert_eq!(healthy.status, "healthy");
    assert_eq!(healthy.version, "1.0.0");
    assert_eq!(healthy.uptime_seconds, 3600);

    let unhealthy = HealthResponse::unhealthy("1.0.0".to_string(), 3600);
    assert_eq!(unhealthy.status, "unhealthy");
}
