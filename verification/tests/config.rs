use rpi_smoker::config::backups::{
    backup_file_name, backup_filename, backups_newest_first, is_json_file_name, BackupCandidate,
    BackupInfo,
};
use rpi_smoker::config::cli::{create_cli_overrides, Cli};
use rpi_smoker::config::error::ConfigError;
use rpi_smoker::config::loader::CliOverrides;
use rpi_smoker::config::models::{
    ADSChannel, ADSDataRate, ADSGain, AlarmConfig, AppConfig, ConditionalFormula,
    DataRetentionConfig, FanConfig, HardwareConfig, ServerConfig, TempSensorConfig,
};
use rpi_smoker::config::patch::patch_document;
use rpi_smoker::config::validation::ConfigValidator;
use rpi_smoker::named_map::NamedMap;
use rpi_smoker::time::Timestamp;

fn create_test_config(loaded_from: &str, backup_dir: &str) -> AppConfig {
    let mut temp_sensors = NamedMap::new();
    temp_sensors.insert(
        "probe1".to_string(),
        TempSensorConfig {
            ads_channel: ADSChannel::A0,
            conversion_formula: "v * 100".to_string(),
            name: String::new(),
        },
    );
    let mut server = ServerConfig::default();
    server.config_backup_dir = backup_dir.to_string();
    AppConfig {
        loaded_from: Some(loaded_from.to_string()),
        server,
        hardware: HardwareConfig::default(),
        temp_sensors,
        fans: NamedMap::new(),
        alarms: NamedMap::new(),
        data_retention: DataRetentionConfig::default(),
    }
}

fn failure(r: Result<(), ConfigError>) -> (String, String) {
    match r {
        Err(ConfigError::ValidationFailed { field, message }) => (field, message),
        other => panic!("expected a validation failure, got {:?}", other),
    }
}

#[test]
fn test_basic_functionality() {
    let config = AppConfig::default();
    assert_eq!(config.server.port, 3000);
    assert_eq!(config.server.host, "0.0.0.0");
}

#[test]
fn defaults_are_valid() {
    let config = AppConfig::default();
    assert!(config.validate().is_ok());
    assert_eq!(config.server.cors_origins, vec!["*".to_string()]);
    assert_eq!(config.server.request_timeout_seconds, 30);
    assert_eq!(config.server.config_backup_dir, "config_backup");
    assert!(config.hardware.mock_mode);
    assert_eq!(config.hardware.ads1115.i2c_bus, Some(1));
    assert_eq!(config.hardware.ads1115.address, Some(0x48));
    assert_eq!(config.hardware.ads1115.poll_interval_ms, 1000);
    assert_eq!(config.hardware.ads1115.gain, ADSGain::default());
    assert_eq!(config.data_retention.max_age_hours, 24 * 7);
    assert_eq!(config.data_retention.max_memory_mb, 1024);
    assert_eq!(config.data_retention.cleanup_threshold_percent, 0.8f64.to_bits());
    assert_eq!(config.data_retention.cleanup_percentage, 0.2f64.to_bits());
    assert!(config.loaded_from.is_none());
    assert_eq!(config.get_file_path(), "config.json");
}

#[test]
fn test_cli_overrides() {
    let config = create_test_config("test_config.json", "backups");

    let overrides = CliOverrides {
        port: Some(8080),
        host: Some("127.0.0.1".to_string()),
        timeout: Some(60),
        mock_mode: Some(false),
    };

    let result =
        AppConfig::from_parsed(config, "test_config.json".to_string(), Some(&overrides)).unwrap();

    assert_eq!(result.server.port, 8080);
    assert_eq!(result.server.host, "127.0.0.1");
    assert_eq!(result.server.request_timeout_seconds, 60);
    assert!(!result.hardware.mock_mode);
}

#[test]
fn test_load_save_config() {
    // loading names each entry after its key and records the file
    let mut config = create_test_config("somewhere_else.json", "backups");
    config.loaded_from = None;
    let loaded = AppConfig::from_parsed(config, "test_config.json".to_string(), None).unwrap();
    assert_eq!(loaded.temp_sensors.get("probe1").unwrap().name, "probe1");
    assert_eq!(loaded.get_file_path(), "test_config.json");
}

#[test]
fn loading_rejects_invalid_overrides() {
    let config = create_test_config("c.json", "backups");
    let overrides = CliOverrides { port: Some(80), ..CliOverrides::default() };
    let (field, message) =
        failure(AppConfig::from_parsed(config, "c.json".to_string(), Some(&overrides)).map(|_| ()));
    assert_eq!(field, "port");
    assert_eq!(message, "Port must be between 1024 and 65535");
}

#[test]
fn test_update_partial_validation_failure() {
    let config = create_test_config("test_config.json", "backups");
    let mut patched = config.clone();
    patched.server.port = 999;
    let result = config.prepare_replacement(patched);
    assert!(result.is_err());
    assert_ne!(config.server.port, 999);
}

#[test]
fn test_update_partial_preserves_loaded_from() {
    let config = create_test_config("test_config.json", "backups");
    let loaded_from_before = config.loaded_from.clone();
    let mut patched = config.clone();
    patched.loaded_from = None;
    patched.server.host = "0.0.0.0".to_string();
    let replaced = config.prepare_replacement(patched).unwrap();
    assert_eq!(replaced.loaded_from, loaded_from_before);
    assert_eq!(replaced.server.host, "0.0.0.0");
}

#[test]
fn replacement_names_new_entries() {
    let config = create_test_config("c.json", "backups");
    let mut patched = config.clone();
    patched.fans.insert(
        "exhaust".to_string(),
        FanConfig {
            pwm_pin: 18,
            frequency_hz: 25000,
            duty_cycle_formulas: vec![ConditionalFormula { when: None, value: "1".to_string() }],
            name: "wrong".to_string(),
        },
    );
    let replaced = config.prepare_replacement(patched).unwrap();
    assert_eq!(replaced.fans.get("exhaust").unwrap().name, "exhaust");
    assert_eq!(replaced.temp_sensors.get("probe1").unwrap().name, "probe1");
}

#[test]
fn server_validation_rules() {
    let mut s = ServerConfig::default();
    s.port = 1024;
    assert!(s.validate().is_ok());
    s.port = 1023;
    assert_eq!(failure(s.validate()).0, "port");
    s.port = 8080;
    s.request_timeout_seconds = 0;
    assert_eq!(
        failure(s.validate()),
        ("request_timeout_seconds".to_string(), "Timeout must be between 1 and 3600 seconds".to_string())
    );
    s.request_timeout_seconds = 3600;
    assert!(s.validate().is_ok());
    s.request_timeout_seconds = 3601;
    assert!(s.validate().is_err());
    s.request_timeout_seconds = 30;
    s.host = String::new();
    assert_eq!(failure(s.validate()), ("host".to_string(), "Host cannot be empty".to_string()));
    s.host = "h".to_string();
    s.config_backup_dir = String::new();
    assert_eq!(
        failure(s.validate()),
        ("config_backup_dir".to_string(), "Backup directory cannot be empty".to_string())
    );
    // the port is checked first
    s.port = 1;
    assert_eq!(failure(s.validate()).0, "port");
}

#[test]
fn hardware_validation_rules() {
    let mut h = HardwareConfig::default();
    h.ads1115.poll_interval_ms = 249;
    assert_eq!(failure(h.validate()).0, "poll_interval_ms");
    h.ads1115.poll_interval_ms = 250;
    assert!(h.validate().is_ok());
    h.ads1115.poll_interval_ms = 60001;
    assert!(h.validate().is_err());
    h.ads1115.poll_interval_ms = 60000;
    h.ads1115.address = Some(0x100);
    assert_eq!(
        failure(h.validate()),
        ("i2c_address".to_string(), "I2C address must be between 0x00 and 0xFF".to_string())
    );
    h.ads1115.address = None;
    h.ads1115.i2c_bus = Some(11);
    assert_eq!(
        failure(h.validate()),
        ("i2c_bus".to_string(), "I2C bus number must be reasonable (0-10)".to_string())
    );
    h.ads1115.i2c_bus = None;
    assert!(h.validate().is_ok());
}

#[test]
fn fan_validation_rules() {
    let mut f = FanConfig {
        pwm_pin: 2,
        frequency_hz: 1,
        duty_cycle_formulas: vec![],
        name: String::new(),
    };
    assert!(f.validate().is_ok());
    f.pwm_pin = 27;
    f.frequency_hz = 100_000;
    assert!(f.validate().is_ok());
    f.pwm_pin = 28;
    assert_eq!(
        failure(f.validate()),
        ("pwm_pin".to_string(), "GPIO pin 28 is not valid for Raspberry Pi".to_string())
    );
    f.pwm_pin = 1;
    assert_eq!(failure(f.validate()).1, "GPIO pin 1 is not valid for Raspberry Pi");
    f.pwm_pin = 12;
    f.frequency_hz = 0;
    assert_eq!(
        failure(f.validate()),
        ("frequency_hz".to_string(), "PWM frequency must be between 1Hz and 100kHz".to_string())
    );
    f.frequency_hz = 100;
    f.duty_cycle_formulas = vec![
        ConditionalFormula { when: Some("t > 100".to_string()), value: "1".to_string() },
        ConditionalFormula { when: Some(String::new()), value: "0".to_string() },
    ];
    assert_eq!(
        failure(f.validate()),
        ("formula".to_string(), "Formula cannot be empty".to_string())
    );
    f.duty_cycle_formulas = vec![ConditionalFormula { when: None, value: "x".repeat(1001) }];
    assert_eq!(failure(f.validate()).1, "Formula is too long (max 1000 characters)");
    f.duty_cycle_formulas = vec![ConditionalFormula { when: None, value: "x".repeat(1000) }];
    assert!(f.validate().is_ok());
}

#[test]
fn alarm_and_retention_rules() {
    let mut a = AlarmConfig {
        name: String::new(),
        condition: "probe1 > 120".to_string(),
        message: "too hot".to_string(),
        actions: vec!["log".to_string()],
        enabled: true,
    };
    assert!(a.validate().is_ok());
    a.actions = vec![];
    assert_eq!(
        failure(a.validate()),
        ("alarm_actions".to_string(), "At least one alarm action must be specified".to_string())
    );
    a.actions = vec!["log".to_string(), "a".repeat(101)];
    assert_eq!(
        failure(a.validate()),
        ("alarm_action".to_string(), "Alarm action must be between 1 and 100 characters".to_string())
    );
    a.actions = vec!["log".to_string()];
    a.message = "m".repeat(501);
    assert_eq!(failure(a.validate()).0, "alarm_message");
    a.message = "m".repeat(500);
    assert!(a.validate().is_ok());

    let mut d = DataRetentionConfig::default();
    d.max_memory_mb = 9;
    assert_eq!(failure(d.validate()).1, "Memory limit must be between 10MB and 4GB");
    d.max_memory_mb = 4096;
    d.cleanup_threshold_percent = 1.5f64.to_bits();
    assert_eq!(
        failure(d.validate()),
        (
            "cleanup_threshold_percent".to_string(),
            "Percentage value must be between 0.0 and 1.0".to_string()
        )
    );
    d.cleanup_threshold_percent = 1.0f64.to_bits();
    d.cleanup_percentage = (-0.1f64).to_bits();
    assert_eq!(failure(d.validate()).0, "cleanup_percentage");
    d.cleanup_percentage = 0.0f64.to_bits();
    d.max_age_hours = 8761;
    assert_eq!(failure(d.validate()).1, "Age limit must be between 1 hour and 1 year");
    d.max_age_hours = 8760;
    assert!(d.validate().is_ok());
}

#[test]
fn app_validation_names_and_order() {
    let mut config = AppConfig::default();
    config.temp_sensors.insert(
        "p".repeat(51),
        TempSensorConfig {
            ads_channel: ADSChannel::A1,
            conversion_formula: "v".to_string(),
            name: String::new(),
        },
    );
    assert_eq!(
        failure(config.validate()),
        ("sensor_name".to_string(), "Sensor name must be between 1 and 50 characters".to_string())
    );
    // the server is checked before the entries
    config.server.port = 10;
    assert_eq!(failure(config.validate()).0, "port");

    let mut config = AppConfig::default();
    config.alarms.insert(
        String::new(),
        AlarmConfig {
            name: String::new(),
            condition: "1".to_string(),
            message: "m".to_string(),
            actions: vec!["a".to_string()],
            enabled: false,
        },
    );
    assert_eq!(failure(config.validate()).0, "alarm_name");
}

#[test]
fn ads_enum_numbers() {
    for n in 0..4u8 {
        assert_eq!(ADSChannel::from_number(n).unwrap().number(), n);
    }
    assert!(ADSChannel::from_number(4).is_none());
    assert_eq!(ADSDataRate::Rate860SPS.samples_per_second(), 860);
    assert_eq!(ADSDataRate::from_samples_per_second(128), Some(ADSDataRate::Rate128SPS));
    assert!(ADSDataRate::from_samples_per_second(100).is_none());
    assert_eq!(ADSDataRate::default(), ADSDataRate::Rate128SPS);
    assert_eq!(ADSGain::default(), ADSGain::Two);
    assert_eq!(ADSChannel::default(), ADSChannel::A0);
}

#[test]
fn cli_to_overrides() {
    let cli = Cli {
        config: "config.json".to_string(),
        host: Some("::".to_string()),
        port: None,
        timeout: Some(5),
        mock_mode: Some(true),
    };
    let o = create_cli_overrides(&cli);
    assert_eq!(o.host, Some("::".to_string()));
    assert_eq!(o.port, None);
    assert_eq!(o.timeout, Some(5));
    assert_eq!(o.mock_mode, Some(true));
    let d = CliOverrides::default();
    assert!(d.port.is_none() && d.host.is_none() && d.timeout.is_none() && d.mock_mode.is_none());
}

fn candidate(name: &str, secs: i64, is_file: bool) -> BackupCandidate {
    BackupCandidate {
        info: BackupInfo {
            filename: name.to_string(),
            path: format!("backups/{name}"),
            created: Timestamp::from_parts(secs, 0).unwrap(),
            size: 10,
        },
        is_file,
    }
}

#[test]
fn test_backup_and_restore() {
    // the listing keeps regular `.json` files only, newest first
    let listed = backups_newest_first(vec![
        candidate("config_a.json", 100, true),
        candidate("notes.txt", 500, true),
        candidate("config_b.json", 300, true),
        candidate("dir.json", 900, false),
        candidate(".json", 950, true),
        candidate("config_c.json", 200, true),
    ]);
    let names: Vec<&str> = listed.iter().map(|b| b.filename.as_str()).collect();
    assert_eq!(names, vec!["config_b.json", "config_c.json", "config_a.json"]);
}

#[test]
fn backups_same_instant_keep_order() {
    let listed = backups_newest_first(vec![
        candidate("x.json", 5, true),
        candidate("y.json", 5, true),
        candidate("z.json", 7, true),
    ]);
    let names: Vec<&str> = listed.iter().map(|b| b.filename.as_str()).collect();
    assert_eq!(names, vec!["z.json", "x.json", "y.json"]);
    assert!(backups_newest_first(vec![]).is_empty());
    assert!(is_json_file_name("a.json"));
    assert!(!is_json_file_name(".json"));
    assert!(!is_json_file_name("a.JSON"));
    assert!(!is_json_file_name("json"));
}

#[test]
fn backup_names() {
    assert_eq!(backup_file_name("x"), "config_backup_x.json");
    let t = Timestamp::from_parts(0, 0).unwrap();
    assert_eq!(backup_filename(&t), "config_backup_19700101_000000.json");
    let t = Timestamp::from_parts(1_700_000_000, 999_999_999).unwrap();
    assert_eq!(backup_filename(&t), "config_backup_20231114_221320.json");
}

fn document() -> serde_json::Value {
    serde_json::from_str(
        r#"{"server": {"host": "0.0.0.0", "port": 3000, "cors_origins": ["*"]}, "fans": {}}"#,
    )
    .unwrap()
}

fn ops(text: &str) -> serde_json::Value {
    serde_json::from_str(text).unwrap()
}

#[test]
fn test_update_partial_json_patch() {
    let mut doc = document();
    patch_document(&mut doc, ops(r#"[{"op": "replace", "path": "/server/port", "value": 9000}]"#))
        .unwrap();
    assert_eq!(doc["server"]["port"], 9000);
    assert_eq!(doc["server"]["host"], "0.0.0.0");
}

#[test]
fn test_update_partial_add_operation() {
    let mut doc = document();
    patch_document(
        &mut doc,
        ops(r#"[{"op": "add", "path": "/server/cors_origins/-", "value": "https://example.com"}]"#),
    )
    .unwrap();
    let origins = doc["server"]["cors_origins"].as_array().unwrap();
    assert!(origins.contains(&serde_json::Value::from("https://example.com")));
}

#[test]
fn test_update_partial_remove_operation() {
    let mut doc = document();
    doc["server"]["cors_origins"] = ops(r#"["*", "http://localhost:3000"]"#);
    patch_document(&mut doc, ops(r#"[{"op": "remove", "path": "/server/cors_origins/0"}]"#))
        .unwrap();
    let origins = doc["server"]["cors_origins"].as_array().unwrap();
    assert_eq!(origins.len(), 1);
    assert_eq!(origins[0], "http://localhost:3000");
}

#[test]
fn test_update_partial_invalid_patch() {
    let mut doc = document();
    let result = patch_document(&mut doc, ops(r#"[{"op": "replace", "path": "/server/port"}]"#));
    assert!(result.is_err());
    assert!(matches!(result, Err(ConfigError::InvalidJson { .. })));
    assert_eq!(doc, document());
}

#[test]
fn failed_patch_reports_error() {
    let mut doc = document();
    let result = patch_document(
        &mut doc,
        ops(r#"[{"op": "replace", "path": "/server/port", "value": 1}, {"op": "remove", "path": "/nowhere"}]"#),
    );
    assert!(matches!(result, Err(ConfigError::PatchFailed { .. })));
}

#[test]
fn failed_moves_do_not_panic() {
    let mut doc: serde_json::Value = serde_json::from_str(r#"{"a": 1}"#).unwrap();
    let result = patch_document(&mut doc, ops(r#"[{"op": "move", "from": "/a", "path": "/b/c"}]"#));
    assert!(matches!(result, Err(ConfigError::PatchFailed { .. })));

    let mut doc: serde_json::Value = serde_json::from_str(r#"{"a": {}}"#).unwrap();
    let result = patch_document(
        &mut doc,
        ops(r#"[{"op": "add", "path": "/a/k", "value": 1}, {"op": "move", "from": "/a", "path": "/z/q"}]"#),
    );
    assert!(matches!(result, Err(ConfigError::PatchFailed { .. })));
}
