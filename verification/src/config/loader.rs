//! What happens to a configuration once it is parsed: names taken from the
//! keys, command-line overrides, validation, and replacement of the current
//! configuration by another.
use vstd::prelude::*;
use crate::config::error::{config_checked, ConfigCheck, ConfigResult};
use crate::config::models::{
    AlarmConfig, AppConfig, FanConfig, HardwareConfig, ServerConfig, TempSensorConfig,
};
use crate::config::validation::{
    alarm_entry_check, fan_entry_check, first_failure, named_entry_check, sensor_entry_check,
    ConfigValidator,
};
use crate::named_map::NamedMap;

verus! {

/// Settings given on the command line, which take precedence over the file.
#[derive(Debug, Clone)]
pub struct CliOverrides {
    pub port: Option<u16>,
    pub host: Option<String>,
    pub timeout: Option<u64>,
    pub mock_mode: Option<bool>,
}

impl Default for CliOverrides {
    fn default() -> (o: CliOverrides)
        ensures
            o.port is None,
            o.host is None,
            o.timeout is None,
            o.mock_mode is None,
    {
        CliOverrides { port: None, host: None, timeout: None, mock_mode: None }
    }
}

/// Entries of a configuration map that carry their own name.
pub trait NamedSetting: ConfigValidator + Sized {
    /// The name the entry carries.
    spec fn name_view(&self) -> Seq<char>;

    /// Whether two entries agree in everything but their names.
    spec fn same_except_name(&self, other: &Self) -> bool;

    /// Gives the entry a name.
    fn set_name(&mut self, name: String)
        ensures
            final(self).name_view() == name@,
            old(self).same_except_name(&*final(self)),
    ;

    /// The name takes no part in validation.
    proof fn lemma_validation_ignores_name(a: Self, b: Self)
        requires
            a.same_except_name(&b),
        ensures
            a.validation() == b.validation(),
    ;
}

impl NamedSetting for TempSensorConfig {
    open spec fn name_view(&self) -> Seq<char> {
        self.name@
    }

    open spec fn same_except_name(&self, other: &Self) -> bool {
        self.ads_channel == other.ads_channel && self.conversion_formula == other.conversion_formula
    }

    fn set_name(&mut self, name: String) {
        self.name = name;
    }

    proof fn lemma_validation_ignores_name(a: Self, b: Self) {
    }
}

impl NamedSetting for FanConfig {
    open spec fn name_view(&self) -> Seq<char> {
        self.name@
    }

    open spec fn same_except_name(&self, other: &Self) -> bool {
        &&& self.pwm_pin == other.pwm_pin
        &&& self.frequency_hz == other.frequency_hz
        &&& self.duty_cycle_formulas == other.duty_cycle_formulas
    }

    fn set_name(&mut self, name: String) {
        self.name = name;
    }

    proof fn lemma_validation_ignores_name(a: Self, b: Self) {
    }
}

impl NamedSetting for AlarmConfig {
    open spec fn name_view(&self) -> Seq<char> {
        self.name@
    }

    open spec fn same_except_name(&self, other: &Self) -> bool {
        &&& self.condition == other.condition
        &&& self.message == other.message
        &&& self.actions == other.actions
        &&& self.enabled == other.enabled
    }

    fn set_name(&mut self, name: String) {
        self.name = name;
    }

    proof fn lemma_validation_ignores_name(a: Self, b: Self) {
    }
}

/// `after` is `before` with each entry's name set to its key.
pub open spec fn names_from_keys<V: NamedSetting>(
    before: Seq<(Seq<char>, V)>,
    after: Seq<(Seq<char>, V)>,
) -> bool {
    &&& after.len() == before.len()
    &&& forall|i: int|
        0 <= i < before.len() ==> {
            &&& (#[trigger] after[i]).0 == before[i].0
            &&& after[i].1.name_view() == before[i].0
            &&& before[i].1.same_except_name(&after[i].1)
        }
}

/// `c` with the command-line overrides `o` applied.
pub open spec fn overridden(c: AppConfig, o: CliOverrides) -> AppConfig {
    AppConfig {
        server: ServerConfig {
            port: match o.port {
                Some(p) => p,
                None => c.server.port,
            },
            host: match o.host {
                Some(h) => h,
                None => c.server.host,
            },
            request_timeout_seconds: match o.timeout {
                Some(t) => t,
                None => c.server.request_timeout_seconds,
            },
            ..c.server
        },
        hardware: HardwareConfig {
            mock_mode: match o.mock_mode {
                Some(m) => m,
                None => c.hardware.mock_mode,
            },
            ..c.hardware
        },
        ..c
    }
}

/// Each command-line override that is given replaces its setting; one that
/// is not given leaves the file's setting; nothing else changes.
pub proof fn law_overrides(c: AppConfig, o: CliOverrides)
    ensures
        overridden(c, o).server.port == (if o.port is Some {
            o.port->0
        } else {
            c.server.port
        }),
        overridden(c, o).server.host == (if o.host is Some {
            o.host->0
        } else {
            c.server.host
        }),
        overridden(c, o).server.request_timeout_seconds == (if o.timeout is Some {
            o.timeout->0
        } else {
            c.server.request_timeout_seconds
        }),
        overridden(c, o).hardware.mock_mode == (if o.mock_mode is Some {
            o.mock_mode->0
        } else {
            c.hardware.mock_mode
        }),
        overridden(c, o).server.cors_origins == c.server.cors_origins,
        overridden(c, o).server.config_backup_dir == c.server.config_backup_dir,
        overridden(c, o).hardware.ads1115 == c.hardware.ads1115,
        overridden(c, o).loaded_from == c.loaded_from,
        overridden(c, o).temp_sensors == c.temp_sensors,
        overridden(c, o).fans == c.fans,
        overridden(c, o).alarms == c.alarms,
        overridden(c, o).data_retention == c.data_retention,
        o.port is None && o.host is None && o.timeout is None && o.mock_mode is None
            ==> overridden(c, o) == c,
{
}

/// `after` agrees with `before` except that every entry of its three maps
/// carries its key as its name, and `loaded_from` is `origin`.
pub open spec fn named_from(before: AppConfig, after: AppConfig, origin: Option<String>) -> bool {
    &&& after.loaded_from == origin
    &&& after.server == before.server
    &&& after.hardware == before.hardware
    &&& after.data_retention == before.data_retention
    &&& names_from_keys(before.temp_sensors@, after.temp_sensors@)
    &&& names_from_keys(before.fans@, after.fans@)
    &&& names_from_keys(before.alarms@, after.alarms@)
}

/// Pointwise equal checks give the same first failure.
proof fn lemma_first_failure_congruent<V: NamedSetting>(
    s: Seq<(Seq<char>, V)>,
    t: Seq<(Seq<char>, V)>,
    name_check: spec_fn(Seq<char>) -> crate::config::error::ConfigCheck,
)
    requires
        names_from_keys(s, t),
    ensures
        first_failure(s, named_entry_check::<V>(name_check)) == first_failure(
            t,
            named_entry_check::<V>(name_check),
        ),
    decreases s.len(),
{
    if s.len() > 0 {
        V::lemma_validation_ignores_name(s[0].1, t[0].1);
        assert(names_from_keys(s.drop_first(), t.drop_first())) by {
            assert forall|i: int| 0 <= i < s.drop_first().len() implies {
                &&& (#[trigger] t.drop_first()[i]).0 == s.drop_first()[i].0
                &&& t.drop_first()[i].1.name_view() == s.drop_first()[i].0
                &&& s.drop_first()[i].1.same_except_name(&t.drop_first()[i].1)
            } by {
                assert(t.drop_first()[i] == t[i + 1]);
                assert(s.drop_first()[i] == s[i + 1]);
            }
        }
        lemma_first_failure_congruent(s.drop_first(), t.drop_first(), name_check);
        assert(t[0] == t[0]);
        assert(s[0].0 == t[0].0);
    }
}

/// The names of the entries take no part in validation.
pub proof fn law_validation_ignores_names(before: AppConfig, after: AppConfig, origin: Option<String>)
    requires
        named_from(before, after, origin),
    ensures
        after.validation() == before.validation(),
{
    lemma_first_failure_congruent(
        before.temp_sensors@,
        after.temp_sensors@,
        |name: Seq<char>|
            crate::config::validation::length_between_check(
                name,
                50,
                "sensor_name"@,
                "Sensor name must be between 1 and 50 characters"@,
            ),
    );
    lemma_first_failure_congruent(
        before.fans@,
        after.fans@,
        |name: Seq<char>|
            crate::config::validation::length_between_check(
                name,
                50,
                "fan_name"@,
                "Fan name must be between 1 and 50 characters"@,
            ),
    );
    lemma_first_failure_congruent(
        before.alarms@,
        after.alarms@,
        |name: Seq<char>|
            crate::config::validation::length_between_check(
                name,
                50,
                "alarm_name"@,
                "Alarm name must be between 1 and 50 characters"@,
            ),
    );
    assert(sensor_entry_check() == named_entry_check::<TempSensorConfig>(
        |name: Seq<char>|
            crate::config::validation::length_between_check(
                name,
                50,
                "sensor_name"@,
                "Sensor name must be between 1 and 50 characters"@,
            ),
    ));
}

/// Sets the name of every entry of `map` to its key.
fn name_entries<V: NamedSetting>(map: NamedMap<V>) -> (r: NamedMap<V>)
    ensures
        names_from_keys(map@, r@),
{
    let ghost before = map@;
    let mut entries = map.into_entries();
    let ghost orig = entries@;
    let mut out: Vec<(String, V)> = Vec::new();
    let n = entries.len();
    let mut i: usize = 0;
    while i < n
        invariant
            n == orig.len(),
            i <= n,
            before == orig.map_values(|e: (String, V)| (e.0@, e.1)),
            entries@ == orig.skip(i as int),
            out@.len() == i,
            forall|j: int|
                0 <= j < i ==> {
                    &&& (#[trigger] out@[j]).0@ == orig[j].0@
                    &&& out@[j].1.name_view() == orig[j].0@
                    &&& orig[j].1.same_except_name(&out@[j].1)
                },
        decreases n - i,
    {
        assert(entries@[0] == orig[i as int]);
        let (key, mut value) = entries.remove(0);
        value.set_name(key.clone());
        out.push((key, value));
        assert(entries@ =~= orig.skip(i + 1));
        i = i + 1;
    }
    let ghost after = out@.map_values(|e: (String, V)| (e.0@, e.1));
    assert(names_from_keys(before, after));
    assert(crate::named_map::distinct_names(after)) by {
        assert forall|a: int, b: int| 0 <= a < b < after.len() implies after[a].0 != after[b].0 by {
            assert(after[a].0 == before[a].0);
            assert(after[b].0 == before[b].0);
        }
    }
    NamedMap::from_entries(out).unwrap()
}

/// The file that a configuration is saved to when it was not loaded from one.
pub open spec fn default_config_path() -> Seq<char> {
    "config.json"@
}

impl AppConfig {
    /// Sets the name of every probe, fan and alarm to its key.
    fn populate_names(&mut self)
        ensures
            named_from(*old(self), *final(self), old(self).loaded_from),
    {
        let mut sensors = NamedMap::new();
        std::mem::swap(&mut sensors, &mut self.temp_sensors);
        self.temp_sensors = name_entries(sensors);
        let mut fans = NamedMap::new();
        std::mem::swap(&mut fans, &mut self.fans);
        self.fans = name_entries(fans);
        let mut alarms = NamedMap::new();
        std::mem::swap(&mut alarms, &mut self.alarms);
        self.alarms = name_entries(alarms);
    }

    /// Applies the command-line overrides.
    fn apply_cli_overrides(&mut self, cli_overrides: &CliOverrides)
        ensures
            *final(self) == overridden(*old(self), *cli_overrides),
    {
        if let Some(port) = cli_overrides.port {
            self.server.port = port;
        }
        if let Some(host) = &cli_overrides.host {
            self.server.host = host.clone();
        }
        if let Some(timeout) = cli_overrides.timeout {
            self.server.request_timeout_seconds = timeout;
        }
        if let Some(mock_mode) = cli_overrides.mock_mode {
            self.hardware.mock_mode = mock_mode;
        }
    }

    /// Completes the loading of a configuration parsed from the file at
    /// `path`: names each probe, fan and alarm after its key, applies the
    /// command-line overrides, validates, and records where it came from.
    pub fn from_parsed(mut config: AppConfig, path: String, cli_overrides: Option<&CliOverrides>) -> (r:
        ConfigResult<AppConfig>)
        ensures
            ({
                let expected = match cli_overrides {
                    Some(o) => overridden(config, *o),
                    None => config,
                };
                &&& r is Ok <==> expected.validation() is Ok
                &&& r matches Err(e) ==> expected.validation() == Err::<(), _>(e@)
                &&& r matches Ok(c) ==> named_from(expected, c, Some(path)) && c.validation() is Ok
            }),
    {
        let ghost parsed = config;
        config.populate_names();
        let ghost named = config;
        if let Some(overrides) = cli_overrides {
            config.apply_cli_overrides(overrides);
        }
        let ghost expected = match cli_overrides {
            Some(o) => overridden(parsed, *o),
            None => parsed,
        };
        proof {
            law_validation_ignores_names(expected, config, config.loaded_from);
        }
        match config.validate() {
            Ok(()) => {},
            Err(e) => {
                return Err(e);
            },
        }
        config.loaded_from = Some(path);
        proof {
            law_validation_ignores_names(expected, config, config.loaded_from);
        }
        Ok(config)
    }

    /// The file the configuration was loaded from, or `config.json`.
    pub fn get_file_path(&self) -> (p: &str)
        ensures
            p@ == match self.loaded_from {
                Some(f) => f@,
                None => default_config_path(),
            },
    {
        match &self.loaded_from {
            Some(path) => path.as_str(),
            None => "config.json",
        }
    }

    /// The configuration that replaces `self` by `other`: `other` keeps the
    /// file `self` was loaded from, its entries are named after their keys,
    /// and it must pass validation. `self` is left as it is; the caller backs
    /// it up, installs the result and saves it.
    pub fn prepare_replacement(&self, other: AppConfig) -> (r: ConfigResult<AppConfig>)
        ensures
            r is Ok <==> other.validation() is Ok,
            r matches Err(e) ==> other.validation() == Err::<(), _>(e@),
            r matches Ok(c) ==> named_from(other, c, self.loaded_from) && c.validation() is Ok,
    {
        let mut other = other;
        let ghost given = other;
        other.loaded_from = self.loaded_from.clone();
        other.populate_names();
        proof {
            law_validation_ignores_names(given, other, self.loaded_from);
        }
        other.validate()?;
        Ok(other)
    }
}

} // verus!
