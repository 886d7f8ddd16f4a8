# rpi_smoker

A controller for a smoker's blower fan on a Raspberry Pi: temperature probes
read through an ADS1115 converter, a history of readings pushed to web
clients, alarms on the temperatures, and a JSON configuration that can be
patched, backed up and restored over an HTTP API.

The library under `src/` is verified. Every public function states
in its contract what it returns or changes; the laws of the library are
public proof functions next to the functions they speak of.

## Layout

- `src/time.rs`: instants with nanosecond precision (`Timestamp`) over
  chrono's calendar, time of day, whole seconds between instants.
- `src/float_bits.rs`: `f64` values carried as bit patterns, with their order,
  minimum and maximum decided on integers.
- `src/text.rs`: decimal rendering and identifier characters.
- `src/stable_sort.rs`: stable sorting by an integer key, with its law
  (keys in order, same items).
- `src/named_map.rs`: maps from names to values in insertion order, with the
  read-after-write law.
- `src/models/`: sensor readings, fan states, alarm events (with the
  monotone severity law), statistics, API replies, and their validation.
- `src/config/`: the configuration model, its validation (first failure in a
  fixed order), loading (names from keys, command-line overrides),
  replacement, and the ordering of backups (newest first, a stable sort).
- `src/server/`: the sensor server's settings, sensor definitions, the
  playback of recorded samples, the history window (with its truncation
  law), the alarm list of each poll, and the decisions of a client session.
- `tests/`: tests of the library on concrete values.
- `app/`: the programs around the library: file and network I/O, serde
  copies of the library's types, the HTTP and websocket servers, hardware
  access, and the floating-point measures (averages, percentages, voltages).
