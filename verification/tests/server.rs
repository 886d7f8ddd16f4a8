use std::collections::VecDeque;
use std::ops::ControlFlow;

use rpi_smoker::float_bits::{bits_in_range, bits_le, bits_lt, bits_max, bits_min, u32_to_f64_bits};
use rpi_smoker::named_map::NamedMap;
use rpi_smoker::server::ads1115::{ADS1115Gain, Channel};
use rpi_smoker::server::expr::ParseableExpr;
use rpi_smoker::server::history::{record_tick, truncate_history, SensorData, TickData};
use rpi_smoker::server::sensors::{DummySensorInstance, EndOfData};
use rpi_smoker::server::session::{
    process_message, ClientSession, MessageKind, SessionAction, SessionEvent, FULL_UPDATES,
};
use rpi_smoker::server::settings::{default_history_size, default_poll_rate};
use rpi_smoker::time::{Timestamp, MAX_SECS, MIN_SECS};

fn at(secs: i64) -> Timestamp {
    Timestamp::from_parts(secs, 0).unwrap()
}

fn entry(secs: i64) -> SensorData {
    SensorData { ts: at(secs), temps: NamedMap::new() }
}

fn times(h: &VecDeque<SensorData>) -> Vec<i64> {
    h.iter().map(|d| d.ts.secs()).collect()
}

#[test]
fn settings_defaults() {
    assert_eq!(default_history_size(), 54_000);
    assert_eq!(default_poll_rate(), 5);
}

#[test]
fn channel_resolution() {
    assert_eq!(Channel::SingleA0.to_bits(), 15);
    assert_eq!(Channel::SingleA3.to_bits(), 15);
    assert_eq!(Channel::DifferentialA0A1.to_bits(), 16);
    assert_eq!(Channel::SingleA2.to_resolution(), 32768);
    assert_eq!(Channel::DifferentialA2A3.to_resolution(), 65536);
    assert_eq!(Channel::default(), Channel::SingleA0);
    assert_eq!(ADS1115Gain::default(), ADS1115Gain::Two);
}

#[test]
fn truncation_keeps_the_window() {
    let mut h: VecDeque<SensorData> = (0..10).map(|i| entry(100 + 10 * i)).collect();
    truncate_history(&mut h, 30);
    // the newest is at 190: entries at 160 and later stay
    assert_eq!(times(&h), vec![160, 170, 180, 190]);

    let mut empty: VecDeque<SensorData> = VecDeque::new();
    truncate_history(&mut empty, 5);
    assert!(empty.is_empty());

    let mut h: VecDeque<SensorData> = (0..3).map(|i| entry(10 * i)).collect();
    truncate_history(&mut h, 0);
    assert_eq!(times(&h), vec![20]);

    // repeating the truncation changes nothing
    let mut h: VecDeque<SensorData> = (0..10).map(|i| entry(5 * i)).collect();
    truncate_history(&mut h, 12);
    let once = times(&h);
    truncate_history(&mut h, 12);
    assert_eq!(times(&h), once);
    assert_eq!(once, vec![35, 40, 45]);
}

#[test]
fn truncation_at_the_first_entry_not_older() {
    // entries out of order: truncation cuts before the first entry that is
    // not older than the cutoff
    let mut h: VecDeque<SensorData> = vec![entry(50), entry(10), entry(60)].into_iter().collect();
    truncate_history(&mut h, 20);
    assert_eq!(times(&h), vec![50, 10, 60]);
}

#[test]
fn tick_records_and_raises() {
    let mut history: VecDeque<SensorData> = VecDeque::new();
    history.push_back(entry(0));
    let alarms = record_tick(
        &mut history,
        at(100),
        vec![
            ("probe1".to_string(), Some(20.5f64.to_bits())),
            ("probe2".to_string(), None),
            ("probe1".to_string(), Some(21.0f64.to_bits())),
        ],
        vec![
            ("hot".to_string(), Some(true)),
            ("cold".to_string(), Some(false)),
            ("broken".to_string(), None),
            ("smoke".to_string(), Some(true)),
        ],
        60,
    );
    assert_eq!(alarms, vec!["hot".to_string(), "smoke".to_string()]);
    assert_eq!(times(&history), vec![100]);
    let last = history.back().unwrap();
    assert_eq!(last.temps.len(), 1);
    assert_eq!(last.temps.get("probe1"), Some(&21.0f64.to_bits()));
    assert!(!last.temps.contains_key("probe2"));

    let t = TickData::new();
    assert!(t.history.is_empty() && t.active_alarms.is_empty());
}

#[test]
fn session_decisions() {
    assert_eq!(process_message(MessageKind::Close), ControlFlow::Break(()));
    assert_eq!(process_message(MessageKind::Text), ControlFlow::Continue(()));
    assert_eq!(process_message(MessageKind::Ping), ControlFlow::Continue(()));

    let mut s = ClientSession::new();
    assert_eq!(s.full_updates_left, FULL_UPDATES);
    assert_eq!(s.step(SessionEvent::Connected), SessionAction::Send { full: true });
    for _ in 0..5 {
        assert_eq!(s.step(SessionEvent::DataChanged), SessionAction::Send { full: true });
    }
    assert_eq!(s.step(SessionEvent::DataChanged), SessionAction::Send { full: false });
    assert_eq!(s.step(SessionEvent::DataChanged), SessionAction::Send { full: false });
    assert_eq!(s.full_updates_left, 0);
    assert_eq!(s.step(SessionEvent::Received(MessageKind::Binary)), SessionAction::Wait);
    assert_eq!(s.step(SessionEvent::ReceiveFailed), SessionAction::Wait);
    assert_eq!(s.step(SessionEvent::DataFailed), SessionAction::Wait);
    assert_eq!(s.step(SessionEvent::SendFailed), SessionAction::Stop);
    assert_eq!(s.step(SessionEvent::Disconnected), SessionAction::Stop);
    assert_eq!(s.step(SessionEvent::Received(MessageKind::Close)), SessionAction::Stop);
}

#[test]
fn playback_sorted_and_polled() {
    let t = |x: f64| x.to_bits();
    let mut inst = DummySensorInstance::from_samples(vec![
        (20, t(3.0)),
        (0, t(1.0)),
        (10, t(2.0)),
        (10, t(2.5)),
    ]);
    assert_eq!(
        inst.file_data,
        vec![(0, t(1.0)), (10, t(2.0)), (10, t(2.5)), (20, t(3.0))]
    );
    assert!(inst.start_time.is_none());

    // the first poll starts the playback
    assert_eq!(inst.poll(&at(1000)), Ok(t(1.0)));
    assert_eq!(inst.start_time, Some(at(1000)));
    assert_eq!(inst.poll(&at(1009)), Ok(t(1.0)));
    // of two samples due at once, the later in the list is given
    assert_eq!(inst.poll(&at(1010)), Ok(t(2.5)));
    assert_eq!(inst.poll(&at(5000)), Ok(t(3.0)));
    // before the start nothing is due: the playback ends and restarts
    assert_eq!(inst.poll(&at(999)), Err(EndOfData));
    assert!(inst.start_time.is_none());
    assert_eq!(inst.poll(&at(2000)), Ok(t(1.0)));
    assert_eq!(inst.start_time, Some(at(2000)));
    // a nanosecond short of a sample's second it is not due yet
    let almost = Timestamp::from_parts(2009, 999_999_999).unwrap();
    assert_eq!(inst.poll(&almost), Ok(t(1.0)));
}

#[test]
fn playback_without_samples_ends() {
    let mut inst = DummySensorInstance::from_samples(vec![]);
    assert_eq!(inst.poll(&at(10)), Err(EndOfData));
    assert!(inst.start_time.is_none());
}

#[test]
fn generated_playback() {
    let mut inst = DummySensorInstance::generated();
    assert_eq!(inst.file_data.len(), 900);
    assert_eq!(inst.file_data[0], (0, 20.0f64.to_bits()));
    assert_eq!(inst.file_data[1], (10, 22.0f64.to_bits()));
    assert_eq!(inst.file_data[899], (8990, (20.0 + 899.0 * 2.0f64).to_bits()));
    assert_eq!(inst.poll(&at(0)), Ok(20.0f64.to_bits()));
    assert_eq!(inst.poll(&at(25)), Ok(24.0f64.to_bits()));
}

#[test]
fn float_bits_conversions_and_order() {
    for n in [0u32, 1, 2, 3, 20, 1818, 65535, 1 << 24, (1 << 24) + 1, u32::MAX] {
        assert_eq!(u32_to_f64_bits(n), (n as f64).to_bits());
    }
    let b = |x: f64| x.to_bits();
    assert!(bits_lt(b(-1.0), b(0.0)));
    assert!(bits_lt(b(-2.0), b(-1.0)));
    assert!(bits_le(b(-0.0), b(0.0)) && bits_le(b(0.0), b(-0.0)));
    assert!(!bits_lt(b(-0.0), b(0.0)));
    assert!(!bits_le(b(f64::NAN), b(1.0)) && !bits_le(b(1.0), b(f64::NAN)));
    assert!(bits_lt(b(f64::NEG_INFINITY), b(f64::MIN)));
    assert!(bits_in_range(b(0.5), b(0.0), b(1.0)));
    assert!(!bits_in_range(b(1.5), b(0.0), b(1.0)));
    let vals = [-2.5, -0.0, 0.0, 1.0, 7.25, f64::INFINITY, f64::NEG_INFINITY];
    for x in vals {
        for y in vals {
            if x != y {
                assert_eq!(bits_min(b(x), b(y)), b(x.min(y)));
                assert_eq!(bits_max(b(x), b(y)), b(x.max(y)));
            }
        }
    }
    assert_eq!(bits_min(b(f64::NAN), b(3.0)), b(3.0));
    assert_eq!(bits_max(b(3.0), b(f64::NAN)), b(3.0));
    assert_eq!(bits_min(b(0.0), b(-0.0)), b(0.0));
}

#[test]
fn clock_and_seconds() {
    assert_eq!(at(3 * 3600 + 4 * 60 + 5).clock_time(), "03:04:05");
    assert_eq!(at(86400 + 59).clock_time(), "00:00:59");
    assert_eq!(at(-1).clock_time(), "23:59:59");
    assert_eq!(at(100).whole_seconds_since(&at(40)), 60);
    assert_eq!(at(40).whole_seconds_since(&at(100)), -60);
    let half = Timestamp::from_parts(100, 500_000_000).unwrap();
    assert_eq!(half.whole_seconds_since(&at(101)), 0);
    assert!(at(5).is_not_after(&at(5)));
    assert!(!at(6).is_not_after(&at(5)));
    assert!(Timestamp::from_parts(0, 1_000_000_000).is_none());
    assert!(Timestamp::now().secs() > 1_600_000_000);
}

#[test]
fn expressions_parse() {
    let e = ParseableExpr::parse("v * 100 + 3").unwrap();
    assert_eq!(e.str, "v * 100 + 3");
    assert_eq!(e.clone().str, "v * 100 + 3");
    assert!(ParseableExpr::parse("(1 +").is_err());
}

#[test]
fn named_map_basics() {
    let mut m: NamedMap<u32> = NamedMap::new();
    assert!(m.is_empty());
    assert_eq!(m.insert("a".to_string(), 1), None);
    assert_eq!(m.insert("b".to_string(), 2), None);
    assert_eq!(m.insert("a".to_string(), 3), Some(1));
    assert_eq!(m.len(), 2);
    assert_eq!(m.name_at(0), "a");
    assert_eq!(*m.value_at(0), 3);
    assert_eq!(m.find("b"), Some(1));
    assert_eq!(m.get("c"), None);
    assert!(NamedMap::from_entries(vec![("x".to_string(), 1), ("x".to_string(), 2)]).is_none());
    let m2 = NamedMap::from_entries(vec![("x".to_string(), 1), ("y".to_string(), 2)]).unwrap();
    assert_eq!(m2.clone().into_entries(), vec![("x".to_string(), 1), ("y".to_string(), 2)]);
}

#[test]
fn epoch_millis() {
    assert_eq!(at(5).millis_since_epoch(), 5000);
    assert_eq!(Timestamp::from_parts(1, 999_999_999).unwrap().millis_since_epoch(), 1999);
    assert_eq!(at(0).millis_since_epoch(), 0);
}

#[test]
fn instant_range_is_chrono_calendar() {
    assert!(Timestamp::from_parts(MAX_SECS, 999_999_999).is_some());
    assert!(Timestamp::from_parts(MAX_SECS + 1, 0).is_none());
    assert!(Timestamp::from_parts(MIN_SECS, 0).is_some());
    assert!(Timestamp::from_parts(MIN_SECS - 1, 999_999_999).is_none());
    assert_eq!(at(MAX_SECS).clock_time(), "23:59:59");
    assert_eq!(at(MIN_SECS).clock_time(), "00:00:00");
}

#[test]
fn parse_keeps_tree_and_error() {
    let a = ParseableExpr::parse("1 + 2").unwrap();
    let b = a.clone();
    assert_eq!(b.str, a.str);
    assert_eq!(format!("{:?}", b.data), format!("{:?}", a.data));
    let err = ParseableExpr::parse("(1 +").unwrap_err();
    assert_eq!(format!("{err}"), format!("{}", evalexpr::build_operator_tree("(1 +").unwrap_err()));
}
