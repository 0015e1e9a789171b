use charge_guard::actuator::{endpoint, switch_request};
use charge_guard::bridge::{level_in, level_of_line, read_remote_level, BridgeError};
use charge_guard::control::{
    Action, Controller, Event, LevelSource, Phase, RECOVERY_SECS, TICK_SECS,
};
use charge_guard::policy::{decide, SwitchCommand};
use charge_guard::reading::{
    battery_info_from, capacity_from, cpu_temp_from, is_known_status, mean_milli, SystemInfo,
};
use charge_guard::text::{parse_decimal, trim, Decimal};

fn reading(pct: Option<i64>, status: Option<&str>, temp: Option<i64>) -> SystemInfo {
    SystemInfo {
        cpu_temp: temp,
        battery_percentage: pct,
        battery_status: status.map(|s| s.to_string()),
    }
}

#[test]
fn trim_removes_surrounding_whitespace() {
    assert_eq!(trim("  Charging\n"), "Charging");
    assert_eq!(trim("\u{a0}\tx y \r\n"), "x y");
    assert_eq!(trim(" \n\t"), "");
    assert_eq!(trim(""), "");
}

#[test]
fn decimals_are_read_in_thousandths() {
    let d = parse_decimal("85").unwrap();
    assert_eq!(d, Decimal { negative: false, whole: 85, thousandths: 0 });
    assert_eq!(d.to_milli(), 85_000);
    assert_eq!(parse_decimal("85.5").unwrap().to_milli(), 85_500);
    assert_eq!(parse_decimal("0.05").unwrap().to_milli(), 50);
    assert_eq!(parse_decimal("-12.125").unwrap().to_milli(), -12_125);
    assert_eq!(parse_decimal("+7.").unwrap().to_milli(), 7_000);
    assert_eq!(parse_decimal(".25").unwrap().to_milli(), 250);
    assert_eq!(parse_decimal("1000000000000").unwrap().whole, 1_000_000_000_000);
}

#[test]
fn malformed_decimals_are_refused() {
    assert_eq!(parse_decimal(""), None);
    assert_eq!(parse_decimal("-"), None);
    assert_eq!(parse_decimal("."), None);
    assert_eq!(parse_decimal("8 5"), None);
    assert_eq!(parse_decimal("85%"), None);
    assert_eq!(parse_decimal("1.2.3"), None);
    assert_eq!(parse_decimal("1.2345"), None);
    assert_eq!(parse_decimal("1000000000001"), None);
}

#[test]
fn validity_needs_range_and_known_status() {
    assert!(reading(Some(50_000), Some("Charging"), None).validate());
    assert!(reading(Some(0), Some("Discharging"), None).validate());
    assert!(reading(Some(100_000), Some("Full"), None).validate());
    assert!(reading(Some(42_000), Some("Not charging"), None).validate());
    assert!(!reading(Some(-1), Some("Charging"), None).validate());
    assert!(!reading(Some(100_001), Some("Charging"), None).validate());
    assert!(!reading(Some(50_000), Some("Unknown"), None).validate());
    assert!(!reading(Some(50_000), Some("charging"), None).validate());
    assert!(!reading(None, Some("Charging"), None).validate());
    assert!(!reading(Some(50_000), None, None).validate());
}

#[test]
fn validity_ignores_temperature() {
    let a = reading(Some(50_000), Some("Full"), None);
    let b = reading(Some(50_000), Some("Full"), Some(95_000));
    let c = reading(Some(50_000), Some("Full"), Some(0));
    assert_eq!(a.validate(), b.validate());
    assert_eq!(a.validate(), c.validate());
    let d = reading(Some(150_000), Some("Full"), Some(40_000));
    assert!(!d.validate());
}

#[test]
fn known_statuses() {
    assert!(is_known_status("Charging"));
    assert!(is_known_status("Not charging"));
    assert!(!is_known_status("Not  charging"));
    assert!(!is_known_status(""));
}

#[test]
fn decision_thresholds() {
    assert_eq!(decide(0), Some(SwitchCommand::TurnOn));
    assert_eq!(decide(19_999), Some(SwitchCommand::TurnOn));
    assert_eq!(decide(20_000), None);
    assert_eq!(decide(50_000), None);
    assert_eq!(decide(80_000), None);
    assert_eq!(decide(80_001), Some(SwitchCommand::TurnOff));
    assert_eq!(decide(100_000), Some(SwitchCommand::TurnOff));
}

#[test]
fn mean_rounds_toward_zero() {
    assert_eq!(mean_milli(&vec![40_000, 50_000]), 45_000);
    assert_eq!(mean_milli(&vec![1, 2]), 1);
    assert_eq!(mean_milli(&vec![-1, -2]), -1);
    assert_eq!(mean_milli(&vec![i64::MAX, i64::MAX]), i64::MAX);
    assert_eq!(mean_milli(&vec![i64::MIN, i64::MIN, i64::MIN]), i64::MIN);
}

#[test]
fn cpu_temperature_sources() {
    assert_eq!(cpu_temp_from(&vec![40_000, 60_000], Some("99000\n")), 50_000);
    assert_eq!(cpu_temp_from(&vec![], Some("45123\n")), 45_123);
    assert_eq!(cpu_temp_from(&vec![], Some("-5000")), -5_000);
    assert_eq!(cpu_temp_from(&vec![], Some("garbage")), 0);
    assert_eq!(cpu_temp_from(&vec![], None), 0);
}

#[test]
fn sample_from_sensor_texts() {
    let info = SystemInfo::from_sources(&vec![], Some("47000\n"), Some("85\n"), Some("Charging\n"));
    assert_eq!(info.cpu_temp, Some(47_000));
    assert_eq!(info.battery_percentage, Some(85_000));
    assert_eq!(info.battery_status.as_deref(), Some("Charging"));
    assert!(info.validate());

    let partial = SystemInfo::from_sources(&vec![], None, Some("n/a"), None);
    assert_eq!(partial.cpu_temp, Some(0));
    assert_eq!(partial.battery_percentage, None);
    assert_eq!(partial.battery_status, None);
    assert!(!partial.validate());
    assert_eq!(capacity_from(" 100 "), Some(100_000));
}

#[test]
fn battery_info_defaults() {
    let (p, s) = battery_info_from(Some("73\n"), Some("Discharging\n"));
    assert_eq!(p, 73_000);
    assert_eq!(s, "Discharging");
    let (p, s) = battery_info_from(Some("x"), None);
    assert_eq!(p, 0);
    assert_eq!(s, "Unknown");
}

#[test]
fn bridge_level_line() {
    assert_eq!(level_of_line("  level: 85").unwrap().to_milli(), 85_000);
    assert_eq!(level_of_line("level:85\r").unwrap().to_milli(), 85_000);
    assert_eq!(level_of_line("level: 8:5"), None);
    assert_eq!(level_of_line("  AC powered: false"), None);
    assert_eq!(level_of_line("levels: 3"), None);
}

#[test]
fn bridge_output_gives_level() {
    let out = "Current Battery Service state:\n  AC powered: false\n  status: 2\n  level: 85\n  scale: 100\n";
    assert_eq!(read_remote_level(true, out, "").unwrap(), 85_000);
    assert_eq!(level_in("level: x\nlevel: 30\nlevel: 40").unwrap().to_milli(), 30_000);
    assert_eq!(level_in("level: 12"), parse_decimal("12"));
}

#[test]
fn bridge_output_without_level_fails_with_raw_output() {
    let out = "Current Battery Service state:\n  status: 2\n";
    match read_remote_level(true, out, "") {
        Err(BridgeError::ParseFailure { output }) => assert_eq!(output, out),
        other => panic!("unexpected {:?}", other),
    }
    let e = read_remote_level(true, out, "").unwrap_err();
    assert!(e.message().ends_with(out));
}

#[test]
fn bridge_failure_keeps_diagnostic() {
    let err = "error: no devices/emulators found";
    match read_remote_level(false, "level: 85\n", err) {
        Err(BridgeError::BridgeUnavailable { diagnostic }) => assert_eq!(diagnostic, err),
        other => panic!("unexpected {:?}", other),
    }
    let e = read_remote_level(false, "", err).unwrap_err();
    assert!(e.message().contains(err));
}

#[test]
fn switch_requests() {
    assert_eq!(endpoint(SwitchCommand::TurnOn), "turn_on");
    assert_eq!(endpoint(SwitchCommand::TurnOff), "turn_off");
    let r = switch_request("http://ha.local:8123/api", "SECRET-REDACTED", SwitchCommand::TurnOff);
    assert_eq!(r.url, "http://ha.local:8123/api/services/switch/turn_off");
    assert_eq!(r.authorization, "Bearer SECRET-REDACTED");
    assert_eq!(r.content_type, "application/json");
    assert_eq!(r.body, "{\"entity_id\": \"switch.smart_power_strip_socket_4\"}");
}

#[test]
fn repeated_turn_on_is_identical() {
    let a = switch_request("http://h/api", "t", SwitchCommand::TurnOn);
    let b = switch_request("http://h/api", "t", SwitchCommand::TurnOn);
    assert_eq!(a.url, b.url);
    assert_eq!(a.authorization, b.authorization);
    assert_eq!(a.body, b.body);
}

#[test]
fn missing_reading_waits_recovery_interval() {
    let (mut c, first) = Controller::new(LevelSource::Local);
    assert_eq!(first, Action::Sample);
    assert_eq!(c.step(Event::Sampled(None)), Action::Sleep(RECOVERY_SECS));
    assert_eq!(c.phase, Phase::Sleeping);
    assert_eq!(c.step(Event::Woke), Action::Sample);
}

#[test]
fn invalid_reading_waits_recovery_interval() {
    let (mut c, _) = Controller::new(LevelSource::Remote);
    let bad = reading(Some(120_000), Some("Charging"), None);
    assert_eq!(c.step(Event::Sampled(Some(bad))), Action::Sleep(RECOVERY_SECS));
}

#[test]
fn bridge_failure_skips_decision() {
    let (mut c, _) = Controller::new(LevelSource::Remote);
    let ok = reading(Some(50_000), Some("Charging"), None);
    assert_eq!(c.step(Event::Sampled(Some(ok))), Action::ReadRemoteLevel);
    let level = read_remote_level(false, "", "device unauthorized");
    assert_eq!(c.step(Event::LevelRead(level)), Action::Sleep(TICK_SECS));
}

#[test]
fn remote_level_decides() {
    let (mut c, _) = Controller::new(LevelSource::Remote);
    let ok = reading(Some(10_000), Some("Charging"), None);
    assert_eq!(c.step(Event::Sampled(Some(ok))), Action::ReadRemoteLevel);
    let level = read_remote_level(true, "  level: 85\n", "");
    assert_eq!(c.step(Event::LevelRead(level)), Action::Actuate(SwitchCommand::TurnOff));
    assert_eq!(
        c.step(Event::Actuated(false)),
        Action::Notify { command: SwitchCommand::TurnOff, succeeded: false }
    );
    assert_eq!(c.step(Event::Notified), Action::Sleep(TICK_SECS));
    assert_eq!(c.step(Event::Woke), Action::Sample);
}

#[test]
fn mid_band_level_sleeps_long() {
    let (mut c, _) = Controller::new(LevelSource::Local);
    let ok = reading(Some(55_000), Some("Discharging"), None);
    assert_eq!(c.step(Event::Sampled(Some(ok))), Action::Sleep(TICK_SECS));
}

#[test]
fn unexpected_event_restarts_tick() {
    let (mut c, _) = Controller::new(LevelSource::Local);
    assert_eq!(c.step(Event::Notified), Action::Sleep(RECOVERY_SECS));
    assert_eq!(c.phase, Phase::Sleeping);
}

#[test]
fn low_battery_end_to_end() {
    let info = SystemInfo::from_sources(&vec![], None, Some("15\n"), Some("Discharging\n"));
    assert!(info.validate());
    assert_eq!(decide(info.battery_percentage.unwrap()), Some(SwitchCommand::TurnOn));
    let (mut c, _) = Controller::new(LevelSource::Local);
    let action = c.step(Event::Sampled(Some(info)));
    assert_eq!(action, Action::Actuate(SwitchCommand::TurnOn));
    let req = switch_request("http://ha/api", "tok", SwitchCommand::TurnOn);
    assert!(req.url.ends_with("/services/switch/turn_on"));
    assert_eq!(
        c.step(Event::Actuated(true)),
        Action::Notify { command: SwitchCommand::TurnOn, succeeded: true }
    );
}
