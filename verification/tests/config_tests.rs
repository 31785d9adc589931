use kworker_watchdog::config::{duration_from_parsed_ms, log_level, ConfigError, LogLevel};

fn parse_ms(s: &str) -> Option<u128> {
    humantime::parse_duration(s).ok().map(|d| d.as_millis())
}

#[test]
fn threshold_whole_seconds() {
    assert_eq!(duration_from_parsed_ms(parse_ms("30s")).unwrap(), 30 * 1000);
}

#[test]
fn threshold_minutes() {
    assert_eq!(duration_from_parsed_ms(parse_ms("1m")).unwrap(), 60 * 1000);
}

#[test]
fn threshold_milliseconds() {
    assert_eq!(duration_from_parsed_ms(parse_ms("1500ms")).unwrap(), 1500);
}

#[test]
fn threshold_compound() {
    assert_eq!(duration_from_parsed_ms(parse_ms("1m 30s")).unwrap(), 90 * 1000);
}

#[test]
fn threshold_rejects_garbage() {
    assert!(matches!(
        duration_from_parsed_ms(parse_ms("not a duration")),
        Err(ConfigError::InvalidDuration)
    ));
}

#[test]
fn threshold_rejects_bare_number() {
    assert!(matches!(
        duration_from_parsed_ms(parse_ms("30")),
        Err(ConfigError::InvalidDuration)
    ));
}

#[test]
fn threshold_rejects_overlong() {
    assert!(matches!(
        duration_from_parsed_ms(parse_ms("1000000000000000000s")),
        Err(ConfigError::DurationOutOfRange)
    ));
}

#[test]
fn threshold_boundary_values() {
    assert!(matches!(
        duration_from_parsed_ms(Some(i64::MAX as u128 + 1)),
        Err(ConfigError::DurationOutOfRange)
    ));
    assert_eq!(
        duration_from_parsed_ms(Some(i64::MAX as u128)).unwrap(),
        i64::MAX
    );
    assert_eq!(duration_from_parsed_ms(Some(0)).unwrap(), 0);
}

#[test]
fn log_level_defaults_to_warn() {
    assert_eq!(log_level(false, false), LogLevel::Warn);
}

#[test]
fn log_level_verbose_means_info() {
    assert_eq!(log_level(true, false), LogLevel::Info);
}

#[test]
fn log_level_debug_wins_over_verbose() {
    assert_eq!(log_level(true, true), LogLevel::Debug);
    assert_eq!(log_level(false, true), LogLevel::Debug);
}
