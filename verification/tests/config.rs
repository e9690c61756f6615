use heartbeat_monitor::config::{
    read_duration, Config, ConfigError, RawSettings, Setting, Timing, DEFAULT_CHECK_INTERVAL_SECS,
    DEFAULT_DEBOUNCE_SECS, DEFAULT_TIMEOUT_SECS,
};
use heartbeat_monitor::decimal::parse_secs;

fn text(s: &str) -> Option<String> {
    Some(String::from(s))
}

fn raw(
    token: Option<&str>,
    user: Option<&str>,
    timeout: Option<&str>,
    interval: Option<&str>,
    debounce: Option<&str>,
) -> RawSettings {
    RawSettings {
        pushover_token: token.map(String::from),
        pushover_user: user.map(String::from),
        heartbeat_timeout_secs: timeout.map(String::from),
        check_interval_secs: interval.map(String::from),
        debounce_secs: debounce.map(String::from),
    }
}

fn fault_of(settings: RawSettings) -> ConfigError {
    match Config::from_raw(settings) {
        Ok(config) => panic!("unexpected configuration: {:?}", config),
        Err(fault) => fault,
    }
}

fn config_of(settings: RawSettings) -> Config {
    match Config::from_raw(settings) {
        Ok(config) => config,
        Err(fault) => panic!("unexpected fault: {:?}", fault),
    }
}

#[test]
fn plain_digits_are_a_number() {
    assert_eq!(parse_secs("0"), Some(0));
    assert_eq!(parse_secs("7"), Some(7));
    assert_eq!(parse_secs("90"), Some(90));
    assert_eq!(parse_secs("300"), Some(300));
    assert_eq!(parse_secs("1234567890"), Some(1_234_567_890));
}

#[test]
fn a_leading_plus_is_accepted_once() {
    assert_eq!(parse_secs("+5"), Some(5));
    assert_eq!(parse_secs("+0"), Some(0));
    assert_eq!(parse_secs("++5"), None);
    assert_eq!(parse_secs("+"), None);
    assert_eq!(parse_secs("5+"), None);
}

#[test]
fn leading_zeros_are_accepted() {
    assert_eq!(parse_secs("00090"), Some(90));
    assert_eq!(parse_secs("0000000000000000000000000000000000000001"), Some(1));
    assert_eq!(parse_secs("+000"), Some(0));
}

#[test]
fn the_empty_text_is_no_number() {
    assert_eq!(parse_secs(""), None);
}

#[test]
fn anything_but_digits_is_no_number() {
    for bad in [
        " 90", "90 ", "9 0", "-5", "-0", "1_000", "1,000", "9e3", "0x10", "ten", "90s", "9.0",
        "\t90", "90\n", "\u{ff19}\u{ff10}", "9\u{0660}", "\u{274c}",
    ] {
        assert_eq!(parse_secs(bad), None, "{:?}", bad);
    }
}

#[test]
fn the_largest_number_is_the_largest_of_64_bits() {
    assert_eq!(parse_secs("18446744073709551615"), Some(u64::MAX));
    assert_eq!(parse_secs("+18446744073709551615"), Some(u64::MAX));
    assert_eq!(parse_secs("018446744073709551615"), Some(u64::MAX));
    assert_eq!(parse_secs("18446744073709551616"), None);
    assert_eq!(parse_secs("18446744073709551620"), None);
    assert_eq!(parse_secs("99999999999999999999"), None);
    assert_eq!(parse_secs("100000000000000000000000000"), None);
    assert_eq!(parse_secs("1844674407370955161x"), None);
    assert_eq!(parse_secs("18446744073709551616x"), None);
}

#[test]
fn parse_secs_reads_what_the_standard_library_reads() {
    for s in [
        "", "0", "1", "9", "10", "90", "+90", "-90", "++9", "+-9", "+", "-", "a", "12a", "a12",
        " 1", "1 ", "007", "18446744073709551615", "18446744073709551616", "4294967296",
        "9223372036854775808", "1.5", "1e5", "\u{0661}", "\u{0663}", "1\u{0}", "\u{0}",
        "184467440737095516150", "+00000000000000000000018446744073709551615",
    ] {
        assert_eq!(parse_secs(s), s.parse::<u64>().ok(), "{:?}", s);
    }
}

#[test]
fn the_settings_have_their_names() {
    assert_eq!(Setting::PushoverToken.name(), "PUSHOVER_TOKEN");
    assert_eq!(Setting::PushoverUser.name(), "PUSHOVER_USER");
    assert_eq!(Setting::HeartbeatTimeoutSecs.name(), "HEARTBEAT_TIMEOUT_SECS");
    assert_eq!(Setting::CheckIntervalSecs.name(), "CHECK_INTERVAL_SECS");
    assert_eq!(Setting::DebounceSecs.name(), "DEBOUNCE_SECS");
}

#[test]
fn the_durations_have_defaults_and_the_credentials_have_none() {
    assert_eq!(Setting::PushoverToken.default_secs(), None);
    assert_eq!(Setting::PushoverUser.default_secs(), None);
    assert_eq!(Setting::HeartbeatTimeoutSecs.default_secs(), Some(90));
    assert_eq!(Setting::CheckIntervalSecs.default_secs(), Some(10));
    assert_eq!(Setting::DebounceSecs.default_secs(), Some(300));
    assert_eq!(DEFAULT_TIMEOUT_SECS, 90);
    assert_eq!(DEFAULT_CHECK_INTERVAL_SECS, 10);
    assert_eq!(DEFAULT_DEBOUNCE_SECS, 300);
    assert_eq!(
        Timing::default(),
        Timing { timeout_secs: 90, check_interval_secs: 10, debounce_secs: 300 }
    );
}

#[test]
fn a_duration_that_is_not_given_is_its_default() {
    assert_eq!(read_duration(&None, Setting::DebounceSecs, 300), Ok(300));
    assert_eq!(read_duration(&None, Setting::HeartbeatTimeoutSecs, 42), Ok(42));
}

#[test]
fn a_duration_that_is_given_is_read() {
    assert_eq!(read_duration(&text("15"), Setting::DebounceSecs, 300), Ok(15));
    assert_eq!(read_duration(&text("0"), Setting::CheckIntervalSecs, 10), Ok(0));
    assert_eq!(
        read_duration(&text("fifteen"), Setting::DebounceSecs, 300),
        Err(ConfigError::NotANumber { setting: Setting::DebounceSecs })
    );
    assert_eq!(
        read_duration(&text(""), Setting::CheckIntervalSecs, 10),
        Err(ConfigError::NotANumber { setting: Setting::CheckIntervalSecs })
    );
}

#[test]
fn credentials_alone_give_the_default_durations() {
    let config = config_of(raw(Some("tok"), Some("usr"), None, None, None));
    assert_eq!(config.timing, Timing { timeout_secs: 90, check_interval_secs: 10, debounce_secs: 300 });
    assert_eq!(config.credentials.token, "tok");
    assert_eq!(config.credentials.user, "usr");
}

#[test]
fn given_durations_replace_the_defaults() {
    let config = config_of(raw(Some("tok"), Some("usr"), Some("120"), Some("+5"), Some("0600")));
    assert_eq!(config.timing, Timing { timeout_secs: 120, check_interval_secs: 5, debounce_secs: 600 });
    let partly = config_of(raw(Some("tok"), Some("usr"), None, Some("1"), None));
    assert_eq!(partly.timing, Timing { timeout_secs: 90, check_interval_secs: 1, debounce_secs: 300 });
}

#[test]
fn empty_credentials_are_taken_as_they_are() {
    let config = config_of(raw(Some(""), Some(""), None, None, None));
    assert_eq!(config.credentials.token, "");
    assert_eq!(config.credentials.user, "");
}

#[test]
fn credentials_are_not_trimmed_or_changed() {
    let config = config_of(raw(Some(" a\u{e9}z "), Some("u=1&v=2"), None, None, None));
    assert_eq!(config.credentials.token, " a\u{e9}z ");
    assert_eq!(config.credentials.user, "u=1&v=2");
}

#[test]
fn a_missing_token_is_a_fault() {
    assert_eq!(
        fault_of(raw(None, Some("usr"), None, None, None)),
        ConfigError::Missing { setting: Setting::PushoverToken }
    );
}

#[test]
fn a_missing_user_is_a_fault() {
    assert_eq!(
        fault_of(raw(Some("tok"), None, None, None, None)),
        ConfigError::Missing { setting: Setting::PushoverUser }
    );
}

#[test]
fn a_malformed_timeout_is_a_fault() {
    assert_eq!(
        fault_of(raw(Some("tok"), Some("usr"), Some("ninety"), None, None)),
        ConfigError::NotANumber { setting: Setting::HeartbeatTimeoutSecs }
    );
}

#[test]
fn a_malformed_check_interval_is_a_fault() {
    assert_eq!(
        fault_of(raw(Some("tok"), Some("usr"), None, Some("-10"), None)),
        ConfigError::NotANumber { setting: Setting::CheckIntervalSecs }
    );
}

#[test]
fn a_malformed_debounce_is_a_fault() {
    assert_eq!(
        fault_of(raw(Some("tok"), Some("usr"), None, None, Some(""))),
        ConfigError::NotANumber { setting: Setting::DebounceSecs }
    );
    assert_eq!(
        fault_of(raw(Some("tok"), Some("usr"), None, None, Some("18446744073709551616"))),
        ConfigError::NotANumber { setting: Setting::DebounceSecs }
    );
}

#[test]
fn the_first_fault_is_reported() {
    assert_eq!(
        fault_of(raw(None, None, Some("x"), Some("x"), Some("x"))),
        ConfigError::Missing { setting: Setting::PushoverToken }
    );
    assert_eq!(
        fault_of(raw(Some("tok"), None, Some("x"), Some("x"), Some("x"))),
        ConfigError::Missing { setting: Setting::PushoverUser }
    );
    assert_eq!(
        fault_of(raw(Some("tok"), Some("usr"), Some("x"), Some("x"), Some("x"))),
        ConfigError::NotANumber { setting: Setting::HeartbeatTimeoutSecs }
    );
    assert_eq!(
        fault_of(raw(Some("tok"), Some("usr"), Some("1"), Some("x"), Some("x"))),
        ConfigError::NotANumber { setting: Setting::CheckIntervalSecs }
    );
    assert_eq!(
        fault_of(raw(Some("tok"), Some("usr"), Some("1"), Some("2"), Some("x"))),
        ConfigError::NotANumber { setting: Setting::DebounceSecs }
    );
}

#[test]
fn each_fault_has_its_diagnostic() {
    assert_eq!(
        ConfigError::Missing { setting: Setting::PushoverToken }.message(),
        "PUSHOVER_TOKEN must be set in .env"
    );
    assert_eq!(
        ConfigError::Missing { setting: Setting::PushoverUser }.message(),
        "PUSHOVER_USER must be set in .env"
    );
    assert_eq!(
        ConfigError::NotANumber { setting: Setting::HeartbeatTimeoutSecs }.message(),
        "HEARTBEAT_TIMEOUT_SECS must be a number"
    );
    assert_eq!(
        ConfigError::NotANumber { setting: Setting::CheckIntervalSecs }.message(),
        "CHECK_INTERVAL_SECS must be a number"
    );
    assert_eq!(
        ConfigError::NotANumber { setting: Setting::DebounceSecs }.message(),
        "DEBOUNCE_SECS must be a number"
    );
}
