use idp::config::{parse_bool, AppConfig, ConfigError, LogLevel};
use idp::request_info::{IpAddress, RequestInfoExtractr};

fn some(s: &str) -> Option<String> {
    Some(s.to_string())
}

fn read(
    is_dev: Option<String>,
    session: Option<String>,
    refresh: Option<String>,
    level: Option<String>,
) -> Result<AppConfig, ConfigError> {
    AppConfig::from_vars(some("0.0.0.0:3000"), some("postgres://x"), is_dev, session, refresh, level)
}

#[test]
fn a_complete_configuration_is_read() {
    let c = read(some("true"), some("sess"), some("ref"), some("debug")).ok().expect("config");
    assert_eq!(c.server_addr, "0.0.0.0:3000");
    assert_eq!(c.database_url, "postgres://x");
    assert!(c.is_dev);
    assert_eq!(c.session_secret, b"sess".to_vec());
    assert_eq!(c.refresh_secret, b"ref".to_vec());
    assert_eq!(c.log_level, LogLevel::Debug);
}

#[test]
fn defaults_apply_to_optional_variables() {
    let c = read(None, some("s"), some("r"), None).ok().expect("config");
    assert!(!c.is_dev);
    assert_eq!(c.log_level, LogLevel::Info);
}

#[test]
fn missing_variables_are_named_in_order() {
    let missing = |r: Result<AppConfig, ConfigError>| match r {
        Err(ConfigError::Missing(m)) => m,
        _ => panic!("expected a missing variable"),
    };
    assert_eq!(missing(AppConfig::from_vars(None, None, None, None, None, None)), "SERVER_ADDR must be set");
    assert_eq!(missing(AppConfig::from_vars(some("a"), None, None, None, None, None)), "DATABASE_URL must be set");
    assert_eq!(missing(read(None, None, some("r"), None)), "SESSION_SECRET must be set");
    assert_eq!(missing(read(None, some("s"), None, None)), "REFRESH_SECRET must be set");
}

#[test]
fn malformed_values_are_refused() {
    assert!(matches!(read(some("yes"), some("s"), some("r"), None), Err(ConfigError::InvalidBool)));
    assert!(matches!(read(some("TRUE"), some("s"), some("r"), None), Err(ConfigError::InvalidBool)));
    assert!(matches!(read(None, some("s"), some("r"), some("verbose")), Err(ConfigError::InvalidLogLevel)));
}

#[test]
fn log_levels_are_read_as_tracing_reads_them() {
    let level = |s: &str| read(None, some("s"), some("r"), some(s)).ok().map(|c| c.log_level);
    assert_eq!(level("TRACE"), Some(LogLevel::Trace));
    assert_eq!(level("warn"), Some(LogLevel::Warn));
    assert_eq!(level("0"), Some(LogLevel::Off));
    assert_eq!(level("1"), Some(LogLevel::Error));
    assert_eq!(level("off"), Some(LogLevel::Off));
    assert_eq!(level("6"), None);
    assert_eq!(level("+3"), Some(LogLevel::Info));
    assert_eq!(level("05"), Some(LogLevel::Trace));
    assert_eq!(level("InFo"), Some(LogLevel::Info));
    assert_eq!(level(""), Some(LogLevel::Error));
    assert_eq!(level("-1"), None);
    assert_eq!(level(" info"), None);
}

#[test]
fn booleans_are_exactly_true_or_false() {
    assert_eq!(parse_bool("true"), Some(true));
    assert_eq!(parse_bool("false"), Some(false));
    assert_eq!(parse_bool(" true"), None);
}

#[test]
fn the_first_forwarded_address_wins() {
    let fwd = vec![some("garbage, 203.0.113.7 , 10.0.0.1"), some("198.51.100.1")];
    assert_eq!(RequestInfoExtractr::get_ip_from_headers(&fwd, some("192.0.2.1")), Some(IpAddress::V4(3405803783)));
}

#[test]
fn later_forwarded_values_are_tried_in_turn() {
    let fwd = vec![some("unknown"), some(" ::1 ")];
    assert_eq!(RequestInfoExtractr::get_ip_from_headers(&fwd, None), Some(IpAddress::V6(1)));
}

#[test]
fn the_real_ip_header_is_the_fallback() {
    assert_eq!(RequestInfoExtractr::get_ip_from_headers(&vec![], some(" 127.0.0.1 ")), Some(IpAddress::V4(0x7f000001)));
    assert_eq!(RequestInfoExtractr::get_ip_from_headers(&vec![some("nope")], some("127.0.0.1")), Some(IpAddress::V4(0x7f000001)));
    assert_eq!(RequestInfoExtractr::get_ip_from_headers(&vec![], some("bad")), None);
    assert_eq!(RequestInfoExtractr::get_ip_from_headers(&vec![], None), None);
}

#[test]
fn an_unreadable_forwarded_value_stops_the_search() {
    let fwd = vec![None, some("203.0.113.7")];
    assert_eq!(RequestInfoExtractr::get_ip_from_headers(&fwd, some("127.0.0.1")), None);
}
