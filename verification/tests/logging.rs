use moss::error::ServerError;
use moss::logging::{log_level, log_target, LogLevel, LogTarget};

#[test]
fn log_targets() {
    assert!(matches!(log_target("stdout", None), Ok(LogTarget::Stdout)));
    match log_target("file", Some("/var/log/moss.log")) {
        Ok(LogTarget::File(p)) => assert_eq!(p, "/var/log/moss.log"),
        _ => panic!("expected a file target"),
    }
    match log_target("both", Some("moss.log")) {
        Ok(LogTarget::Both(p)) => assert_eq!(p, "moss.log"),
        _ => panic!("expected both targets"),
    }
    match log_target("file", None) {
        Err(ServerError::Operation(m)) => assert_eq!(m, "Missing log file path"),
        _ => panic!("expected an error"),
    }
    match log_target("syslog", None) {
        Err(ServerError::Operation(m)) => {
            assert_eq!(m, "Invalid log destination: syslog. Valid values are 'stdout', 'file', or 'both'")
        },
        _ => panic!("expected an error"),
    }
}

#[test]
fn log_levels() {
    assert_eq!(log_level(Some("trace")), LogLevel::Trace);
    assert_eq!(log_level(Some("debug")), LogLevel::Debug);
    assert_eq!(log_level(Some("info")), LogLevel::Info);
    assert_eq!(log_level(Some("warn")), LogLevel::Warn);
    assert_eq!(log_level(Some("error")), LogLevel::Error);
    assert_eq!(log_level(Some("loud")), LogLevel::Info);
    assert_eq!(log_level(None), LogLevel::Info);
}
