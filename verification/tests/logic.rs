//! Tests of the pure logic: severity translation, path joining, and the
//! error taxonomy around the resolved path.

use simple_file_logger::{
    init_logger, init_logger_default, join_log_dir, level_token, log_message_of,
    resolve_or_error, Error, LogLevel,
};

#[test]
fn test_level_tokens() {
    assert_eq!(level_token(LogLevel::Trace), "trace");
    assert_eq!(level_token(LogLevel::Debug), "debug");
    assert_eq!(level_token(LogLevel::Info), "info");
    assert_eq!(level_token(LogLevel::Warn), "warn");
    assert_eq!(level_token(LogLevel::Error), "error");
}

#[test]
fn test_level_tokens_distinct() {
    let levels = [
        LogLevel::Trace,
        LogLevel::Debug,
        LogLevel::Info,
        LogLevel::Warn,
        LogLevel::Error,
    ];
    for a in levels {
        for b in levels {
            if a != b {
                assert_ne!(level_token(a), level_token(b));
            }
        }
    }
}

#[test]
fn test_default_level_is_info() {
    assert_eq!(LogLevel::default(), LogLevel::Info);
}

#[test]
fn test_level_order() {
    assert!(LogLevel::Trace < LogLevel::Debug);
    assert!(LogLevel::Debug < LogLevel::Info);
    assert!(LogLevel::Info < LogLevel::Warn);
    assert!(LogLevel::Warn < LogLevel::Error);
}

#[test]
fn test_join_log_dir() {
    assert_eq!(join_log_dir("base", "/", "my_app"), "base/my_app/log");
    assert_eq!(
        join_log_dir("C:\\Users\\u\\AppData\\Local", "\\", "my_app"),
        "C:\\Users\\u\\AppData\\Local\\my_app\\log"
    );
}

#[test]
fn test_resolve_or_error() {
    let ok = resolve_or_error(Some(String::from("somewhere/my_app/log")));
    assert_eq!(ok.unwrap(), "somewhere/my_app/log");
    let err = resolve_or_error(None);
    assert!(matches!(err, Err(Error::NoLogPathFound)));
}

#[test]
fn test_empty_name_fails_every_time() {
    for _ in 0..3 {
        let r = init_logger("", LogLevel::Info);
        assert!(matches!(r, Err(Error::EmptyProgramName)));
    }
}

#[test]
fn test_empty_name_default_level() {
    let r = init_logger_default("");
    assert!(matches!(r, Err(Error::EmptyProgramName)));
}

#[test]
fn test_log_message_of() {
    assert_eq!(log_message_of("boom"), "FlexiLogger Error: boom");
    assert_eq!(log_message_of(""), "FlexiLogger Error: ");
}

#[test]
fn test_error_messages() {
    assert_eq!(Error::EmptyProgramName.message(), "Empty program name");
    assert_eq!(
        Error::NoLogPathFound.message(),
        "Application data folder could not be found"
    );
}
