//! Tests that touch the host platform: resolving the log directory and
//! activating the backend.

use simple_file_logger::{get_log_path, init_logger, Error, LogLevel};

#[test]
fn test_get_log_path() {
    let path = get_log_path("my_app");
    let path = path.unwrap();
    assert!(path.contains("my_app"));
    assert!(path.contains("log"));
}

#[test]
fn test_log_path_segments() {
    let path = get_log_path("prog_x").unwrap();
    let parts: Vec<&str> = path.split(std::path::MAIN_SEPARATOR).collect();
    assert!(parts.len() >= 2);
    assert_eq!(parts[parts.len() - 2], "prog_x");
    assert_eq!(parts[parts.len() - 1], "log");
}

#[test]
fn test_init_logger() {
    init_logger("my_app", LogLevel::Info).unwrap();
}

#[test]
fn test_second_init_fails_deterministically() {
    init_logger("app_one", LogLevel::Info).unwrap();
    let second = init_logger("app_two", LogLevel::Info);
    assert!(matches!(second, Err(Error::Log(_))));
    let again = init_logger("app_two", LogLevel::Info);
    assert!(matches!(again, Err(Error::Log(_))));
}

#[test]
fn test_backend_error_message_prefix() {
    init_logger("app_three", LogLevel::Info).unwrap();
    let second = init_logger("app_four", LogLevel::Info);
    match second {
        Err(e @ Error::Log(_)) => {
            assert!(e.message().starts_with("FlexiLogger Error: "));
        }
        _ => panic!("second initialization should report a backend error"),
    }
}
