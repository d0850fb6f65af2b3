use purchase_validate::arguments::{log_level, AppArguments, ArgumentError, ConfigPath, LogLevel};
use purchase_validate::load_arguments::AppArguments as LoadArguments;

fn path(exists: bool, is_file: bool) -> ConfigPath {
    ConfigPath { path: "config.yml".into(), exists, is_file }
}

#[test]
fn sequential_arguments_are_checked_in_order() {
    assert_eq!(AppArguments::new(path(false, false), 5), Err(ArgumentError::ConfigMissing));
    assert_eq!(AppArguments::new(path(true, false), 0), Err(ArgumentError::ConfigNotFile));
    assert_eq!(AppArguments::new(path(true, true), 3), Err(ArgumentError::VerboseOutOfRange));
    let args = AppArguments::new(path(true, true), 2).unwrap();
    assert_eq!(args.validate_arguments(), Ok(()));
}

#[test]
fn load_arguments_are_checked_in_order() {
    assert_eq!(LoadArguments::new(vec![], 1, 1, 0), Err(ArgumentError::NoConfigs));
    assert_eq!(
        LoadArguments::new(vec![path(true, true), path(false, true)], 1, 1, 0),
        Err(ArgumentError::ConfigMissing)
    );
    assert_eq!(
        LoadArguments::new(vec![path(true, true)], 1, 1, 3),
        Err(ArgumentError::VerboseOutOfRange)
    );
    assert_eq!(LoadArguments::new(vec![path(true, true)], 0, 1, 0), Err(ArgumentError::ZeroThreads));
    assert_eq!(LoadArguments::new(vec![path(true, true)], 2, 0, 0), Err(ArgumentError::ZeroRequests));
    assert!(LoadArguments::new(vec![path(true, true)], 2, 3, 1).is_ok());
}

#[test]
fn messages_and_log_levels() {
    assert_eq!(ArgumentError::VerboseOutOfRange.message(), "Verbose level must be in range [0; 2]");
    assert_eq!(ArgumentError::ZeroThreads.message(), "Requests threads cannot be zero");
    assert_eq!(log_level(0), Some(LogLevel::Info));
    assert_eq!(log_level(2), Some(LogLevel::Trace));
    assert_eq!(log_level(3), None);
}
