//! Command-line arguments of the sequential check of one configuration file.
//! The caller parses the command line and looks at the file system; the
//! decisions on what was given are taken here.

use vstd::prelude::*;

verus! {

/// A configuration path as given, with what the file system says of it.
#[derive(Debug, Clone, PartialEq, Eq)]
pub struct ConfigPath {
    pub path: String,
    pub exists: bool,
    pub is_file: bool,
}

/// Why the command-line arguments were refused.
#[derive(Debug, Clone, Copy, PartialEq, Eq)]
pub enum ArgumentError {
    NoConfigs,
    ConfigMissing,
    ConfigNotFile,
    VerboseOutOfRange,
    ZeroThreads,
    ZeroRequests,
}

impl ArgumentError {
    /// The message shown to the user.
    pub fn message(&self) -> (r: &'static str)
        ensures
            *self == ArgumentError::NoConfigs ==> r@ == "Configs array cannot be empty"@,
            *self == ArgumentError::ConfigMissing ==> r@ == "Config file does not exist"@,
            *self == ArgumentError::ConfigNotFile ==> r@ == "Config file is not a file"@,
            *self == ArgumentError::VerboseOutOfRange ==> r@
                == "Verbose level must be in range [0; 2]"@,
            *self == ArgumentError::ZeroThreads ==> r@ == "Requests threads cannot be zero"@,
            *self == ArgumentError::ZeroRequests ==> r@
                == "Requests per thread count cannot be zero"@,
    {
        match self {
            ArgumentError::NoConfigs => "Configs array cannot be empty",
            ArgumentError::ConfigMissing => "Config file does not exist",
            ArgumentError::ConfigNotFile => "Config file is not a file",
            ArgumentError::VerboseOutOfRange => "Verbose level must be in range [0; 2]",
            ArgumentError::ZeroThreads => "Requests threads cannot be zero",
            ArgumentError::ZeroRequests => "Requests per thread count cannot be zero",
        }
    }
}

/// The detail of the log output.
#[derive(Debug, Clone, Copy, PartialEq, Eq)]
pub enum LogLevel {
    Info,
    Debug,
    Trace,
}

/// The log level for a verbosity count: none, one or two `-v`.
pub fn log_level(verbose: u8) -> (r: Option<LogLevel>)
    ensures
        verbose == 0 ==> r == Some(LogLevel::Info),
        verbose == 1 ==> r == Some(LogLevel::Debug),
        verbose == 2 ==> r == Some(LogLevel::Trace),
        verbose > 2 ==> r is None,
{
    match verbose {
        0 => Some(LogLevel::Info),
        1 => Some(LogLevel::Debug),
        2 => Some(LogLevel::Trace),
        _ => None,
    }
}

/// The first fault of a configuration path: missing, or not a regular file.
pub open spec fn path_fault(p: ConfigPath) -> Option<ArgumentError> {
    if !p.exists {
        Some(ArgumentError::ConfigMissing)
    } else if !p.is_file {
        Some(ArgumentError::ConfigNotFile)
    } else {
        None
    }
}

pub fn check_path(p: &ConfigPath) -> (r: Result<(), ArgumentError>)
    ensures
        match path_fault(*p) {
            Some(e) => r == Err::<(), _>(e),
            None => r is Ok,
        },
{
    if !p.exists {
        Err(ArgumentError::ConfigMissing)
    } else if !p.is_file {
        Err(ArgumentError::ConfigNotFile)
    } else {
        Ok(())
    }
}

/// The arguments of the sequential check.
#[derive(Debug, Clone, PartialEq, Eq)]
pub struct AppArguments {
    pub config: ConfigPath,
    pub verbose: u8,
}

impl AppArguments {
    /// The first fault of the arguments, in the order in which they are checked.
    pub open spec fn fault(&self) -> Option<ArgumentError> {
        if path_fault(self.config) is Some {
            path_fault(self.config)
        } else if self.verbose >= 3 {
            Some(ArgumentError::VerboseOutOfRange)
        } else {
            None
        }
    }

    /// Takes the arguments as given, and refuses them at their first fault.
    pub fn new(config: ConfigPath, verbose: u8) -> (r: Result<AppArguments, ArgumentError>)
        ensures
            match (AppArguments { config, verbose }).fault() {
                Some(e) => r == Err::<AppArguments, _>(e),
                None => r == Ok::<_, ArgumentError>(AppArguments { config, verbose }),
            },
    {
        let args = AppArguments { config, verbose };
        match args.validate_arguments() {
            Ok(()) => Ok(args),
            Err(e) => Err(e),
        }
    }

    /// Checks the configuration file, then the verbosity.
    pub fn validate_arguments(&self) -> (r: Result<(), ArgumentError>)
        ensures
            match self.fault() {
                Some(e) => r == Err::<(), _>(e),
                None => r is Ok,
            },
    {
        match check_path(&self.config) {
            Ok(()) => {},
            Err(e) => return Err(e),
        }
        if self.verbose >= 3 {
            return Err(ArgumentError::VerboseOutOfRange);
        }
        Ok(())
    }
}

} // verus!
