use vstd::prelude::*;

verus! {

/// The port the listener binds when none is given on the command line.
pub const DEFAULT_PORT: u16 = 38081;

/// A maximum log level, from least to most detailed.
pub enum LogLevel {
    Info,
    Debug,
    Trace,
}

/// The process-wide log configuration, decided once at startup and handed to
/// the observability collaborator's initializer. `use_env_filter` says
/// whether the environment's log-filter variable drives filtering;
/// `max_level` is the cap from the verbosity count, absent where the
/// environment filter alone decides.
pub struct LogConfig {
    pub use_env_filter: bool,
    pub max_level: Option<LogLevel>,
}

/// What the configuration must be for a given environment and verbosity
/// count: with the environment filter present, a count of zero leaves the
/// level to the filter, one caps it at debug, anything more at trace;
/// without it, zero means info, one debug, anything more trace.
pub open spec fn spec_log_config(env_filter_present: bool, verbose: u8) -> LogConfig {
    if env_filter_present {
        if verbose == 0 {
            LogConfig { use_env_filter: true, max_level: None }
        } else if verbose == 1 {
            LogConfig { use_env_filter: true, max_level: Some(LogLevel::Debug) }
        } else {
            LogConfig { use_env_filter: true, max_level: Some(LogLevel::Trace) }
        }
    } else {
        if verbose == 0 {
            LogConfig { use_env_filter: false, max_level: Some(LogLevel::Info) }
        } else if verbose == 1 {
            LogConfig { use_env_filter: false, max_level: Some(LogLevel::Debug) }
        } else {
            LogConfig { use_env_filter: false, max_level: Some(LogLevel::Trace) }
        }
    }
}

/// Decides the log configuration from whether the environment's log-filter
/// variable is set and from the repeatable verbosity flag's count.
pub fn log_config(env_filter_present: bool, verbose: u8) -> (c: LogConfig)
    ensures
        c == spec_log_config(env_filter_present, verbose),
{
    let max_level: Option<LogLevel> = if env_filter_present && verbose == 0 {
        None
    } else if verbose == 0 {
        Some(LogLevel::Info)
    } else if verbose == 1 {
        Some(LogLevel::Debug)
    } else {
        Some(LogLevel::Trace)
    };
    LogConfig { use_env_filter: env_filter_present, max_level }
}

} // verus!
