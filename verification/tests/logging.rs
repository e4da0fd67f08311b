use redirect_router::logging::{log_config, LogLevel, DEFAULT_PORT};

#[test]
fn env_filter_alone_at_zero_verbosity() {
    let c = log_config(true, 0);
    assert!(c.use_env_filter);
    assert!(c.max_level.is_none());
}

#[test]
fn env_filter_with_debug_cap() {
    let c = log_config(true, 1);
    assert!(c.use_env_filter);
    assert!(matches!(c.max_level, Some(LogLevel::Debug)));
}

#[test]
fn env_filter_with_trace_cap() {
    for verbose in [2u8, 3, 255] {
        let c = log_config(true, verbose);
        assert!(c.use_env_filter);
        assert!(matches!(c.max_level, Some(LogLevel::Trace)));
    }
}

#[test]
fn no_env_filter_defaults_to_info() {
    let c = log_config(false, 0);
    assert!(!c.use_env_filter);
    assert!(matches!(c.max_level, Some(LogLevel::Info)));
}

#[test]
fn no_env_filter_debug_and_trace() {
    let c = log_config(false, 1);
    assert!(!c.use_env_filter);
    assert!(matches!(c.max_level, Some(LogLevel::Debug)));
    for verbose in [2u8, 7, 255] {
        let c = log_config(false, verbose);
        assert!(!c.use_env_filter);
        assert!(matches!(c.max_level, Some(LogLevel::Trace)));
    }
}

#[test]
fn default_port_value() {
    assert_eq!(DEFAULT_PORT, 38081);
}
