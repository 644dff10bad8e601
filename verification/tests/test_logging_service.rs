use hyperion_framework::logging::logging_service::{
    level_label, log_line, module_label, resolve_log_level, LogSeverity, LoggingService,
    SeverityFilter,
};

fn make_service(level: SeverityFilter) -> LoggingService {
    LoggingService { min_log_level: level }
}

const ALL_LEVELS: [LogSeverity; 5] = [
    LogSeverity::Error,
    LogSeverity::Warn,
    LogSeverity::Info,
    LogSeverity::Debug,
    LogSeverity::Trace,
];

#[test]
fn enabled_passes_at_or_above_min_level() {
    let svc = make_service(SeverityFilter::Info);
    assert!(svc.enabled(LogSeverity::Error));
    assert!(svc.enabled(LogSeverity::Warn));
    assert!(svc.enabled(LogSeverity::Info));
}

#[test]
fn enabled_filters_below_min_level() {
    let svc = make_service(SeverityFilter::Info);
    assert!(!svc.enabled(LogSeverity::Debug));
    assert!(!svc.enabled(LogSeverity::Trace));
}

#[test]
fn log_does_not_panic_for_all_levels() {
    let svc = make_service(SeverityFilter::Trace);
    let messages = ["error message", "warn message", "info message", "debug message", "trace message"];
    for (level, message) in ALL_LEVELS.iter().zip(messages.iter()) {
        assert!(svc.enabled(*level));
        let module = module_label(Some("test::module"));
        let line = log_line("2025-01-01 00:00:00", level_label(*level), &module, message);
        assert!(line.ends_with(message));
    }
}

#[test]
fn log_silently_skips_filtered_levels() {
    let svc = make_service(SeverityFilter::Error);
    assert!(!svc.enabled(LogSeverity::Trace));
}

#[test]
fn log_handles_missing_module_path() {
    assert_eq!(module_label(None), "unknown");
}

#[test]
fn off_filter_prints_nothing() {
    let svc = make_service(SeverityFilter::Off);
    for level in ALL_LEVELS {
        assert!(!svc.enabled(level));
    }
}

#[test]
fn module_label_takes_last_path_segment() {
    assert_eq!(module_label(Some("hyperion_framework::network::client")), "client");
    assert_eq!(module_label(Some("plain")), "plain");
    assert_eq!(module_label(Some("a::")), "");
    assert_eq!(module_label(Some("a:::b")), ":b");
}

#[test]
fn log_line_pads_module_column() {
    let line = log_line("T", "INFO ", "client", "hello");
    assert_eq!(line, "[T] INFO  client               - hello");
    let long = "a_module_name_longer_than_twenty";
    let line = log_line("T", "WARN ", long, "x");
    assert_eq!(line, format!("[T] WARN  {long} - x"));
}

#[test]
fn level_labels_are_five_wide() {
    assert_eq!(level_label(LogSeverity::Error), "ERROR");
    assert_eq!(level_label(LogSeverity::Warn), "WARN ");
    assert_eq!(level_label(LogSeverity::Info), "INFO ");
    assert_eq!(level_label(LogSeverity::Debug), "DEBUG");
    assert_eq!(level_label(LogSeverity::Trace), "TRACE");
}

#[test]
fn resolve_log_level_ignores_case_and_defaults_to_info() {
    assert_eq!(resolve_log_level("debug"), SeverityFilter::Debug);
    assert_eq!(resolve_log_level("TRACE"), SeverityFilter::Trace);
    assert_eq!(resolve_log_level("Off"), SeverityFilter::Off);
    assert_eq!(resolve_log_level("wArN"), SeverityFilter::Warn);
    assert_eq!(resolve_log_level("error"), SeverityFilter::Error);
    assert_eq!(resolve_log_level("verbose"), SeverityFilter::Info);
    assert_eq!(resolve_log_level(""), SeverityFilter::Info);
}
