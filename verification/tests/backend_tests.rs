//! Tests of backend composition: which sinks a request composes, and which
//! requests are rejected. Nothing here installs a backend, so composition is
//! observed on independent instances without touching process-wide state.

use tracing_subscriber::EnvFilter;
use ts_init::compose;
use ts_init::init_logging;
use ts_init::ConfigError;
use ts_init::InstallError;
use ts_init::LoggingBackend;
use ts_init::Sink;

fn env_supplies_filter() -> bool {
    EnvFilter::try_from_default_env().is_ok()
}

#[test]
fn empty_request_composes_stderr_only() {
    let b = compose(&vec![], "info").unwrap();
    assert_eq!(b.sinks(), &vec![Sink::Stderr]);
    assert!(b.has_filter());
}

#[test]
fn empty_and_single_absent_compose_the_same_sinks() {
    let b0 = compose(&vec![], "info").unwrap();
    let b1 = compose(&vec![None], "info").unwrap();
    assert_eq!(b0.sinks(), b1.sinks());
    assert_eq!(b0.has_filter(), b1.has_filter());
}

#[test]
fn single_journal_request_has_no_stderr_sink() {
    let b = compose(&vec![Some("journal".to_string())], "info").unwrap();
    assert_eq!(b.sinks(), &vec![Sink::Journal]);
    assert!(!b.has_filter());
}

#[test]
fn single_file_request_redirects_to_the_file() {
    let b = compose(&vec![Some("app.log".to_string())], "info").unwrap();
    assert_eq!(b.sinks(), &vec![Sink::File("app.log".to_string())]);
    assert!(b.has_filter());
}

#[test]
fn absent_plus_file_activates_both_sinks() {
    let b = compose(&vec![None, Some("app.log".to_string())], "info").unwrap();
    assert_eq!(
        b.sinks(),
        &vec![Sink::Stderr, Sink::File("app.log".to_string())]
    );
    assert!(b.has_filter());
}

#[test]
fn absent_plus_journal_activates_both_sinks() {
    let b = compose(&vec![None, Some("journal".to_string())], "info").unwrap();
    assert_eq!(b.sinks(), &vec![Sink::Stderr, Sink::Journal]);
    assert!(b.has_filter());
}

#[test]
fn present_first_entry_is_a_configuration_error() {
    let r = compose(&vec![Some("app.log".to_string()), None], "info");
    assert!(r.is_err());
    assert_eq!(r.err(), Some(ConfigError::InvalidOutputShape));
}

#[test]
fn three_entries_are_a_configuration_error() {
    let r = compose(&vec![None, None, None], "info");
    assert_eq!(r.err(), Some(ConfigError::TooManyOutputs));
}

#[test]
fn invalid_default_directive_is_a_configuration_error() {
    let r = compose(&vec![], "!!not-a-directive!!");
    if env_supplies_filter() {
        // The environment variable holds a valid directive, so the bad
        // default is never parsed.
        assert!(r.is_ok());
    } else {
        assert_eq!(r.err(), Some(ConfigError::InvalidDirective));
    }
}

#[test]
fn directive_error_surfaces_before_shape_error() {
    let r = compose(&vec![None, None, None], "!!not-a-directive!!");
    if env_supplies_filter() {
        assert_eq!(r.err(), Some(ConfigError::TooManyOutputs));
    } else {
        assert_eq!(r.err(), Some(ConfigError::InvalidDirective));
    }
}

#[test]
fn init_logging_rejects_too_many_outputs_before_installing() {
    let r = init_logging(vec![None, None, None], "info");
    assert_eq!(
        r.err(),
        Some(InstallError::Config(ConfigError::TooManyOutputs))
    );
}

#[test]
fn init_logging_rejects_invalid_shape_before_installing() {
    let r = init_logging(vec![Some("app.log".to_string()), None], "info");
    assert_eq!(
        r.err(),
        Some(InstallError::Config(ConfigError::InvalidOutputShape))
    );
}

#[test]
fn chained_sinks_accumulate_in_order() {
    let b = LoggingBackend::build_default(EnvFilter::new("info"))
        .with_file_sink("a.log".to_string())
        .with_journal_sink();
    assert_eq!(
        b.sinks(),
        &vec![
            Sink::Stderr,
            Sink::File("a.log".to_string()),
            Sink::Journal
        ]
    );
    assert!(b.has_filter());
}

#[test]
fn with_filter_or_keeps_the_sinks() {
    let b = LoggingBackend::build_default(EnvFilter::new("info"))
        .with_journal_sink()
        .with_filter_or("debug")
        .unwrap();
    assert_eq!(b.sinks(), &vec![Sink::Stderr, Sink::Journal]);
    assert!(b.has_filter());
}

#[test]
fn with_filter_or_rejects_an_invalid_directive() {
    let r = LoggingBackend::build_default(EnvFilter::new("info"))
        .with_filter_or("!!not-a-directive!!");
    if env_supplies_filter() {
        assert!(r.is_ok());
    } else {
        assert_eq!(r.err(), Some(ConfigError::InvalidDirective));
    }
}

#[test]
fn unsupported_sink_set_is_rejected_without_installing() {
    let b = LoggingBackend::build_default(EnvFilter::new("info"))
        .with_journal_sink()
        .with_journal_sink();
    let r = b.install();
    assert_eq!(
        r.err(),
        Some(InstallError::Config(ConfigError::UnsupportedSinkSet))
    );
}

#[test]
fn empty_file_path_is_unavailable_without_installing() {
    let b = LoggingBackend::build_default(EnvFilter::new("info"))
        .with_file_sink(String::new());
    let r = b.install();
    assert_eq!(r.err(), Some(InstallError::SinkUnavailable));
}
