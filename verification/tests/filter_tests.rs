//! Tests of filter resolution: the environment variable wins whenever it
//! supplies a filter, and the caller's default is the fallback.

use tracing_subscriber::EnvFilter;
use ts_init::choose_filter;
use ts_init::env_filter_with_default;
use ts_init::resolve_filter;
use ts_init::ConfigError;

fn env_supplies_filter() -> bool {
    EnvFilter::try_from_default_env().is_ok()
}

#[test]
fn environment_filter_is_preferred() {
    let from_env = EnvFilter::try_new("debug").unwrap();
    let fallback = EnvFilter::try_new("info").unwrap();
    let chosen = choose_filter(Some(from_env), fallback);
    assert_eq!(chosen.to_string(), "debug");
}

#[test]
fn fallback_is_used_without_environment_filter() {
    let fallback = EnvFilter::try_new("info").unwrap();
    let chosen = choose_filter(None, fallback);
    assert_eq!(chosen.to_string(), "info");
}

#[test]
fn named_resolution_accepts_a_valid_default() {
    let r = env_filter_with_default("my_crate=warn");
    assert!(r.is_ok());
    if !env_supplies_filter() {
        assert_eq!(r.unwrap().to_string(), "my_crate=warn");
    }
}

#[test]
fn named_resolution_rejects_an_invalid_default() {
    let r = env_filter_with_default("!!not-a-directive!!");
    if env_supplies_filter() {
        assert!(r.is_ok());
    } else {
        assert_eq!(r.err(), Some(ConfigError::InvalidDirective));
    }
}

#[test]
fn strict_resolution_accepts_a_valid_default() {
    let r = resolve_filter("my_crate=debug,other=info");
    assert!(r.is_ok());
    if !env_supplies_filter() {
        assert_eq!(r.unwrap().to_string(), "my_crate=debug,other=info");
    }
}

#[test]
fn strict_resolution_rejects_an_invalid_default() {
    let r = resolve_filter("!!not-a-directive!!");
    if env_supplies_filter() {
        assert!(r.is_ok());
    } else {
        assert_eq!(r.err(), Some(ConfigError::InvalidDirective));
    }
}
