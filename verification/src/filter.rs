//! Resolving the verbosity filter, with a strict precedence rule: the
//! well-known environment variable (`RUST_LOG`) wins whenever it holds a
//! valid directive; otherwise the caller-supplied default directive is used,
//! and a default that does not parse is a typed configuration error, never a
//! silent fallback.
//!
//! The directive grammar itself belongs to the underlying filter parser;
//! this module never interprets it, it only routes strings into the parser
//! and decides which source wins.

use vstd::prelude::*;

use crate::errors::ConfigError;

verus! {

#[verifier::external_type_specification]
#[verifier::external_body]
pub struct ExEnvFilter(tracing_subscriber::EnvFilter);

#[verifier::external_type_specification]
#[verifier::external_body]
pub struct ExParseError(tracing_subscriber::filter::ParseError);

#[verifier::external_type_specification]
#[verifier::external_body]
pub struct ExFromEnvError(tracing_subscriber::filter::FromEnvError);

/// Whether the strict directive parser of `tracing_subscriber` accepts `s`.
/// The grammar is the parser's own; this name stands for its verdict, which
/// depends on the string alone.
pub uninterp spec fn directive_ok(s: Seq<char>) -> bool;

/// Relies on `tracing_subscriber::EnvFilter::try_new`: the strict parse of a
/// directive string, which succeeds or fails depending on the string alone.
#[verifier::external_body]
fn try_parse_directive(s: &str) -> (r: Result<
    tracing_subscriber::EnvFilter,
    tracing_subscriber::filter::ParseError,
>)
    ensures
        r is Ok <==> directive_ok(s@),
{
    tracing_subscriber::EnvFilter::try_new(s)
}

/// Relies on `tracing_subscriber::EnvFilter::try_from_default_env`: reads the
/// `RUST_LOG` environment variable and parses it strictly; `Err` when the
/// variable is unset or does not parse. Nothing is promised of the result:
/// it depends on the process environment.
#[verifier::external_body]
fn filter_from_env() -> Result<
    tracing_subscriber::EnvFilter,
    tracing_subscriber::filter::FromEnvError,
> {
    tracing_subscriber::EnvFilter::try_from_default_env()
}

/// The precedence rule of filter resolution: a filter read from the
/// environment, when there is one, wins over the caller's fallback.
pub fn choose_filter(
    from_env: Option<tracing_subscriber::EnvFilter>,
    fallback: tracing_subscriber::EnvFilter,
) -> (r: tracing_subscriber::EnvFilter)
    ensures
        from_env matches Some(f) ==> r == f,
        from_env is None ==> r == fallback,
{
    match from_env {
        Some(f) => f,
        None => fallback,
    }
}

/// Resolves the filter directive strictly: the environment variable when it
/// holds a valid directive, and otherwise `default_env`, which must itself
/// parse. A `default_env` that the parser rejects is a configuration error
/// whenever the environment does not supply a filter of its own — never a
/// silent downgrade.
pub fn resolve_filter(default_env: &str) -> (r: Result<
    tracing_subscriber::EnvFilter,
    ConfigError,
>)
    ensures
        directive_ok(default_env@) ==> r is Ok,
        r is Err ==> !directive_ok(default_env@),
        r is Err ==> r == Err::<tracing_subscriber::EnvFilter, ConfigError>(
            ConfigError::InvalidDirective,
        ),
{
    match filter_from_env() {
        Ok(f) => Ok(f),
        Err(_) => match try_parse_directive(default_env) {
            Ok(f) => Ok(f),
            Err(_) => Err(ConfigError::InvalidDirective),
        },
    }
}

/// The filter for the default sinks, under the traditional name of this
/// entry: the same strict resolution as [`resolve_filter`]. The environment
/// variable wins when it holds a valid directive; otherwise `default_env`
/// must itself parse, and a rejected default is a typed configuration error.
pub fn env_filter_with_default(default_env: &str) -> (r: Result<
    tracing_subscriber::EnvFilter,
    ConfigError,
>)
    ensures
        directive_ok(default_env@) ==> r is Ok,
        r is Err ==> !directive_ok(default_env@),
        r is Err ==> r == Err::<tracing_subscriber::EnvFilter, ConfigError>(
            ConfigError::InvalidDirective,
        ),
{
    resolve_filter(default_env)
}

} // verus!
