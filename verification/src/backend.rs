//! Composing a logging backend out of sinks and installing it as the
//! process-wide default.
//!
//! A [`LoggingBackend`] is an ordered accumulation of sinks plus an optional
//! verbosity filter for its formatted sinks. It is plain data until
//! [`LoggingBackend::install`] materializes it through the underlying
//! logging framework and claims the one-shot process-wide slot. Keeping
//! composition and installation apart makes the one-shot contract explicit:
//! backends can be built and inspected freely without touching global state.

use vstd::prelude::*;

use tracing_subscriber::layer::SubscriberExt;

use crate::errors::ConfigError;
use crate::errors::InstallError;
use crate::filter::directive_ok;
use crate::filter::env_filter_with_default;
use crate::filter::resolve_filter;
use crate::outputs::journal_name;
use crate::outputs::plan_of;
use crate::outputs::plan_outputs;
use crate::outputs::PlanShape;
use crate::outputs::SinkPlan;

verus! {

#[verifier::external_type_specification]
#[verifier::external_body]
pub struct ExDispatch(tracing::Dispatch);

#[verifier::external_type_specification]
#[verifier::external_body]
pub struct ExSetGlobalDefaultError(tracing::subscriber::SetGlobalDefaultError);

#[verifier::external_type_specification]
#[verifier::external_body]
pub struct ExJournaldLayer(tracing_journald::Layer);

#[verifier::external_type_specification]
#[verifier::external_body]
pub struct ExIoError(std::io::Error);

#[verifier::external_type_specification]
#[verifier::external_body]
pub struct ExRollingFileAppender(tracing_appender::rolling::RollingFileAppender);

#[verifier::external_type_specification]
#[verifier::external_body]
pub struct ExRollingInitError(tracing_appender::rolling::InitError);

/// One sink of a composed backend.
#[derive(Debug, PartialEq, Eq)]
pub enum Sink {
    /// Formatted, human-readable records to standard error.
    Stderr,
    /// Formatted records appended to the file at this path, without ANSI
    /// color codes.
    File(String),
    /// Structured records to the system journal.
    Journal,
}

/// One sink at the specification level, with file paths as character
/// sequences.
pub enum SinkModel {
    Stderr,
    File(Seq<char>),
    Journal,
}

impl View for Sink {
    type V = SinkModel;

    open spec fn view(&self) -> SinkModel {
        match self {
            Sink::Stderr => SinkModel::Stderr,
            Sink::File(p) => SinkModel::File(p@),
            Sink::Journal => SinkModel::Journal,
        }
    }
}

/// A backend at the specification level: its sinks, in order, and whether a
/// filter accompanies them.
pub struct BackendModel {
    pub filter: Option<tracing_subscriber::EnvFilter>,
    pub sinks: Seq<SinkModel>,
}

/// A composed, not yet installed logging backend.
pub struct LoggingBackend {
    filter: Option<tracing_subscriber::EnvFilter>,
    sinks: Vec<Sink>,
}

impl View for LoggingBackend {
    type V = BackendModel;

    closed spec fn view(&self) -> BackendModel {
        BackendModel {
            filter: self.filter,
            sinks: self.sinks@.map_values(|s: Sink| s@),
        }
    }
}

/// Whether a backend model holds a standard-error sink.
pub open spec fn model_stderr(v: BackendModel) -> bool {
    exists|i: int| 0 <= i < v.sinks.len() && (#[trigger] v.sinks[i]) is Stderr
}

/// Whether a backend model holds a journal sink.
pub open spec fn model_journal(v: BackendModel) -> bool {
    exists|i: int| 0 <= i < v.sinks.len() && (#[trigger] v.sinks[i]) is Journal
}

/// Whether a backend model holds a file sink.
pub open spec fn model_file(v: BackendModel) -> bool {
    exists|i: int| 0 <= i < v.sinks.len() && (#[trigger] v.sinks[i]) is File
}

/// Whether a backend model holds a file sink with an empty path, which no
/// writer can be opened for.
pub open spec fn model_empty_file(v: BackendModel) -> bool {
    exists|i: int|
        0 <= i < v.sinks.len() && ((#[trigger] v.sinks[i]) matches SinkModel::File(p)
            && p.len() == 0)
}

/// The sink sets that installation knows how to materialize: exactly the
/// shapes that [`compose`] produces. Every formatted shape carries a filter;
/// the journal-only shape carries none and relies on ambient severity.
pub open spec fn installable_model(v: BackendModel) -> bool {
    ||| (v.sinks == seq![SinkModel::Stderr] && v.filter is Some)
    ||| v.sinks == seq![SinkModel::Journal]
    ||| (v.sinks.len() == 1 && v.sinks[0] is File && v.filter is Some)
    ||| (v.sinks == seq![SinkModel::Stderr, SinkModel::Journal] && v.filter is Some)
    ||| (v.sinks.len() == 2 && v.sinks[0] is Stderr && v.sinks[1] is File && v.filter is Some)
}

/// The sinks a backend built from plan `p` holds: the plan's sinks in
/// order, with a filter on every formatted shape and none in the
/// journal-only shape (which inherits ambient severity).
pub open spec fn backend_matches_plan(v: BackendModel, p: PlanShape) -> bool {
    match p {
        PlanShape::StderrOnly => v.sinks == seq![SinkModel::Stderr] && v.filter is Some,
        PlanShape::JournalOnly => v.sinks == seq![SinkModel::Journal] && v.filter is None,
        PlanShape::FileOnly(path) => v.sinks == seq![SinkModel::File(path)] && v.filter is Some,
        PlanShape::StderrAndJournal => v.sinks == seq![SinkModel::Stderr, SinkModel::Journal]
            && v.filter is Some,
        PlanShape::StderrAndFile(path) => v.sinks == seq![
            SinkModel::Stderr,
            SinkModel::File(path),
        ] && v.filter is Some,
    }
}

/// Backends composed from an empty output request and from a single absent
/// entry are observably equivalent: the same sink set (the standard-error
/// sink alone), each with a filter.
pub proof fn lemma_compose_empty_equals_single_absent(v0: BackendModel, v1: BackendModel)
    requires
        backend_matches_plan(v0, plan_of(Seq::<Option<Seq<char>>>::empty())->Ok_0),
        backend_matches_plan(v1, plan_of(seq![Option::<Seq<char>>::None])->Ok_0),
    ensures
        v0.sinks == v1.sinks,
        v0.sinks == seq![SinkModel::Stderr],
        v0.filter is Some && v1.filter is Some,
{
}

/// A backend composed from the single-entry journal request holds the
/// journal sink and no standard-error sink: the journal entry replaces the
/// base sink entirely.
pub proof fn lemma_compose_single_journal_no_stderr(v: BackendModel)
    requires
        backend_matches_plan(v, plan_of(seq![Some(journal_name())])->Ok_0),
    ensures
        model_journal(v),
        !model_stderr(v),
{
    assert(v.sinks == seq![SinkModel::Journal]);
    assert(v.sinks[0] is Journal);
    assert forall|i: int| 0 <= i < v.sinks.len() implies !((#[trigger] v.sinks[i]) is Stderr) by {
        assert(v.sinks[i] == v.sinks[0]);
    }
}

/// Every backend that matches a validated plan is one that installation
/// knows how to materialize.
pub proof fn lemma_plan_backend_installable(v: BackendModel, p: PlanShape)
    requires
        backend_matches_plan(v, p),
    ensures
        installable_model(v),
{
}

/// Relies on `tracing::dispatcher::set_global_default`: claims the
/// process-wide default slot for `d`, one-shot. `Err` exactly when the slot
/// was already claimed, in which case the earlier default is left untouched.
#[verifier::external_body]
fn install_dispatch(d: tracing::Dispatch) -> Result<
    (),
    tracing::subscriber::SetGlobalDefaultError,
> {
    tracing::dispatcher::set_global_default(d)
}

/// Relies on `tracing_subscriber::fmt` and `tracing::Dispatch::new`: a
/// formatted subscriber writing to standard error, filtered by `f`.
#[verifier::external_body]
fn dispatch_stderr(f: tracing_subscriber::EnvFilter) -> tracing::Dispatch {
    let s = tracing_subscriber::fmt().with_env_filter(f).with_writer(std::io::stderr).finish();
    tracing::Dispatch::new(s)
}

/// Relies on `tracing_journald::layer`: connects to the system journal's
/// socket; `Err` when the journal service is unavailable.
#[verifier::external_body]
fn journal_layer() -> Result<tracing_journald::Layer, std::io::Error> {
    tracing_journald::layer()
}

/// Relies on `tracing_subscriber::registry::Registry` and
/// `tracing::Dispatch::new`: a subscriber whose only layer is the journal
/// layer `l`, with no filter of its own.
#[verifier::external_body]
fn dispatch_journal_only(l: tracing_journald::Layer) -> tracing::Dispatch {
    let s = tracing_subscriber::registry::Registry::default().with(l);
    tracing::Dispatch::new(s)
}

/// Relies on `tracing_subscriber::fmt` and `tracing::Dispatch::new`: a
/// formatted standard-error subscriber filtered by `f`, layered with the
/// journal layer `l` (which keeps no filter of its own).
#[verifier::external_body]
fn dispatch_stderr_journal(
    f: tracing_subscriber::EnvFilter,
    l: tracing_journald::Layer,
) -> tracing::Dispatch {
    let s = tracing_subscriber::fmt().with_env_filter(f).with_writer(
        std::io::stderr,
    ).finish().with(l);
    tracing::Dispatch::new(s)
}

/// Relies on `tracing_appender::rolling::RollingFileAppender` with
/// `Rotation::NEVER`: a writer that appends to the file at `path` (resolved
/// against the current directory when relative), creating it and its parent
/// directories as needed, and never truncates or rotates it. `Err` when the
/// file cannot be created. Callers keep empty paths away: the appender would
/// substitute a date-stamped file name for an empty one.
#[verifier::external_body]
fn open_file_appender(path: &str) -> Result<
    tracing_appender::rolling::RollingFileAppender,
    tracing_appender::rolling::InitError,
> {
    tracing_appender::rolling::RollingFileAppender::builder().rotation(
        tracing_appender::rolling::Rotation::NEVER,
    ).filename_prefix(path).build(".")
}

/// Relies on `tracing_subscriber::fmt` and `tracing::Dispatch::new`: a
/// formatted subscriber filtered by `f` whose records go to the file writer
/// `w` alone, with ANSI color codes disabled.
#[verifier::external_body]
fn dispatch_file_only(
    f: tracing_subscriber::EnvFilter,
    w: tracing_appender::rolling::RollingFileAppender,
) -> tracing::Dispatch {
    let s = tracing_subscriber::fmt().with_env_filter(f).with_writer(w).with_ansi(false).finish();
    tracing::Dispatch::new(s)
}

/// Relies on `tracing_subscriber::fmt`, `tracing_subscriber::fmt::layer` and
/// `tracing::Dispatch::new`: a formatted standard-error subscriber filtered
/// by `f`, layered with a formatted file layer writing through `w` with ANSI
/// color codes disabled.
#[verifier::external_body]
fn dispatch_stderr_file(
    f: tracing_subscriber::EnvFilter,
    w: tracing_appender::rolling::RollingFileAppender,
) -> tracing::Dispatch {
    let s = tracing_subscriber::fmt().with_env_filter(f).with_writer(
        std::io::stderr,
    ).finish().with(tracing_subscriber::fmt::layer().with_ansi(false).with_writer(w));
    tracing::Dispatch::new(s)
}

impl LoggingBackend {
    /// A backend with a single sink: formatted records to standard error,
    /// filtered by `filter`.
    pub fn build_default(filter: tracing_subscriber::EnvFilter) -> (b: LoggingBackend)
        ensures
            b@.filter == Some(filter),
            b@.sinks == seq![SinkModel::Stderr],
    {
        let b = LoggingBackend { filter: Some(filter), sinks: vec![Sink::Stderr] };
        proof {
            assert(b@.sinks =~= seq![SinkModel::Stderr]);
        }
        b
    }

    /// The composed sinks, in order.
    pub fn sinks(&self) -> (s: &Vec<Sink>)
        ensures
            s@.map_values(|x: Sink| x@) == self@.sinks,
    {
        &self.sinks
    }

    /// Whether a verbosity filter accompanies the formatted sinks.
    pub fn has_filter(&self) -> (r: bool)
        ensures
            r == (self@.filter is Some),
    {
        self.filter.is_some()
    }

    /// Applies the strictly resolved filter as the backend's filtering
    /// layer: the environment variable when it holds a valid directive, and
    /// otherwise `default_env`, which must itself parse. A rejected default
    /// is a typed configuration error, never a silent downgrade; on success
    /// the sinks are kept as they are.
    pub fn with_filter_or(self, default_env: &str) -> (r: Result<LoggingBackend, ConfigError>)
        ensures
            r matches Ok(b) ==> b@.sinks == self@.sinks && b@.filter is Some,
            directive_ok(default_env@) ==> r is Ok,
            r is Err ==> r == Err::<LoggingBackend, ConfigError>(ConfigError::InvalidDirective)
                && !directive_ok(default_env@),
    {
        match env_filter_with_default(default_env) {
            Ok(f) => Ok(LoggingBackend { filter: Some(f), sinks: self.sinks }),
            Err(e) => Err(e),
        }
    }

    /// Adds a file-backed sink for `path`: append mode, no color codes.
    pub fn with_file_sink(self, path: String) -> (b: LoggingBackend)
        ensures
            b@.filter == self@.filter,
            b@.sinks == self@.sinks.push(SinkModel::File(path@)),
    {
        let mut b = self;
        let ghost before = b@.sinks;
        b.sinks.push(Sink::File(path));
        proof {
            assert(b@.sinks =~= before.push(SinkModel::File(path@)));
        }
        b
    }

    /// Adds a system-journal sink with no filter of its own: it relies on
    /// whatever filtering already exists on the backend, or none.
    pub fn with_journal_sink(self) -> (b: LoggingBackend)
        ensures
            b@.filter == self@.filter,
            b@.sinks == self@.sinks.push(SinkModel::Journal),
    {
        let mut b = self;
        let ghost before = b@.sinks;
        b.sinks.push(Sink::Journal);
        proof {
            assert(b@.sinks =~= before.push(SinkModel::Journal));
        }
        b
    }

    /// Attempts the one-shot installation of this backend as the
    /// process-wide default.
    ///
    /// A sink set that installation cannot materialize is a configuration
    /// error; a file sink with an empty path cannot be opened; beyond that,
    /// installation fails exactly when the process-wide slot is already
    /// taken, or when a journal sink is requested and the journal service is
    /// unavailable.
    pub fn install(self) -> (r: Result<(), InstallError>)
        ensures
            (r == Err::<(), InstallError>(InstallError::Config(ConfigError::UnsupportedSinkSet)))
                <==> !installable_model(self@),
            installable_model(self@) && model_empty_file(self@) ==> r == Err::<(), InstallError>(
                InstallError::SinkUnavailable,
            ),
            installable_model(self@) && !model_journal(self@) && !model_file(self@) ==> (r is Ok
                || r == Err::<(), InstallError>(InstallError::AlreadyInstalled)),
            installable_model(self@) ==> (r is Ok || r == Err::<(), InstallError>(
                InstallError::AlreadyInstalled,
            ) || r == Err::<(), InstallError>(InstallError::SinkUnavailable)),
    {
        let LoggingBackend { filter, sinks } = self;
        if sinks.len() == 1 {
            match (&sinks[0], filter) {
                (Sink::Journal, _) => {
                    proof {
                        assert(self@.sinks =~= seq![SinkModel::Journal]);
                    }
                    match journal_layer() {
                        Err(_) => Err(InstallError::SinkUnavailable),
                        Ok(l) => match install_dispatch(dispatch_journal_only(l)) {
                            Ok(()) => Ok(()),
                            Err(_) => Err(InstallError::AlreadyInstalled),
                        },
                    }
                },
                (Sink::Stderr, Some(f)) => {
                    proof {
                        assert(self@.sinks =~= seq![SinkModel::Stderr]);
                    }
                    match install_dispatch(dispatch_stderr(f)) {
                        Ok(()) => Ok(()),
                        Err(_) => Err(InstallError::AlreadyInstalled),
                    }
                },
                (Sink::File(p), Some(f)) => {
                    if p.as_str().unicode_len() == 0 {
                        Err(InstallError::SinkUnavailable)
                    } else {
                        match open_file_appender(p.as_str()) {
                            Err(_) => Err(InstallError::SinkUnavailable),
                            Ok(w) => match install_dispatch(dispatch_file_only(f, w)) {
                                Ok(()) => Ok(()),
                                Err(_) => Err(InstallError::AlreadyInstalled),
                            },
                        }
                    }
                },
                _ => Err(InstallError::Config(ConfigError::UnsupportedSinkSet)),
            }
        } else if sinks.len() == 2 {
            match (&sinks[0], &sinks[1], filter) {
                (Sink::Stderr, Sink::Journal, Some(f)) => {
                    proof {
                        assert(self@.sinks =~= seq![SinkModel::Stderr, SinkModel::Journal]);
                    }
                    match journal_layer() {
                        Err(_) => Err(InstallError::SinkUnavailable),
                        Ok(l) => match install_dispatch(dispatch_stderr_journal(f, l)) {
                            Ok(()) => Ok(()),
                            Err(_) => Err(InstallError::AlreadyInstalled),
                        },
                    }
                },
                (Sink::Stderr, Sink::File(p), Some(f)) => {
                    if p.as_str().unicode_len() == 0 {
                        Err(InstallError::SinkUnavailable)
                    } else {
                        match open_file_appender(p.as_str()) {
                            Err(_) => Err(InstallError::SinkUnavailable),
                            Ok(w) => match install_dispatch(dispatch_stderr_file(f, w)) {
                                Ok(()) => Ok(()),
                                Err(_) => Err(InstallError::AlreadyInstalled),
                            },
                        }
                    }
                },
                _ => Err(InstallError::Config(ConfigError::UnsupportedSinkSet)),
            }
        } else {
            Err(InstallError::Config(ConfigError::UnsupportedSinkSet))
        }
    }
}

/// Builds a backend from a requested output list and a default filter
/// directive, without installing it.
///
/// The filter is resolved first, as the all-in-one path always did, so a
/// rejected default directive surfaces before any output-shape error; then
/// the output list is validated and the plan's sinks are composed.
pub fn compose(outputs: &Vec<Option<String>>, filter_default: &str) -> (r: Result<
    LoggingBackend,
    ConfigError,
>)
    ensures
        r matches Ok(b) ==> plan_of(outputs.deep_view()) matches Ok(p) && backend_matches_plan(
            b@,
            p,
        ),
        directive_ok(filter_default@) && plan_of(outputs.deep_view()) is Ok ==> r is Ok,
        r == Err::<LoggingBackend, ConfigError>(ConfigError::InvalidDirective) ==> !directive_ok(
            filter_default@,
        ),
        r is Err && r->Err_0 != ConfigError::InvalidDirective ==> plan_of(outputs.deep_view())
            == Err::<PlanShape, ConfigError>(r->Err_0),
        directive_ok(filter_default@) && plan_of(outputs.deep_view()) is Err ==> r == Err::<
            LoggingBackend,
            ConfigError,
        >(plan_of(outputs.deep_view())->Err_0),
{
    let f = match resolve_filter(filter_default) {
        Ok(f) => f,
        Err(e) => {
            return Err(e);
        },
    };
    let plan = match plan_outputs(outputs) {
        Ok(p) => p,
        Err(e) => {
            return Err(e);
        },
    };
    match plan {
        SinkPlan::StderrOnly => {
            let b = LoggingBackend { filter: Some(f), sinks: vec![Sink::Stderr] };
            proof {
                assert(b@.sinks =~= seq![SinkModel::Stderr]);
            }
            Ok(b)
        },
        SinkPlan::JournalOnly => {
            let b = LoggingBackend { filter: None, sinks: vec![Sink::Journal] };
            proof {
                assert(b@.sinks =~= seq![SinkModel::Journal]);
            }
            Ok(b)
        },
        SinkPlan::FileOnly(p) => {
            let ghost path = p@;
            let b = LoggingBackend { filter: Some(f), sinks: vec![Sink::File(p)] };
            proof {
                assert(b@.sinks =~= seq![SinkModel::File(path)]);
            }
            Ok(b)
        },
        SinkPlan::StderrAndJournal => {
            let b = LoggingBackend { filter: Some(f), sinks: vec![Sink::Stderr, Sink::Journal] };
            proof {
                assert(b@.sinks =~= seq![SinkModel::Stderr, SinkModel::Journal]);
            }
            Ok(b)
        },
        SinkPlan::StderrAndFile(p) => {
            let ghost path = p@;
            let b = LoggingBackend { filter: Some(f), sinks: vec![Sink::Stderr, Sink::File(p)] };
            proof {
                assert(b@.sinks =~= seq![SinkModel::Stderr, SinkModel::File(path)]);
            }
            Ok(b)
        },
    }
}

/// The all-in-one initialization path: resolves the filter, validates the
/// output request, composes the backend, and installs it process-wide.
///
/// Every failure is reported as a typed error; configuration errors surface
/// before any global state is touched, and a backend composed here is never
/// rejected by installation as unsupported.
pub fn init_logging(outputs: Vec<Option<String>>, env: &str) -> (r: Result<(), InstallError>)
    ensures
        directive_ok(env@) && plan_of(outputs.deep_view()) is Err ==> r == Err::<(), InstallError>(
            InstallError::Config(plan_of(outputs.deep_view())->Err_0),
        ),
        r == Err::<(), InstallError>(InstallError::Config(ConfigError::InvalidDirective))
            ==> !directive_ok(env@),
        r is Err && r->Err_0 is Config && r->Err_0->Config_0 != ConfigError::InvalidDirective
            ==> plan_of(outputs.deep_view()) == Err::<PlanShape, ConfigError>(
            r->Err_0->Config_0,
        ),
        r != Err::<(), InstallError>(InstallError::Config(ConfigError::UnsupportedSinkSet)),
        r is Ok ==> plan_of(outputs.deep_view()) is Ok,
{
    match compose(&outputs, env) {
        Err(e) => Err(InstallError::Config(e)),
        Ok(b) => {
            proof {
                lemma_plan_backend_installable(b@, plan_of(outputs.deep_view())->Ok_0);
            }
            b.install()
        },
    }
}

/// Composes the default standard-error backend, filtered by the environment
/// variable or strictly by `default_env`, and attempts its one-shot
/// installation. A default directive the parser rejects is a configuration
/// error; beyond that, the call fails exactly when the process-wide slot is
/// already taken.
pub fn try_init(default_env: &str) -> (r: Result<(), InstallError>)
    ensures
        directive_ok(default_env@) ==> (r is Ok || r == Err::<(), InstallError>(
            InstallError::AlreadyInstalled,
        )),
        r is Err ==> (r == Err::<(), InstallError>(InstallError::AlreadyInstalled) || r == Err::<
            (),
            InstallError,
        >(InstallError::Config(ConfigError::InvalidDirective))),
        r == Err::<(), InstallError>(InstallError::Config(ConfigError::InvalidDirective))
            ==> !directive_ok(default_env@),
{
    let f = match env_filter_with_default(default_env) {
        Ok(f) => f,
        Err(e) => {
            return Err(InstallError::Config(e));
        },
    };
    let b = LoggingBackend::build_default(f);
    b.install()
}

/// The convenience entry point: initializes standard-error logging with
/// `default_env` as the fallback directive. Initialization failure is
/// reported, not swallowed; an embedding application that treats logging as
/// a prerequisite aborts on it.
pub fn init(default_env: &str) -> (r: Result<(), InstallError>)
    ensures
        directive_ok(default_env@) ==> (r is Ok || r == Err::<(), InstallError>(
            InstallError::AlreadyInstalled,
        )),
        r is Err ==> (r == Err::<(), InstallError>(InstallError::AlreadyInstalled) || r == Err::<
            (),
            InstallError,
        >(InstallError::Config(ConfigError::InvalidDirective))),
        r == Err::<(), InstallError>(InstallError::Config(ConfigError::InvalidDirective))
            ==> !directive_ok(default_env@),
{
    try_init(default_env)
}

} // verus!
