//! Structured-logging initialization: directive strings, sink selection,
//! and one-shot installation of a process-wide logging backend.

pub mod backend;
pub mod directive;
pub mod errors;
pub mod filter;
pub mod outputs;
pub mod writer;

pub use backend::compose;
pub use backend::init;
pub use backend::init_logging;
pub use backend::try_init;
pub use backend::LoggingBackend;
pub use backend::Sink;
pub use directive::normalize_ident;
pub use directive::package_directive;
pub use errors::ConfigError;
pub use errors::InstallError;
pub use filter::choose_filter;
pub use filter::env_filter_with_default;
pub use filter::resolve_filter;
pub use outputs::plan_outputs;
pub use outputs::SinkPlan;
pub use writer::FileMakeWriter;
