//! Process-wide trace export setup: a resource descriptor merged from
//! several detectors, and the installation of a batch-exporting pipeline
//! behind the global tracing subscriber.

pub mod install;
pub mod resource;

pub use install::{init_tracer, install_built, install_tracer, InitError, TraceRuntime};
pub use resource::{get_resource_attr, merge_in_order};
