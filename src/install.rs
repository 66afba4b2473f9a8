//! Installation of the trace pipeline and of the global subscriber.

use crate::resource::get_resource_attr;
use opentelemetry::global;
use opentelemetry::trace::TraceError;
use opentelemetry_sdk::propagation::TraceContextPropagator;
use opentelemetry_sdk::trace::{config, BatchConfig, Tracer};
use opentelemetry_sdk::{runtime, Resource};
use tokio::runtime::{Builder, Runtime};
use std::time::Duration;
use tracing::subscriber::SetGlobalDefaultError;
use tracing_subscriber::layer::SubscriberExt;
use tracing_subscriber::Registry;
use vstd::prelude::*;

verus! {

#[verifier::external_type_specification]
#[verifier::external_body]
pub struct ExTracer(Tracer);

#[verifier::external_type_specification]
#[verifier::external_body]
pub struct ExTraceError(TraceError);

#[verifier::external_type_specification]
#[verifier::external_body]
pub struct ExSetGlobalDefaultError(SetGlobalDefaultError);

#[verifier::external_type_specification]
#[verifier::external_body]
pub struct ExRuntime(Runtime);

#[verifier::external_type_specification]
#[verifier::external_body]
pub struct ExIoError(std::io::Error);

/// A multi-thread tokio runtime whose I/O and time drivers are enabled:
/// the batch exporter schedules its flushes with the runtime's timers.
/// `new` is the only way to make one.
pub struct TraceRuntime {
    runtime: Runtime,
}

/// Worker threads of the runtime that carries the exporter.
pub const EXPORT_WORKER_THREADS: usize = 2;

/// Relies on tokio's `Builder::new_multi_thread` with `worker_threads`,
/// `enable_io` and `enable_time`, then `build`: a runtime with both
/// drivers, or the error of creating it. A zero count panics, and the count
/// is added to the blocking-thread limit of 512; a given count keeps tokio
/// from reading its worker count from the environment.
#[verifier::external_body]
fn build_timed_runtime(worker_threads: usize) -> (r: Result<Runtime, std::io::Error>)
    requires
        0 < worker_threads <= usize::MAX - 512,
{
    Builder::new_multi_thread().worker_threads(worker_threads).enable_io().enable_time().build()
}

impl TraceRuntime {
    /// Starts a runtime with timers and `EXPORT_WORKER_THREADS` workers, or
    /// returns the error of starting it.
    pub fn new() -> (r: Result<TraceRuntime, std::io::Error>) {
        match build_timed_runtime(EXPORT_WORKER_THREADS) {
            Ok(runtime) => Ok(TraceRuntime { runtime }),
            Err(e) => Err(e),
        }
    }
}

/// Why installation did not complete.
#[derive(Debug)]
pub enum InitError {
    /// The exporter pipeline could not be built.
    Pipeline(TraceError),
    /// A global default subscriber had been set before.
    AlreadySet(SetGlobalDefaultError),
}

/// Relies on `opentelemetry::global::set_text_map_propagator`: makes W3C
/// trace-context the process-wide propagation format.
#[verifier::external_body]
fn set_trace_context_propagator() {
    global::set_text_map_propagator(TraceContextPropagator::new());
}

/// How the batch processor buffers and ships finished spans.
struct BatchLimits {
    max_queue_size: usize,
    scheduled_delay_ms: u64,
    max_export_batch_size: usize,
    max_export_timeout_ms: u64,
    max_concurrent_exports: usize,
}

impl BatchLimits {
    /// Every limit is positive (a zero queue or a zero delay panics in the
    /// runtime), and a batch fits in the queue.
    spec fn wf(&self) -> bool {
        &&& 0 < self.max_queue_size
        &&& 0 < self.scheduled_delay_ms
        &&& 0 < self.max_export_batch_size <= self.max_queue_size
        &&& 0 < self.max_export_timeout_ms
        &&& 0 < self.max_concurrent_exports
    }

    /// The SDK's documented defaults: a queue of 2048 spans, a flush every
    /// 5 s, batches of 512, a 30 s export timeout, one export at a time.
    fn standard() -> (r: BatchLimits)
        ensures
            r.wf(),
    {
        BatchLimits {
            max_queue_size: 2048,
            scheduled_delay_ms: 5000,
            max_export_batch_size: 512,
            max_export_timeout_ms: 30000,
            max_concurrent_exports: 1,
        }
    }
}

/// Relies on the OTLP pipeline's `install_batch`: builds a tonic exporter
/// and a batch processor on the tokio runtime, with `resource` attached to
/// every span. Every batch limit is set from `limits`, so none is read from
/// the environment. The call spawns a task and makes a timer, so it runs
/// inside `rt`, whose time driver is enabled.
#[verifier::external_body]
fn build_otlp_tracer(resource: Resource, rt: &TraceRuntime, limits: &BatchLimits) -> (r: Result<Tracer, TraceError>)
    requires
        limits.wf(),
{
    let _entered = rt.runtime.enter();
    let batch = BatchConfig::default()
        .with_max_queue_size(limits.max_queue_size)
        .with_scheduled_delay(Duration::from_millis(limits.scheduled_delay_ms))
        .with_max_export_batch_size(limits.max_export_batch_size)
        .with_max_export_timeout(Duration::from_millis(limits.max_export_timeout_ms))
        .with_max_concurrent_exports(limits.max_concurrent_exports);
    opentelemetry_otlp::new_pipeline()
        .tracing()
        .with_exporter(opentelemetry_otlp::new_exporter().tonic())
        .with_trace_config(config().with_resource(resource))
        .with_batch_config(batch)
        .install_batch(runtime::Tokio)
}

/// Relies on `tracing::subscriber::set_global_default`, given a registry
/// with a layer that forwards spans to `tracer`; it fails when a global
/// default was set before.
#[verifier::external_body]
fn register_subscriber(tracer: Tracer) -> (r: Result<(), SetGlobalDefaultError>) {
    let layer = tracing_opentelemetry::layer().with_tracer(tracer);
    tracing::subscriber::set_global_default(Registry::default().with(layer))
}

/// What the installer reports for the result of setting the global
/// subscriber.
pub fn registration_outcome(set: Result<(), SetGlobalDefaultError>) -> (r: Result<(), InitError>)
    ensures
        set is Ok <==> r is Ok,
        set is Err ==> r == Err::<(), InitError>(InitError::AlreadySet(set->Err_0)),
{
    match set {
        Ok(()) => Ok(()),
        Err(e) => Err(InitError::AlreadySet(e)),
    }
}

/// Makes a subscriber that forwards spans to `tracer` the process-wide
/// default. Fails only with `AlreadySet`.
pub fn install_tracer(tracer: Tracer) -> (r: Result<(), InitError>)
    ensures
        r is Err ==> r->Err_0 is AlreadySet,
{
    registration_outcome(register_subscriber(tracer))
}

/// Installs the subscriber for a tracer that the pipeline build returned,
/// or reports the build's error without registering anything.
pub fn install_built(built: Result<Tracer, TraceError>) -> (r: Result<(), InitError>)
    ensures
        built is Err ==> r == Err::<(), InitError>(InitError::Pipeline(built->Err_0)),
        built is Ok && r is Err ==> r->Err_0 is AlreadySet,
{
    match built {
        Ok(tracer) => install_tracer(tracer),
        Err(e) => Err(InitError::Pipeline(e)),
    }
}

/// Sets the trace-context propagator, builds the OTLP batch pipeline on
/// `rt` with the merged resource, and installs the subscriber that feeds
/// it, with the SDK's standard batch limits. A pipeline failure is reported
/// before any subscriber is set.
pub fn init_tracer(rt: &TraceRuntime) -> (r: Result<(), InitError>)
    ensures
        r is Err ==> (r->Err_0 is Pipeline || r->Err_0 is AlreadySet),
{
    set_trace_context_propagator();
    let resource = get_resource_attr();
    let limits = BatchLimits::standard();
    install_built(build_otlp_tracer(resource, rt, &limits))
}

} // verus!
