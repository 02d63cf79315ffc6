//! Static memory estimation for compiled WebAssembly workloads, and the decisions around
//! running each job in its own deterministic worker process.
//!
//! - [`size`]: binary size categories.
//! - [`features`]: features read from a module's text format.
//! - [`classify`]: the ordered workload classifier.
//! - [`estimate`]: minimum and peak memory estimates.
//! - [`task`]: job descriptors, scratch files and the worker environment.
//! - [`monitor`]: resident memory readings and reconciliation with the estimate.
//! - [`bindings`]: the calls into outside crates.

pub mod bindings;
pub mod classify;
pub mod estimate;
pub mod features;
pub mod monitor;
pub mod size;
pub mod task;
pub mod text;

pub use classify::{classify, WorkloadClass};
pub use estimate::{build_memory_info, estimate_memory, MemoryEstimate, MemoryInfoEstimator};
pub use features::{
    convert_wasm_to_wat, extract_features, features_from_captures, pages_to_bytes,
    DisassemblyError, ParseError, StaticFeatureSet,
};
pub use monitor::{reconcile, resolve_resident_bytes, JobResult, MemorySample};
pub use size::{categorize, categorize_binary_size, BinaryMetrics, SizeCategory};
pub use task::{
    parse_invocation, resolve_payload, task_file_path, worker_arguments, worker_environment,
    worker_outcome, Invocation, PayloadError, WasmJobRequest, WorkerFailure,
};
