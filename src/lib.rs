//! Safe driving of a native model-slicing engine.
//!
//! The engine is reached through a small set of native operations. This
//! library holds the decisions around them: the `Slicer` handle checks the
//! order of operations and translates native result codes into
//! `SlicerError`; `JobPipeline` runs a job's operations on one handle with
//! fail-fast short-circuiting and destroys the handle exactly once. The
//! caller performs each native operation it is handed and reports the
//! result back.
pub mod artifact;
pub mod config;
pub mod error;
pub mod handle;
pub mod location;
pub mod pipeline;

pub use artifact::{base64_encode, check_model_filename, ModelFileError};
pub use config::{
    default_request, request_or_default, serverless_default_request, serverless_request_or_default,
    SliceRequest, SlicerConfig,
};
pub use error::{SlicerError, SLICER_SUCCESS};
pub use handle::{CallKind, NativeCall, Slicer, Stage, StatsOutcome};
pub use location::{normalize_output_prefix, object_key, parse_s3_location, LocationError};
pub use pipeline::{slice_model, Action, Event, JobPipeline, RunState};
