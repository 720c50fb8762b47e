//! Request-execution core of a storage-node coprocessor.
//!
//! The crate models the part of a coprocessor that is shared by every query
//! kind: the per-request time budget ([`Deadline`]), the per-request metadata
//! bundle, the polymorphic request handler with its unary/streaming
//! capability split, and the driver that steps a handler to completion. The
//! query engines themselves (plan interpretation, checksums, statistics) are
//! collaborators behind the handler surface and are not part of this crate.

mod clock;
mod context;
mod deadline;
mod driver;
mod error;
mod handler;
mod metrics;
mod response;

pub use context::{KeyRange, ReqContext, RpcContext};
pub use deadline::Deadline;
pub use driver::{
    delivered_payload_from, delivers_chunks, err_resp, full_result_from,
    lemma_clean_streaming_run_is_full_result, streaming_run_ok, Task, TaskState,
    DEFAULT_REQUEST_MAX_HANDLE_SECS,
};
pub use error::{Error, Fault};
pub use handler::{
    AnalyzeHandler, ChecksumHandler, DagHandler, DagOutput, HandlerStreamStepResult,
    RequestHandler, StreamState, REQ_TYPE_ANALYZE, REQ_TYPE_CHECKSUM, REQ_TYPE_DAG,
};
pub use metrics::{
    add_sat, lemma_merge_zero_is_identity, lemma_second_merge_double_counts, ExecutorMetrics,
};
pub use response::Response;
