//! A dispatch and transfer engine for GET/PUT requests against blob storage.
//!
//! The library holds the decisions of the engine: how a request's outcome is
//! recorded, how a connection descriptor is resolved into settings and a cache
//! key, how large transfers are split and reassembled, when a failed operation
//! is retried, and how each request reaches exactly one completion.
mod connection;
mod lifecycle;
mod multipart;
mod queue;
mod response;
mod retry;
mod transfer;

pub use connection::{
    assemble_plan, lemma_distinct_connections_distinct_keys, plan_connection, AzureConnection,
    AzureCredentials, ConnectError, ConnectionKey, ConnectionPlan, GlobalConfigOptions,
    RETRY_DELAY_MS,
};
pub use lifecycle::{
    fill_event, lemma_notified_exactly_once, lemma_persistent_failure_exhausts,
    lemma_transient_failures_recover, Job, JobAction, JobEvent, JobStage,
};
pub use multipart::{lemma_failed_write_is_aborted, MultipartUpload, UploadAction, UploadStage};
pub use queue::{submission_status, submit, QueueRejection};
pub use response::{CResult, Response};
pub use retry::{ErrorClass, RetryDecision, RetryPolicy};
pub use transfer::{
    fill_buffer, fill_ranges, get_strategy, lemma_parts_round_trip, part_ranges, plan_ranged_get, put_strategy,
    GetStrategy, PutStrategy, TransferError, PART_SIZE,
};
