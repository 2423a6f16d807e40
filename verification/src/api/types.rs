use crate::auth::{Role, Scope};
use crate::clock::Timestamp;
use crate::json::Json;
use crate::trace::entities::{
    Datapoint, DatapointKind, Dataset, FileVersion, QueueItem, Trace,
};
use crate::trace::kind::SpanKind;
use crate::trace::span::{DatapointId, DatasetId, Span, SpanId, TraceId};
use vstd::prelude::*;

verus! {

/// Stands for the description of the interface that the daemon serves.
#[derive(Clone, Copy, Debug, PartialEq, Eq, Structural)]
pub struct ApiDoc;

//  What requests carry.

#[derive(Debug, PartialEq)]
pub struct CreateSpanRequest {
    pub trace_id: TraceId,
    pub parent_id: Option<SpanId>,
    pub name: String,
    pub kind: SpanKind,
    pub input: Option<Json>,
}

#[derive(Debug, PartialEq)]
pub struct CompleteSpanRequest {
    pub output: Option<Json>,
}

#[derive(Debug, PartialEq)]
pub struct FailSpanRequest {
    pub error: String,
}

#[derive(Debug, PartialEq)]
pub struct SpanQueryParams {
    pub kind: Option<String>,
    pub model: Option<String>,
    pub provider: Option<String>,
    pub status: Option<String>,
    pub since: Option<Timestamp>,
    pub until: Option<Timestamp>,
    pub name_contains: Option<String>,
    pub path: Option<String>,
    pub trace_id: Option<TraceId>,
}

#[derive(Debug, PartialEq)]
pub struct CreateTraceRequest {
    pub name: Option<String>,
    pub tags: Vec<String>,
}

#[derive(Debug, PartialEq)]
pub struct FileQueryParams {
    pub path_prefix: Option<String>,
    pub since: Option<Timestamp>,
    pub until: Option<Timestamp>,
}

#[derive(Clone, Copy, Debug, PartialEq, Eq, Structural)]
pub struct ExportParams {
    pub trace_id: Option<TraceId>,
}

#[derive(Debug, PartialEq)]
pub struct CreateDatasetRequest {
    pub name: String,
    pub description: Option<String>,
}

#[derive(Debug, PartialEq)]
pub struct UpdateDatasetRequest {
    pub name: Option<String>,
    pub description: Option<String>,
}

#[derive(Debug, PartialEq)]
pub struct CreateDatapointRequest {
    pub kind: DatapointKind,
}

#[derive(Clone, Copy, Debug, PartialEq, Eq, Structural)]
pub struct ExportSpanRequest {
    pub span_id: SpanId,
}

#[derive(Debug, PartialEq)]
pub struct EnqueueRequest {
    pub datapoint_ids: Vec<DatapointId>,
}

#[derive(Debug, PartialEq)]
pub struct ClaimRequest {
    pub claimed_by: String,
}

#[derive(Debug, PartialEq)]
pub struct SubmitRequest {
    pub edited_data: Option<Json>,
}

//  What answers carry.

#[derive(Clone, Copy, Debug, PartialEq, Eq, Structural)]
pub struct CreatedSpan {
    pub id: SpanId,
    pub trace_id: TraceId,
}

#[derive(Debug, PartialEq)]
pub struct TraceListResponse {
    pub traces: Vec<Trace>,
    pub count: usize,
}

#[derive(Debug, PartialEq)]
pub struct SpanList {
    pub spans: Vec<Span>,
    pub count: usize,
}

#[derive(Clone, Copy, Debug, PartialEq, Eq, Structural)]
pub struct Stats {
    pub trace_count: usize,
    pub span_count: usize,
}

#[derive(Clone, Copy, Debug, PartialEq, Eq, Structural)]
pub struct DeletedTrace {
    pub trace_id: TraceId,
    pub spans_deleted: usize,
}

#[derive(Debug, PartialEq)]
pub struct ClearedAll {
    pub message: String,
}

/// The spans of each exported trace.
#[derive(Debug, PartialEq)]
pub struct ExportData {
    pub traces: Vec<(TraceId, Vec<Span>)>,
}

#[derive(Debug, PartialEq)]
pub struct FileListResponse {
    pub files: Vec<FileVersion>,
    pub count: usize,
}

#[derive(Debug, PartialEq)]
pub struct FileVersionsResponse {
    pub path: String,
    pub versions: Vec<FileVersion>,
    pub count: usize,
}

#[derive(Debug, PartialEq)]
pub struct DatasetResponse {
    pub dataset: Dataset,
    pub datapoint_count: usize,
}

#[derive(Debug, PartialEq)]
pub struct DatasetListResponse {
    pub datasets: Vec<DatasetResponse>,
    pub count: usize,
}

#[derive(Debug, PartialEq)]
pub struct DatapointListResponse {
    pub datapoints: Vec<Datapoint>,
    pub count: usize,
}

#[derive(Clone, Copy, Debug, PartialEq, Eq, Structural)]
pub struct ImportResponse {
    pub imported: usize,
    pub dataset_id: DatasetId,
}

#[derive(Clone, Copy, Debug, PartialEq, Eq, Structural)]
pub struct QueueCounts {
    pub pending: usize,
    pub claimed: usize,
    pub completed: usize,
}

#[derive(Debug, PartialEq)]
pub struct QueueListResponse {
    pub items: Vec<QueueItem>,
    pub counts: QueueCounts,
}

#[derive(Clone, Copy, Debug, PartialEq, Eq, Structural)]
pub struct EnqueueResponse {
    pub enqueued: usize,
}

#[derive(Debug, PartialEq)]
pub struct StorageHealth {
    pub trace_count: usize,
    pub span_count: usize,
    pub backend: String,
}

#[derive(Debug, PartialEq)]
pub struct HealthResponse {
    pub status: String,
    pub uptime_secs: u64,
    pub version: String,
    pub storage: StorageHealth,
    pub region: Option<String>,
    pub instance: Option<String>,
}

//  What the requests and answers about accounts carry.

#[derive(Debug, PartialEq)]
pub struct MeResponse {
    pub org_id: String,
    pub user_id: Option<String>,
    pub scopes: Vec<Scope>,
    pub is_local_mode: bool,
}

#[derive(Debug, PartialEq)]
pub struct ConfigResponse {
    pub mode: String,
    pub features: Vec<String>,
}

#[derive(Debug, PartialEq)]
pub struct SignupRequest {
    pub email: String,
    pub password: String,
    pub name: Option<String>,
    pub org_name: Option<String>,
}

#[derive(Debug, PartialEq)]
pub struct AuthResponse {
    pub user_id: String,
    pub org_id: String,
    pub email: String,
    pub name: Option<String>,
    pub role: String,
}

#[derive(Debug, PartialEq)]
pub struct LoginRequest {
    pub email: String,
    pub password: String,
}

#[derive(Debug, PartialEq)]
pub struct OrgResponse {
    pub id: String,
    pub name: String,
    pub slug: String,
    pub plan: String,
}

#[derive(Debug, PartialEq)]
pub struct MemberResponse {
    pub id: String,
    pub email: String,
    pub name: Option<String>,
    pub role: String,
}

#[derive(Debug, PartialEq)]
pub struct ApiKeyResponse {
    pub id: String,
    pub name: String,
    pub key_prefix: String,
    pub scopes: Vec<Scope>,
    pub created_at: String,
    pub last_used_at: Option<String>,
}

#[derive(Debug, PartialEq)]
pub struct ApiKeyCreatedResponse {
    pub id: String,
    /// The whole key, which is shown this once and never kept.
    pub key: String,
    pub name: String,
    pub key_prefix: String,
    pub scopes: Vec<Scope>,
}

#[derive(Debug, PartialEq)]
pub struct CreateApiKeyRequest {
    pub name: String,
    pub scopes: Vec<Scope>,
}

#[derive(Debug, PartialEq)]
pub struct CreateInviteRequest {
    pub email: String,
    pub role: Role,
}

#[derive(Debug, PartialEq)]
pub struct InviteResponse {
    pub id: String,
    pub email: String,
    pub role: String,
    pub invited_by: String,
    pub expires_at: String,
    pub created_at: String,
}

#[derive(Debug, PartialEq)]
pub struct ForgotPasswordRequest {
    pub email: String,
}

#[derive(Debug, PartialEq)]
pub struct ResetPasswordRequest {
    pub token: String,
    pub password: String,
}

#[derive(Debug, PartialEq)]
pub struct AcceptInviteRequest {
    pub token: String,
    pub password: String,
    pub name: Option<String>,
}

} // verus!
