use crate::storage::error::StorageError;
use crate::trace::kind::{SpanStatus, SpanStatusView};
use crate::text::{opt_str, opt_text};
use vstd::prelude::*;

verus! {

/// The first version of the schema: spans, traces, file versions and the
/// contents of files.
pub const MIGRATION_1: &'static str = "CREATE TABLE IF NOT EXISTS spans ( id TEXT PRIMARY KEY, trace_id TEXT NOT NULL, parent_id TEXT, name TEXT NOT NULL, kind_json TEXT NOT NULL, status TEXT NOT NULL, error TEXT, started_at TEXT NOT NULL, ended_at TEXT, input_json TEXT, output_json TEXT ); CREATE INDEX IF NOT EXISTS idx_spans_trace_id ON spans(trace_id); CREATE INDEX IF NOT EXISTS idx_spans_status ON spans(status); CREATE INDEX IF NOT EXISTS idx_spans_started_at ON spans(started_at); CREATE TABLE IF NOT EXISTS traces ( id TEXT PRIMARY KEY, name TEXT, tags_json TEXT NOT NULL DEFAULT '[]', started_at TEXT NOT NULL, ended_at TEXT, machine_id TEXT ); CREATE TABLE IF NOT EXISTS files ( path TEXT NOT NULL, hash TEXT NOT NULL, size INTEGER NOT NULL, created_at TEXT NOT NULL, created_by_span TEXT, PRIMARY KEY (path, hash) ); CREATE INDEX IF NOT EXISTS idx_files_path ON files(path); CREATE INDEX IF NOT EXISTS idx_files_hash ON files(hash); CREATE INDEX IF NOT EXISTS idx_files_created_by ON files(created_by_span); CREATE TABLE IF NOT EXISTS file_contents ( hash TEXT PRIMARY KEY, content BLOB NOT NULL );";

/// The second version: datasets, datapoints and queue items.
pub const MIGRATION_2: &'static str = "CREATE TABLE IF NOT EXISTS datasets ( id TEXT PRIMARY KEY, name TEXT NOT NULL, description TEXT, created_at TEXT NOT NULL, updated_at TEXT NOT NULL ); CREATE TABLE IF NOT EXISTS datapoints ( id TEXT PRIMARY KEY, dataset_id TEXT NOT NULL REFERENCES datasets(id) ON DELETE CASCADE, kind_json TEXT NOT NULL, source TEXT NOT NULL, source_span_id TEXT, created_at TEXT NOT NULL ); CREATE INDEX IF NOT EXISTS idx_datapoints_dataset_id ON datapoints(dataset_id); CREATE INDEX IF NOT EXISTS idx_datapoints_created_at ON datapoints(created_at); CREATE TABLE IF NOT EXISTS queue_items ( id TEXT PRIMARY KEY, dataset_id TEXT NOT NULL REFERENCES datasets(id) ON DELETE CASCADE, datapoint_id TEXT NOT NULL REFERENCES datapoints(id) ON DELETE CASCADE, status TEXT NOT NULL DEFAULT 'pending', claimed_by TEXT, claimed_at TEXT, original_data_json TEXT, edited_data_json TEXT, created_at TEXT NOT NULL ); CREATE INDEX IF NOT EXISTS idx_queue_items_dataset_id ON queue_items(dataset_id); CREATE INDEX IF NOT EXISTS idx_queue_items_status ON queue_items(status); CREATE INDEX IF NOT EXISTS idx_queue_items_created_at ON queue_items(created_at);";

/// The third version: the organisation of each span, trace and dataset,
/// which may be missing, and the accounts.
pub const MIGRATION_3: &'static str = "ALTER TABLE spans ADD COLUMN org_id TEXT; ALTER TABLE traces ADD COLUMN org_id TEXT; ALTER TABLE datasets ADD COLUMN org_id TEXT; CREATE INDEX IF NOT EXISTS idx_spans_org_id ON spans(org_id); CREATE INDEX IF NOT EXISTS idx_traces_org_id ON traces(org_id); CREATE INDEX IF NOT EXISTS idx_datasets_org_id ON datasets(org_id); CREATE TABLE IF NOT EXISTS organizations ( id TEXT PRIMARY KEY, name TEXT NOT NULL, slug TEXT NOT NULL UNIQUE, plan TEXT NOT NULL DEFAULT 'free', created_at TEXT NOT NULL, updated_at TEXT NOT NULL ); CREATE INDEX IF NOT EXISTS idx_organizations_slug ON organizations(slug); CREATE TABLE IF NOT EXISTS users ( id TEXT PRIMARY KEY, email TEXT NOT NULL UNIQUE, name TEXT, org_id TEXT NOT NULL REFERENCES organizations(id) ON DELETE CASCADE, role TEXT NOT NULL DEFAULT 'member', created_at TEXT NOT NULL, updated_at TEXT NOT NULL ); CREATE INDEX IF NOT EXISTS idx_users_email ON users(email); CREATE INDEX IF NOT EXISTS idx_users_org_id ON users(org_id); CREATE TABLE IF NOT EXISTS api_keys ( id TEXT PRIMARY KEY, org_id TEXT NOT NULL REFERENCES organizations(id) ON DELETE CASCADE, name TEXT NOT NULL, key_prefix TEXT NOT NULL, key_hash TEXT NOT NULL, scopes_json TEXT NOT NULL DEFAULT '[]', created_at TEXT NOT NULL, last_used_at TEXT, expires_at TEXT ); CREATE INDEX IF NOT EXISTS idx_api_keys_org_id ON api_keys(org_id); CREATE INDEX IF NOT EXISTS idx_api_keys_prefix ON api_keys(key_prefix); CREATE TABLE IF NOT EXISTS invites ( id TEXT PRIMARY KEY, org_id TEXT NOT NULL REFERENCES organizations(id) ON DELETE CASCADE, email TEXT NOT NULL, role TEXT NOT NULL DEFAULT 'member', invited_by TEXT NOT NULL REFERENCES users(id), token_hash TEXT NOT NULL, expires_at TEXT NOT NULL, created_at TEXT NOT NULL ); CREATE INDEX IF NOT EXISTS idx_invites_email ON invites(email); CREATE INDEX IF NOT EXISTS idx_invites_org_id ON invites(org_id);";

/// How many versions the schema has.
pub const SCHEMA_VERSION: i64 = 3;

/// Turns on the journal that is written ahead, and the foreign keys.
pub const PRAGMAS: &'static str = "PRAGMA journal_mode=WAL; PRAGMA foreign_keys=ON;";

/// Makes the table that notes which versions were applied.
pub const CREATE_MIGRATIONS_TABLE: &'static str =
    "CREATE TABLE IF NOT EXISTS migrations (version INTEGER PRIMARY KEY, applied_at TEXT NOT NULL)";

/// Asks for the last version that was applied, zero where none was.
pub const SELECT_VERSION: &'static str = "SELECT COALESCE(MAX(version), 0) FROM migrations";

/// Notes that a version was applied.
pub const INSERT_VERSION: &'static str =
    "INSERT INTO migrations (version, applied_at) VALUES (?1, ?2)";

/// Keeps the content of a file under its hash, unless something is kept
/// under that hash already: who writes first wins.
pub const INSERT_FILE_CONTENT: &'static str =
    "INSERT OR IGNORE INTO file_contents (hash, content) VALUES (?1, ?2)";

/// Asks for the content that is kept under a hash.
pub const SELECT_FILE_CONTENT: &'static str = "SELECT content FROM file_contents WHERE hash = ?1";

/// Keeps a span, in the place of the span of its identifier.
pub const UPSERT_SPAN: &'static str =
    "INSERT OR REPLACE INTO spans (id, trace_id, parent_id, name, kind_json, status, error, started_at, ended_at, input_json, output_json, org_id) VALUES (?1, ?2, ?3, ?4, ?5, ?6, ?7, ?8, ?9, ?10, ?11, ?12)";

pub const SELECT_SPANS: &'static str =
    "SELECT id, trace_id, parent_id, name, kind_json, status, error, started_at, ended_at, input_json, output_json, org_id FROM spans";

pub const DELETE_SPAN: &'static str = "DELETE FROM spans WHERE id = ?1";

pub const DELETE_TRACE_SPANS: &'static str = "DELETE FROM spans WHERE trace_id = ?1";

pub const CLEAR_SPANS: &'static str = "DELETE FROM spans";

pub const UPSERT_TRACE: &'static str =
    "INSERT OR REPLACE INTO traces (id, name, tags_json, started_at, ended_at, machine_id, org_id) VALUES (?1, ?2, ?3, ?4, ?5, ?6, ?7)";

pub const SELECT_TRACES: &'static str =
    "SELECT id, name, tags_json, started_at, ended_at, machine_id, org_id FROM traces";

pub const DELETE_TRACE: &'static str = "DELETE FROM traces WHERE id = ?1";

pub const UPSERT_FILE: &'static str =
    "INSERT OR REPLACE INTO files (path, hash, size, created_at, created_by_span) VALUES (?1, ?2, ?3, ?4, ?5)";

pub const SELECT_FILES: &'static str =
    "SELECT path, hash, size, created_at, created_by_span FROM files";

pub const UPSERT_DATASET: &'static str =
    "INSERT OR REPLACE INTO datasets (id, name, description, created_at, updated_at, org_id) VALUES (?1, ?2, ?3, ?4, ?5, ?6)";

pub const SELECT_DATASETS: &'static str =
    "SELECT id, name, description, created_at, updated_at, org_id FROM datasets";

pub const DELETE_DATASET: &'static str = "DELETE FROM datasets WHERE id = ?1";

pub const UPSERT_DATAPOINT: &'static str =
    "INSERT OR REPLACE INTO datapoints (id, dataset_id, kind_json, source, source_span_id, created_at) VALUES (?1, ?2, ?3, ?4, ?5, ?6)";

pub const SELECT_DATAPOINTS: &'static str =
    "SELECT id, dataset_id, kind_json, source, source_span_id, created_at FROM datapoints";

pub const DELETE_DATAPOINT: &'static str = "DELETE FROM datapoints WHERE id = ?1";

pub const DELETE_DATASET_DATAPOINTS: &'static str = "DELETE FROM datapoints WHERE dataset_id = ?1";

pub const UPSERT_QUEUE_ITEM: &'static str =
    "INSERT OR REPLACE INTO queue_items (id, dataset_id, datapoint_id, status, claimed_by, claimed_at, original_data_json, edited_data_json, created_at) VALUES (?1, ?2, ?3, ?4, ?5, ?6, ?7, ?8, ?9)";

pub const SELECT_QUEUE_ITEMS: &'static str =
    "SELECT id, dataset_id, datapoint_id, status, claimed_by, claimed_at, original_data_json, edited_data_json, created_at FROM queue_items";

pub const DELETE_QUEUE_ITEM: &'static str = "DELETE FROM queue_items WHERE id = ?1";

/// The statements of a version of the schema.
pub fn migration(version: i64) -> (r: Option<&'static str>)
    ensures
        r.is_some() == (1 <= version <= SCHEMA_VERSION),
        version == 1 ==> r == Some(MIGRATION_1),
        version == 2 ==> r == Some(MIGRATION_2),
        version == 3 ==> r == Some(MIGRATION_3),
{
    if version == 1 {
        Some(MIGRATION_1)
    } else if version == 2 {
        Some(MIGRATION_2)
    } else if version == 3 {
        Some(MIGRATION_3)
    } else {
        None
    }
}

/// The versions that a database at the version `current` still lacks.
pub open spec fn pending_after(current: i64) -> Seq<i64> {
    if current >= SCHEMA_VERSION {
        Seq::empty()
    } else if current < 0 {
        Seq::new(SCHEMA_VERSION as nat, |i: int| (i + 1) as i64)
    } else {
        Seq::new((SCHEMA_VERSION - current) as nat, |i: int| (current + 1 + i) as i64)
    }
}

/// The versions that are to be applied to a database whose last applied
/// version is `current`: each version after it, in order, each once.
pub fn pending_migrations(current: i64) -> (r: Vec<i64>)
    ensures
        r@ == pending_after(current),
        forall|i: int| 0 <= i < r.len() ==> current < #[trigger] r[i] <= SCHEMA_VERSION && 1 <= r[i],
        forall|v: i64| current < v <= SCHEMA_VERSION && 1 <= v ==> r@.contains(v),
        forall|i: int, j: int| 0 <= i < j < r.len() ==> r[i] < r[j],
{
    let mut r: Vec<i64> = Vec::new();
    let first: i64 = if current < 0 {
        1
    } else if current >= SCHEMA_VERSION {
        SCHEMA_VERSION + 1
    } else {
        current + 1
    };
    let mut v: i64 = first;
    while v <= SCHEMA_VERSION
        invariant
            1 <= first <= v <= SCHEMA_VERSION + 1,
            r.len() == v - first,
            forall|i: int| 0 <= i < r.len() ==> #[trigger] r[i] == first + i,
        decreases SCHEMA_VERSION + 1 - v,
    {
        r.push(v);
        v = v + 1;
    }
    assert(r@ =~= pending_after(current));
    assert forall|w: i64| current < w <= SCHEMA_VERSION && 1 <= w implies r@.contains(w) by {
        assert(r@[w - first] == w);
    }
    r
}

/// The two columns that hold the status of a span: its short name, and
/// the error of a span that failed.
pub open spec fn status_columns(status: SpanStatusView) -> (Seq<char>, Option<Seq<char>>) {
    match status {
        SpanStatusView::Running => ("running"@, None),
        SpanStatusView::Completed => ("completed"@, None),
        SpanStatusView::Failed { error } => ("failed"@, Some(error)),
    }
}

/// The status that the two columns hold.  A span that failed with no
/// error kept failed with an empty one.
pub open spec fn status_of_columns(name: Seq<char>, error: Option<Seq<char>>) -> Option<
    SpanStatusView,
> {
    if name == "running"@ {
        Some(SpanStatusView::Running)
    } else if name == "completed"@ {
        Some(SpanStatusView::Completed)
    } else if name == "failed"@ {
        Some(
            SpanStatusView::Failed {
                error: match error {
                    Some(e) => e,
                    None => Seq::empty(),
                },
            },
        )
    } else {
        None
    }
}

/// The two columns that hold the status of a span.
pub fn status_to_columns(status: &SpanStatus) -> (r: (String, Option<String>))
    ensures
        (r.0@, opt_text(r.1)) == status_columns(status@),
{
    match status {
        SpanStatus::Running => ("running".to_owned(), None),
        SpanStatus::Completed => ("completed".to_owned(), None),
        SpanStatus::Failed { error } => ("failed".to_owned(), Some(error.clone())),
    }
}

/// The status that the two columns hold; a name that is none of the
/// three is an error of the database.
pub fn status_from_columns(name: &str, error: Option<&str>) -> (r: Result<SpanStatus, StorageError>)
    ensures
        match r {
            Ok(status) => status_of_columns(name@, opt_str(error)) == Some(status@),
            Err(e) => status_of_columns(name@, opt_str(error)).is_none() && (
            e matches StorageError::Database(m) && m@ == "unknown status: "@ + name@),
        },
{
    if crate::text::same_text(name, "running") {
        Ok(SpanStatus::Running)
    } else if crate::text::same_text(name, "completed") {
        Ok(SpanStatus::Completed)
    } else if crate::text::same_text(name, "failed") {
        let error = match error {
            Some(e) => e.to_owned(),
            None => String::new(),
        };
        Ok(SpanStatus::Failed { error })
    } else {
        Err(StorageError::Database(crate::text::concat("unknown status: ", name)))
    }
}

/// The status of a span comes back from its two columns as it went in.
pub proof fn lemma_status_columns_round_trip(status: SpanStatusView)
    ensures
        status_of_columns(status_columns(status).0, status_columns(status).1) == Some(status),
{
    reveal_strlit("running");
    reveal_strlit("completed");
    reveal_strlit("failed");
    assert("completed"@.len() != "running"@.len());
    assert("failed"@.len() != "running"@.len());
    assert("failed"@.len() != "completed"@.len());
}

} // verus!
