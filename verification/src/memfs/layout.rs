use crate::ids::{uuid_text, Id};
use vstd::prelude::*;

verus! {

/// Where the file system is mounted, below the directory of the data.
pub const DEFAULT_MOUNT_SUBDIR: &'static str = "mem";

/// The directory of the traces, which can only be read.
pub const TRACES_DIR: &'static str = "traces";

/// The directory of the workspace, which can be read and written.
pub const WORKSPACE_DIR: &'static str = "workspace";

/// The link to the trace that started last.
pub const LATEST_LINK: &'static str = "_latest";

/// The directory of the links to the traces that have running spans.
pub const ACTIVE_DIR: &'static str = "_active";

/// The file of a trace that holds what is known of it.
pub const TRACE_INFO: &'static str = "info.json";

/// The directory of a trace that holds its spans.
pub const SPANS_DIR: &'static str = "spans";

/// The file of a trace that shows its spans as a tree.
pub const TREE_TXT: &'static str = "tree.txt";

/// The file of a trace that holds its numbers.
pub const SUMMARY_JSON: &'static str = "summary.json";

/// The file that holds the numbers of all traces.
pub const STATS_JSON: &'static str = "stats.json";

/// The file that shows how the daemon is.
pub const STATUS_TXT: &'static str = "status.txt";

pub const INODE_ROOT: u64 = 1;

pub const INODE_TRACES_DIR: u64 = 2;

pub const INODE_WORKSPACE_DIR: u64 = 3;

pub const INODE_STATS_JSON: u64 = 4;

pub const INODE_STATUS_TXT: u64 = 5;

pub const INODE_ACTIVE_DIR: u64 = 6;

pub const INODE_LATEST_LINK: u64 = 7;

/// The first inode number that is given out as traces and spans come.
pub const INODE_DYNAMIC_START: u64 = 100;

pub const EXT_JSON: &'static str = ".json";

pub const EXT_TXT: &'static str = ".txt";

/// The directory of the objects, below the directory of the data.
pub const OBJECTS_SUBDIR: &'static str = "objects";

/// Where the content with a hash is kept, below the directory of the
/// objects: in the directory named by the first two characters of the
/// hash, under the rest of the hash.  A hash of fewer than four
/// characters is its own path.
pub open spec fn object_path_of(hash: Seq<char>) -> Seq<char> {
    if hash.len() < 4 {
        hash
    } else {
        hash.subrange(0, 2) + seq!['/'] + hash.subrange(2, hash.len() as int)
    }
}

/// Where the content with a hash is kept, below the directory of the
/// objects.
pub fn object_path(hash: &str) -> (r: String)
    ensures
        r@ == object_path_of(hash@),
{
    let chars = crate::text::to_chars(hash);
    if chars.len() < 4 {
        return hash.to_owned();
    }
    let mut out = crate::text::slice(&chars, 0, 2);
    out.push('/');
    let rest = crate::text::slice(&chars, 2, chars.len());
    crate::text::append(&mut out, &rest);
    crate::text::from_chars(&out)
}

/// The name of the directory of a trace: the text of its identifier.
pub fn trace_dir_name(trace_id: Id) -> (r: String)
    ensures
        r@ == uuid_text(trace_id),
{
    crate::ids::id_to_string(trace_id)
}

/// The name of the file of a span: the text of its identifier and
/// `.json`.
pub fn span_file_name(span_id: Id) -> (r: String)
    ensures
        r@ == uuid_text(span_id) + ".json"@,
{
    crate::text::concat(crate::ids::id_to_string(span_id).as_str(), EXT_JSON)
}

} // verus!
