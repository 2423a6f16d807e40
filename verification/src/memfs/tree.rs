use vstd::prelude::*;

verus! {

/// For how many seconds the kernel may keep what it was told of a node.
pub const TTL_SECS: u64 = 1;

/// The node of the root directory.
pub const ROOT_INO: u64 = 1;

/// The node of the directory of the traces.
pub const TRACES_INO: u64 = 2;

/// The first node that is handed out while the filesystem is mounted.
pub const FIRST_FREE_INO: u64 = 100;

/// The name under which the filesystem is mounted.
pub const FS_NAME: &'static str = "tracefs";

/// What a node is.
#[derive(Clone, Copy, Debug, PartialEq, Eq, Structural)]
pub enum NodeKind {
    Directory,
    RegularFile,
}

/// What the filesystem tells of a node.  Every node belongs to the
/// super-user and carries the epoch as each of its times.
#[derive(Clone, Copy, Debug, PartialEq, Eq, Structural)]
pub struct NodeAttr {
    pub ino: u64,
    pub size: u64,
    pub blocks: u64,
    pub kind: NodeKind,
    pub perm: u16,
    pub nlink: u32,
    pub uid: u32,
    pub gid: u32,
    pub rdev: u32,
    pub blksize: u32,
    pub flags: u32,
}

/// An entry of a directory as it is listed: the node, the place from
/// which the listing goes on after it, what the node is, and its name.
#[derive(Debug, PartialEq)]
pub struct DirEntry {
    pub ino: u64,
    pub next_offset: i64,
    pub kind: NodeKind,
    pub name: String,
}

/// What is told of a directory: it can be read and entered by all, and
/// written by its owner.
pub open spec fn spec_dir_attr(ino: u64) -> NodeAttr {
    NodeAttr {
        ino,
        size: 0,
        blocks: 0,
        kind: NodeKind::Directory,
        perm: 0o755,
        nlink: 2,
        uid: 0,
        gid: 0,
        rdev: 0,
        blksize: 512,
        flags: 0,
    }
}

/// What is told of a file of `size` bytes: it can be read by all and
/// written by none.
pub open spec fn spec_file_attr(ino: u64, size: u64) -> NodeAttr {
    NodeAttr {
        ino,
        size,
        blocks: 1,
        kind: NodeKind::RegularFile,
        perm: 0o444,
        nlink: 1,
        uid: 0,
        gid: 0,
        rdev: 0,
        blksize: 512,
        flags: 0,
    }
}

/// What is told of a directory.
pub fn dir_attr(ino: u64) -> (a: NodeAttr)
    ensures
        a == spec_dir_attr(ino),
{
    NodeAttr {
        ino,
        size: 0,
        blocks: 0,
        kind: NodeKind::Directory,
        perm: 0o755,
        nlink: 2,
        uid: 0,
        gid: 0,
        rdev: 0,
        blksize: 512,
        flags: 0,
    }
}

/// What is told of a file of `size` bytes.
pub fn file_attr(ino: u64, size: u64) -> (a: NodeAttr)
    ensures
        a == spec_file_attr(ino, size),
{
    NodeAttr {
        ino,
        size,
        blocks: 1,
        kind: NodeKind::RegularFile,
        perm: 0o444,
        nlink: 1,
        uid: 0,
        gid: 0,
        rdev: 0,
        blksize: 512,
        flags: 0,
    }
}

/// What is told of a node: the root and the directory of the traces are
/// directories; no other node is known.
pub fn getattr(ino: u64) -> (r: Option<NodeAttr>)
    ensures
        r == if ino == ROOT_INO || ino == TRACES_INO {
            Some(spec_dir_attr(ino))
        } else {
            None
        },
{
    if ino == ROOT_INO || ino == TRACES_INO {
        Some(dir_attr(ino))
    } else {
        None
    }
}

/// The node that a name stands for in a directory: `traces` in the root
/// is the directory of the traces; no other name is known.
pub fn lookup(parent: u64, name: &str) -> (r: Option<NodeAttr>)
    ensures
        r == if parent == ROOT_INO && name@ == "traces"@ {
            Some(spec_dir_attr(TRACES_INO))
        } else {
            None
        },
{
    if parent == ROOT_INO && crate::text::same_text(name, "traces") {
        Some(dir_attr(TRACES_INO))
    } else {
        None
    }
}

/// The entries of a directory, in their order, each with its node and
/// its name: the directory itself, the one above it, and what it holds.
/// `None` for a node that is no directory that is known.
pub open spec fn entries_of(ino: u64) -> Option<Seq<(u64, Seq<char>)>> {
    if ino == ROOT_INO {
        Some(seq![(ROOT_INO, "."@), (ROOT_INO, ".."@), (TRACES_INO, "traces"@)])
    } else if ino == TRACES_INO {
        Some(seq![(TRACES_INO, "."@), (ROOT_INO, ".."@)])
    } else {
        None
    }
}

/// The entries of a directory that are listed from the place `offset`
/// on.  The entry at the place `i` is followed by the place `i + 1`; an
/// offset below zero or past the end lists nothing.
pub fn readdir(ino: u64, offset: i64) -> (r: Option<Vec<DirEntry>>)
    ensures
        match entries_of(ino) {
            None => r.is_none(),
            Some(all) => r matches Some(listed) && {
                let from = if 0 <= offset <= all.len() {
                    offset as int
                } else {
                    all.len() as int
                };
                &&& listed.len() == all.len() - from
                &&& forall|k: int|
                    0 <= k < listed.len() ==> {
                        let e = #[trigger] listed[k];
                        &&& e.ino == all[from + k].0
                        &&& e.name@ == all[from + k].1
                        &&& e.next_offset == from + k + 1
                        &&& e.kind == NodeKind::Directory
                    }
            },
        },
{
    let mut all: Vec<(u64, &'static str)> = Vec::new();
    if ino == ROOT_INO {
        all.push((ROOT_INO, "."));
        all.push((ROOT_INO, ".."));
        all.push((TRACES_INO, "traces"));
    } else if ino == TRACES_INO {
        all.push((TRACES_INO, "."));
        all.push((ROOT_INO, ".."));
    } else {
        return None;
    }
    let ghost spec_all = entries_of(ino).unwrap();
    assert(spec_all.len() == all.len());
    assert(forall|i: int| 0 <= i < all.len() ==> all[i].0 == spec_all[i].0 && all[i].1@ == spec_all[i].1);
    let from: usize = if 0 <= offset && offset <= all.len() as i64 {
        offset as usize
    } else {
        all.len()
    };
    let mut listed: Vec<DirEntry> = Vec::new();
    let mut i: usize = from;
    while i < all.len()
        invariant
            from <= i <= all.len(),
            all.len() <= 3,
            spec_all.len() == all.len(),
            forall|j: int|
                0 <= j < all.len() ==> all[j].0 == spec_all[j].0 && all[j].1@ == spec_all[j].1,
            listed.len() == i - from,
            forall|k: int|
                0 <= k < listed.len() ==> {
                    let e = #[trigger] listed[k];
                    &&& e.ino == spec_all[from + k].0
                    &&& e.name@ == spec_all[from + k].1
                    &&& e.next_offset == from + k + 1
                    &&& e.kind == NodeKind::Directory
                },
        decreases all.len() - i,
    {
        listed.push(
            DirEntry {
                ino: all[i].0,
                next_offset: (i + 1) as i64,
                kind: NodeKind::Directory,
                name: all[i].1.to_owned(),
            },
        );
        i = i + 1;
    }
    Some(listed)
}

} // verus!
