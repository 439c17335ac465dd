use vstd::prelude::*;

verus! {

/// One filesystem side effect the engine asks its caller to perform on the
/// destination tree. Paths are relative to the destination root.
#[derive(Debug)]
pub enum MirrorAction {
    /// Create the directory if it does not already exist.
    EnsureDir { path: String },
    /// Open the file append-only, creating an empty one if absent; an
    /// existing file keeps its content (baseline seeding never re-copies).
    EnsureFile { path: String },
    /// Open the file fresh, truncating any previous content, since its
    /// tracked length restarts at zero.
    CreateFile { path: String },
    /// Read `count` bytes of the source file starting at byte `offset` and
    /// append exactly the bytes obtained to the destination file, then report
    /// that number back through `record_copied`.
    CopyTail { path: String, offset: u64, count: u64 },
    /// Delete the destination file if it is present.
    RemoveFile { path: String },
    /// Delete the destination directory if it is present (it must be empty).
    RemoveDir { path: String },
    /// Move the destination file from one path to the other.
    Rename { from: String, to: String },
}

/// Why the engine refused a notification: its bookkeeping and the
/// notification disagree, which is surfaced rather than skipped.
#[derive(Clone, Copy, PartialEq, Eq, Structural, Debug)]
pub enum MirrorError {
    /// The notification names a file the engine is not tracking.
    NotTracked,
    /// The notification carries fewer paths than its kind requires.
    MissingPath,
}

pub open spec fn is_ensure_dir(a: MirrorAction, p: Seq<char>) -> bool {
    a matches MirrorAction::EnsureDir { path } && path@ == p
}

pub open spec fn is_ensure_file(a: MirrorAction, p: Seq<char>) -> bool {
    a matches MirrorAction::EnsureFile { path } && path@ == p
}

pub open spec fn is_create_file(a: MirrorAction, p: Seq<char>) -> bool {
    a matches MirrorAction::CreateFile { path } && path@ == p
}

pub open spec fn is_copy_tail(a: MirrorAction, p: Seq<char>, off: u64, cnt: u64) -> bool {
    a matches MirrorAction::CopyTail { path, offset, count } && path@ == p && offset == off
        && count == cnt
}

pub open spec fn is_remove_file(a: MirrorAction, p: Seq<char>) -> bool {
    a matches MirrorAction::RemoveFile { path } && path@ == p
}

pub open spec fn is_remove_dir(a: MirrorAction, p: Seq<char>) -> bool {
    a matches MirrorAction::RemoveDir { path } && path@ == p
}

pub open spec fn is_rename(a: MirrorAction, f: Seq<char>, t: Seq<char>) -> bool {
    a matches MirrorAction::Rename { from, to } && from@ == f && to@ == t
}

/// The actions of a routing result, with each `Vec` seen as its sequence.
pub open spec fn acts_of(r: Result<Vec<MirrorAction>, MirrorError>) -> Result<
    Seq<MirrorAction>,
    MirrorError,
> {
    match r {
        Ok(v) => Ok(v@),
        Err(e) => Err(e),
    }
}

} // verus!
