use vstd::prelude::*;

verus! {

/// What kind of filesystem object a create notification concerns.
#[derive(Clone, Copy, PartialEq, Eq, Structural, Debug)]
pub enum CreateKind {
    File,
    Folder,
    Other,
}

/// What kind of filesystem object a remove notification concerns.
#[derive(Clone, Copy, PartialEq, Eq, Structural, Debug)]
pub enum RemoveKind {
    File,
    Folder,
    Other,
}

/// How a rename notification describes the move. `Any` carries no direction
/// and must be disambiguated against the current filesystem state.
#[derive(Clone, Copy, PartialEq, Eq, Structural, Debug)]
pub enum RenameMode {
    Any,
    To,
    From,
    Both,
    Other,
}

/// What a modify notification concerns: file data, the file's name, or
/// something the engine ignores (metadata and the like).
#[derive(Clone, Copy, PartialEq, Eq, Structural, Debug)]
pub enum ModifyKind {
    Data,
    Name(RenameMode),
    Other,
}

/// One normalized change notification category.
#[derive(Clone, Copy, PartialEq, Eq, Structural, Debug)]
pub enum EventKind {
    Create(CreateKind),
    Modify(ModifyKind),
    Remove(RemoveKind),
    Other,
}

/// The rename direction actually acted upon: an ambiguous rename with two
/// paths is a same-tree move; with one path it is a move-in if that path
/// currently exists under the source root, and a move-out otherwise.
pub open spec fn spec_resolve_rename(hint: RenameMode, n_paths: int, src_exists: bool) -> RenameMode {
    match hint {
        RenameMode::Any => if n_paths > 1 {
            RenameMode::Both
        } else if src_exists {
            RenameMode::To
        } else {
            RenameMode::From
        },
        other => other,
    }
}

/// Resolve an ambiguous rename notification. `src_exists` reports whether the
/// single named path currently exists under the source root.
pub fn resolve_rename(hint: RenameMode, n_paths: usize, src_exists: bool) -> (r: RenameMode)
    ensures
        r == spec_resolve_rename(hint, n_paths as int, src_exists),
{
    match hint {
        RenameMode::Any => {
            if n_paths > 1 {
                RenameMode::Both
            } else if src_exists {
                RenameMode::To
            } else {
                RenameMode::From
            }
        },
        other => other,
    }
}

} // verus!
