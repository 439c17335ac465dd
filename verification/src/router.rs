use vstd::prelude::*;

use crate::actions::{
    acts_of, is_copy_tail, is_create_file, is_ensure_dir, is_remove_dir, is_remove_file, is_rename,
    MirrorAction, MirrorError,
};
use crate::events::{spec_resolve_rename, CreateKind, EventKind, ModifyKind, RemoveKind, RenameMode};
use crate::state::MirrorState;

verus! {

/// What a create notification does: a new file is tracked from length zero
/// and its destination file is opened fresh; a new folder is materialized
/// under the destination; anything else is ignored.
pub open spec fn create_post(
    pre: Map<Seq<char>, u64>,
    path: Seq<char>,
    kind: CreateKind,
    post: Map<Seq<char>, u64>,
    acts: Seq<MirrorAction>,
) -> bool {
    match kind {
        CreateKind::File => post == pre.insert(path, 0u64) && acts.len() == 1 && is_create_file(
            acts[0],
            path,
        ),
        CreateKind::Folder => post == pre && acts.len() == 1 && is_ensure_dir(acts[0], path),
        CreateKind::Other => post == pre && acts.len() == 0,
    }
}

/// What a remove notification does: a tracked file loses its entry and its
/// destination file; removing an untracked file is refused; a folder removal
/// only touches the destination directory; anything else is ignored.
pub open spec fn remove_post(
    pre: Map<Seq<char>, u64>,
    path: Seq<char>,
    kind: RemoveKind,
    post: Map<Seq<char>, u64>,
    r: Result<Seq<MirrorAction>, MirrorError>,
) -> bool {
    match kind {
        RemoveKind::File => if pre.contains_key(path) {
            &&& post == pre.remove(path)
            &&& r matches Ok(acts) && acts.len() == 1 && is_remove_file(acts[0], path)
        } else {
            post == pre && (r matches Err(e) && e is NotTracked)
        },
        RemoveKind::Folder => post == pre && (r matches Ok(acts) && acts.len() == 1 && is_remove_dir(
            acts[0],
            path,
        )),
        RemoveKind::Other => post == pre && (r matches Ok(acts) && acts.len() == 0),
    }
}

/// What a data-change notification does, given the current source length
/// `src_len` (`None` when the source file is already gone, a benign race).
/// With mirrored length `m` and source length `s`: a vanished source is a
/// no-op; `s <= m` only lowers the recorded length (the destination is not
/// rewritten); `s > m` asks for the tail bytes `m..s` to be copied, and the
/// recorded length advances separately, by exactly the bytes obtained. An
/// untracked path is first tracked from zero with a fresh destination file.
pub open spec fn data_update_post(
    pre: Map<Seq<char>, u64>,
    path: Seq<char>,
    src_len: Option<u64>,
    post: Map<Seq<char>, u64>,
    acts: Seq<MirrorAction>,
) -> bool {
    match src_len {
        None => post == pre && acts.len() == 0,
        Some(s) => if pre.contains_key(path) {
            let m = pre[path];
            if s <= m {
                post == pre.insert(path, s) && acts.len() == 0
            } else {
                post == pre && acts.len() == 1 && is_copy_tail(acts[0], path, m, (s - m) as u64)
            }
        } else {
            if s == 0 {
                post == pre.insert(path, 0u64) && acts.len() == 1 && is_create_file(acts[0], path)
            } else {
                &&& post == pre.insert(path, 0u64)
                &&& acts.len() == 2
                &&& is_create_file(acts[0], path)
                &&& is_copy_tail(acts[1], path, 0u64, s)
            }
        },
    }
}

/// What a two-path, same-tree rename does: the tracked entry moves from
/// `from` to `to` with its mirrored length unchanged, and the destination
/// file is physically renamed; renaming an untracked file is refused.
pub open spec fn rename_pair_post(
    pre: Map<Seq<char>, u64>,
    from: Seq<char>,
    to: Seq<char>,
    post: Map<Seq<char>, u64>,
    r: Result<Seq<MirrorAction>, MirrorError>,
) -> bool {
    if pre.contains_key(from) {
        &&& post == pre.remove(from).insert(to, pre[from])
        &&& r matches Ok(acts) && acts.len() == 1 && is_rename(acts[0], from, to)
    } else {
        post == pre && (r matches Err(e) && e is NotTracked)
    }
}

/// What a modify notification does. Data changes follow `data_update_post`.
/// Name changes are resolved by `spec_resolve_rename` and then act as a
/// move-in (track from zero), a move-out (untrack and delete), or a same-tree
/// rename. A notification that lacks the paths its kind needs is refused.
pub open spec fn modify_post(
    pre: Map<Seq<char>, u64>,
    paths: Seq<Seq<char>>,
    kind: ModifyKind,
    src_len: Option<u64>,
    post: Map<Seq<char>, u64>,
    r: Result<Seq<MirrorAction>, MirrorError>,
) -> bool {
    match kind {
        ModifyKind::Data => if paths.len() == 0 {
            post == pre && (r matches Err(e) && e is MissingPath)
        } else {
            r matches Ok(acts) && data_update_post(pre, paths[0], src_len, post, acts)
        },
        ModifyKind::Name(hint) => if paths.len() == 0 && !(hint is Other) {
            post == pre && (r matches Err(e) && e is MissingPath)
        } else {
            match spec_resolve_rename(hint, paths.len() as int, src_len is Some) {
                RenameMode::To => {
                    &&& post == pre.insert(paths[0], 0u64)
                    &&& r matches Ok(acts) && acts.len() == 1 && is_create_file(acts[0], paths[0])
                },
                RenameMode::From => if pre.contains_key(paths[0]) {
                    &&& post == pre.remove(paths[0])
                    &&& r matches Ok(acts) && acts.len() == 1 && is_remove_file(acts[0], paths[0])
                } else {
                    post == pre && (r matches Err(e) && e is NotTracked)
                },
                RenameMode::Both => if paths.len() >= 2 {
                    rename_pair_post(pre, paths[0], paths[1], post, r)
                } else {
                    post == pre && (r matches Err(e) && e is MissingPath)
                },
                _ => post == pre && (r matches Ok(acts) && acts.len() == 0),
            }
        },
        ModifyKind::Other => post == pre && (r matches Ok(acts) && acts.len() == 0),
    }
}

/// What one notification does to the whole engine: the dispatch over all
/// event categories. Unrecognized categories are explicit no-ops.
pub open spec fn event_post(
    pre: Map<Seq<char>, u64>,
    kind: EventKind,
    paths: Seq<Seq<char>>,
    src_len: Option<u64>,
    post: Map<Seq<char>, u64>,
    r: Result<Seq<MirrorAction>, MirrorError>,
) -> bool {
    match kind {
        EventKind::Create(k) => if paths.len() == 0 {
            post == pre && (r matches Err(e) && e is MissingPath)
        } else {
            r matches Ok(acts) && create_post(pre, paths[0], k, post, acts)
        },
        EventKind::Modify(k) => modify_post(pre, paths, k, src_len, post, r),
        EventKind::Remove(k) => if paths.len() == 0 {
            post == pre && (r matches Err(e) && e is MissingPath)
        } else {
            remove_post(pre, paths[0], k, post, r)
        },
        EventKind::Other => post == pre && (r matches Ok(acts) && acts.len() == 0),
    }
}

/// Track `rel_path` from length zero, asking for a fresh destination file.
/// Re-creating an already-tracked path overwrites its entry cleanly.
pub fn create_file(state: &mut MirrorState, rel_path: &String) -> (a: MirrorAction)
    requires
        old(state).wf(),
    ensures
        final(state).wf(),
        final(state)@ == old(state)@.insert(rel_path@, 0u64),
        is_create_file(a, rel_path@),
{
    state.insert(rel_path.clone(), 0);
    MirrorAction::CreateFile { path: rel_path.clone() }
}

/// Stop tracking `rel_path`, asking for its destination file to be deleted.
/// Removing an untracked path is surfaced as an error, not skipped.
pub fn remove_file(state: &mut MirrorState, rel_path: &String) -> (r: Result<
    MirrorAction,
    MirrorError,
>)
    requires
        old(state).wf(),
    ensures
        final(state).wf(),
        old(state)@.contains_key(rel_path@) ==> final(state)@ == old(state)@.remove(rel_path@) && (
        r matches Ok(a) && is_remove_file(a, rel_path@)),
        !old(state)@.contains_key(rel_path@) ==> final(state)@ == old(state)@ && (r matches Err(e)
            && e is NotTracked),
{
    match state.remove(rel_path) {
        Some(_) => Ok(MirrorAction::RemoveFile { path: rel_path.clone() }),
        None => Err(MirrorError::NotTracked),
    }
}

/// Route a data-change notification for `rel_path`, where `src_len` is the
/// source file's current length, or `None` if it no longer exists.
pub fn update_file_contents(state: &mut MirrorState, rel_path: &String, src_len: Option<u64>) -> (r:
    Vec<MirrorAction>)
    requires
        old(state).wf(),
    ensures
        final(state).wf(),
        data_update_post(old(state)@, rel_path@, src_len, final(state)@, r@),
{
    let mut acts: Vec<MirrorAction> = Vec::new();
    match src_len {
        None => acts,
        Some(s) => {
            match state.get(rel_path) {
                Some(m) => {
                    if s <= m {
                        state.insert(rel_path.clone(), s);
                        acts
                    } else {
                        acts.push(
                            MirrorAction::CopyTail {
                                path: rel_path.clone(),
                                offset: m,
                                count: s - m,
                            },
                        );
                        acts
                    }
                },
                None => {
                    state.insert(rel_path.clone(), 0);
                    acts.push(MirrorAction::CreateFile { path: rel_path.clone() });
                    if s > 0 {
                        acts.push(
                            MirrorAction::CopyTail { path: rel_path.clone(), offset: 0, count: s },
                        );
                    }
                    acts
                },
            }
        },
    }
}

/// Advance the mirrored length of `rel_path` by the `n` bytes a tail copy
/// actually obtained and appended, which may be fewer than were asked for.
pub fn record_copied(state: &mut MirrorState, rel_path: &String, n: u64) -> (r: Result<
    (),
    MirrorError,
>)
    requires
        old(state).wf(),
        old(state)@.contains_key(rel_path@) ==> old(state)@[rel_path@] + n <= u64::MAX,
    ensures
        final(state).wf(),
        old(state)@.contains_key(rel_path@) ==> r is Ok && final(state)@ == old(state)@.insert(
            rel_path@,
            (old(state)@[rel_path@] + n) as u64,
        ),
        !old(state)@.contains_key(rel_path@) ==> final(state)@ == old(state)@ && (r matches Err(e)
            && e is NotTracked),
{
    match state.get(rel_path) {
        Some(m) => {
            state.insert(rel_path.clone(), m + n);
            Ok(())
        },
        None => Err(MirrorError::NotTracked),
    }
}

/// Route a create notification.
pub fn handle_create(state: &mut MirrorState, rel_path: &String, kind: CreateKind) -> (r: Vec<
    MirrorAction,
>)
    requires
        old(state).wf(),
    ensures
        final(state).wf(),
        create_post(old(state)@, rel_path@, kind, final(state)@, r@),
{
    let mut acts: Vec<MirrorAction> = Vec::new();
    match kind {
        CreateKind::File => {
            let a = create_file(state, rel_path);
            acts.push(a);
        },
        CreateKind::Folder => {
            acts.push(MirrorAction::EnsureDir { path: rel_path.clone() });
        },
        CreateKind::Other => {},
    }
    acts
}

/// Route a remove notification.
pub fn handle_remove(state: &mut MirrorState, rel_path: &String, kind: RemoveKind) -> (r: Result<
    Vec<MirrorAction>,
    MirrorError,
>)
    requires
        old(state).wf(),
    ensures
        final(state).wf(),
        remove_post(old(state)@, rel_path@, kind, final(state)@, acts_of(r)),
{
    let mut acts: Vec<MirrorAction> = Vec::new();
    match kind {
        RemoveKind::File => {
            match remove_file(state, rel_path) {
                Ok(a) => {
                    acts.push(a);
                    Ok(acts)
                },
                Err(e) => Err(e),
            }
        },
        RemoveKind::Folder => {
            acts.push(MirrorAction::RemoveDir { path: rel_path.clone() });
            Ok(acts)
        },
        RemoveKind::Other => Ok(acts),
    }
}

/// Route a modify notification. `src_len` is the observed current length of
/// the source file at the first path, or `None` if it does not exist; it
/// supplies both the tail-copy bound and the rename-direction check.
pub fn handle_modify(
    state: &mut MirrorState,
    paths: &Vec<String>,
    kind: ModifyKind,
    src_len: Option<u64>,
) -> (r: Result<Vec<MirrorAction>, MirrorError>)
    requires
        old(state).wf(),
    ensures
        final(state).wf(),
        modify_post(old(state)@, paths.deep_view(), kind, src_len, final(state)@, acts_of(r)),
{
    let mut acts: Vec<MirrorAction> = Vec::new();
    match kind {
        ModifyKind::Data => {
            if paths.len() == 0 {
                Err(MirrorError::MissingPath)
            } else {
                Ok(update_file_contents(state, &paths[0], src_len))
            }
        },
        ModifyKind::Name(hint) => {
            if paths.len() == 0 && !matches!(hint, RenameMode::Other) {
                return Err(MirrorError::MissingPath);
            }
            let resolved = crate::events::resolve_rename(hint, paths.len(), src_len.is_some());
            match resolved {
                RenameMode::To => {
                    let a = create_file(state, &paths[0]);
                    acts.push(a);
                    Ok(acts)
                },
                RenameMode::From => {
                    match remove_file(state, &paths[0]) {
                        Ok(a) => {
                            acts.push(a);
                            Ok(acts)
                        },
                        Err(e) => Err(e),
                    }
                },
                RenameMode::Both => {
                    if paths.len() < 2 {
                        return Err(MirrorError::MissingPath);
                    }
                    match state.remove(&paths[0]) {
                        Some(m) => {
                            state.insert(paths[1].clone(), m);
                            acts.push(
                                MirrorAction::Rename {
                                    from: paths[0].clone(),
                                    to: paths[1].clone(),
                                },
                            );
                            Ok(acts)
                        },
                        None => Err(MirrorError::NotTracked),
                    }
                },
                _ => Ok(acts),
            }
        },
        ModifyKind::Other => Ok(acts),
    }
}

/// Route one notification: the single entry point the watch loop calls once
/// per delivered event, never concurrently.
pub fn handle_event(
    state: &mut MirrorState,
    kind: EventKind,
    paths: &Vec<String>,
    src_len: Option<u64>,
) -> (r: Result<Vec<MirrorAction>, MirrorError>)
    requires
        old(state).wf(),
    ensures
        final(state).wf(),
        event_post(old(state)@, kind, paths.deep_view(), src_len, final(state)@, acts_of(r)),
{
    match kind {
        EventKind::Create(k) => {
            if paths.len() == 0 {
                Err(MirrorError::MissingPath)
            } else {
                Ok(handle_create(state, &paths[0], k))
            }
        },
        EventKind::Modify(k) => handle_modify(state, paths, k, src_len),
        EventKind::Remove(k) => {
            if paths.len() == 0 {
                Err(MirrorError::MissingPath)
            } else {
                handle_remove(state, &paths[0], k)
            }
        },
        EventKind::Other => Ok(Vec::new()),
    }
}

} // verus!
