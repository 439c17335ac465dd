use vstd::prelude::*;

use crate::actions::{is_copy_tail, is_remove_file, is_rename, MirrorAction, MirrorError};
use crate::baseline::{baseline_action_ok, baseline_map, ScanEntry};
use crate::events::RemoveKind;
use crate::router::{data_update_post, remove_post, rename_pair_post};

verus! {

/// Rebuilding the baseline from an unchanged source tree yields the same
/// mirror state: the seeded map is a function of the scan alone.
pub proof fn lemma_baseline_repeatable(
    scan: Seq<ScanEntry>,
    m1: Map<Seq<char>, u64>,
    m2: Map<Seq<char>, u64>,
)
    requires
        m1 == baseline_map(scan),
        m2 == baseline_map(scan),
    ensures
        m1 == m2,
{
}

/// Baseline work never rewrites the destination: every action a scan entry
/// asks for only creates what is absent, so running the builder against a
/// destination that already mirrors the tree neither duplicates nor
/// truncates any destination file's content.
pub proof fn lemma_baseline_preserves_content(e: ScanEntry, a: MirrorAction)
    requires
        baseline_action_ok(e, a),
    ensures
        a is EnsureFile || a is EnsureDir,
{
}

/// A file scanned at the baseline is seeded at exactly its scanned length,
/// provided no later scan entry is a file under the same path: its first
/// bytes are treated as already mirrored and are never copied.
pub proof fn lemma_baseline_seeds_length(scan: Seq<ScanEntry>, i: int)
    requires
        0 <= i < scan.len(),
        scan[i].kind is File,
        forall|j: int|
            i < j < scan.len() ==> ((#[trigger] scan[j]).kind is File ==> scan[j].rel_path@
                != scan[i].rel_path@),
    ensures
        baseline_map(scan).contains_key(scan[i].rel_path@),
        baseline_map(scan)[scan[i].rel_path@] == scan[i].len,
    decreases scan.len(),
{
    if i < scan.len() - 1 {
        lemma_baseline_seeds_length(scan.drop_last(), i);
    }
}

/// Tail-copy correctness: when the destination holds exactly the first `m`
/// bytes of the source, appending the source bytes `m..m + k` leaves it
/// holding exactly the first `m + k` bytes.
pub proof fn lemma_tail_copy_extends(src: Seq<u8>, dest: Seq<u8>, m: int, k: int)
    requires
        0 <= m,
        0 <= k,
        m + k <= src.len(),
        dest == src.take(m),
    ensures
        dest + src.subrange(m, m + k) == src.take(m + k),
{
    assert(dest + src.subrange(m, m + k) =~= src.take(m + k));
}

/// After a tracked source file of mirrored length `m` grows by `k` bytes,
/// one data-change notification asks for exactly the bytes `m..m + k` —
/// no more, no fewer, and nothing below `m` — and leaves the recorded
/// length to be advanced by exactly the bytes obtained.
pub proof fn lemma_growth_copies_exact_tail(
    pre: Map<Seq<char>, u64>,
    path: Seq<char>,
    m: u64,
    k: u64,
    post: Map<Seq<char>, u64>,
    acts: Seq<MirrorAction>,
)
    requires
        data_update_post(pre, path, Some((m + k) as u64), post, acts),
        pre.contains_key(path),
        pre[path] == m,
        0 < k,
        m + k <= u64::MAX,
    ensures
        acts.len() == 1,
        is_copy_tail(acts[0], path, m, k),
        post == pre,
{
}

/// The two previous facts put together: for a source file mirrored up to
/// `m` bytes that has grown by `k` bytes, one data-change notification,
/// followed by appending the bytes it asks for, leaves the destination
/// equal to the whole `m + k`-byte source; the recorded length then
/// advances to `m + k` by reporting the `k` bytes obtained.
pub proof fn lemma_growth_mirrors_source(
    pre: Map<Seq<char>, u64>,
    path: Seq<char>,
    m: u64,
    k: u64,
    post: Map<Seq<char>, u64>,
    acts: Seq<MirrorAction>,
    src: Seq<u8>,
    dest: Seq<u8>,
)
    requires
        data_update_post(pre, path, Some((m + k) as u64), post, acts),
        pre.contains_key(path),
        pre[path] == m,
        0 < k,
        m + k <= u64::MAX,
        src.len() == m + k,
        dest == src.take(m as int),
    ensures
        acts.len() == 1 && is_copy_tail(acts[0], path, m, k),
        dest + src.subrange(m as int, m + k) == src,
{
    lemma_growth_copies_exact_tail(pre, path, m, k, post, acts);
    lemma_tail_copy_extends(src, dest, m as int, k as int);
    assert(src.take(m + k) =~= src);
}

/// Content already mirrored is never read again while the source only
/// grows: once the mirrored length is at least `l`, a data-change
/// notification with source length at or above the mirrored length keeps it
/// at least `l` and copies only from offsets at or above `l` — so the first
/// `l` bytes of a file present before startup are never duplicated.
pub proof fn lemma_no_recopy_below(
    pre: Map<Seq<char>, u64>,
    path: Seq<char>,
    s: u64,
    post: Map<Seq<char>, u64>,
    acts: Seq<MirrorAction>,
    l: u64,
)
    requires
        data_update_post(pre, path, Some(s), post, acts),
        pre.contains_key(path),
        l <= pre[path],
        pre[path] <= s,
    ensures
        post.contains_key(path) && post[path] >= l,
        forall|i: int|
            0 <= i < acts.len() ==> ((#[trigger] acts[i]) matches MirrorAction::CopyTail {
                offset,
                ..
            } ==> offset >= l),
{
}

/// The previous guarantee, carried through any number of consecutive
/// data-change notifications that only ever observe growth: starting from a
/// mirrored length of at least `l` (for instance the length a pre-existing
/// file was seeded with at the baseline), every tail copy any of them asks
/// for starts at or above `l`, and the mirrored length never drops below
/// `l` — the first `l` bytes are never duplicated, however many append
/// events follow.
pub proof fn lemma_no_recopy_below_many(
    path: Seq<char>,
    states: Seq<Map<Seq<char>, u64>>,
    lens: Seq<u64>,
    actss: Seq<Seq<MirrorAction>>,
    l: u64,
)
    requires
        states.len() == lens.len() + 1,
        actss.len() == lens.len(),
        states[0].contains_key(path),
        l <= states[0][path],
        forall|i: int|
            0 <= i < lens.len() ==> data_update_post(
                #[trigger] states[i],
                path,
                Some(lens[i]),
                states[i + 1],
                actss[i],
            ),
        forall|i: int|
            0 <= i < lens.len() ==> (#[trigger] states[i].contains_key(path) ==> states[i][path]
                <= lens[i]),
    ensures
        forall|i: int|
            0 <= i < states.len() ==> #[trigger] states[i].contains_key(path) && states[i][path]
                >= l,
        forall|i: int, j: int|
            0 <= i < actss.len() && 0 <= j < actss[i].len() ==> ((#[trigger] actss[i][j]) matches
            MirrorAction::CopyTail { offset, .. } ==> offset >= l),
    decreases lens.len(),
{
    if lens.len() > 0 {
        let n = lens.len() as int;
        lemma_no_recopy_below_many(
            path,
            states.take(n),
            lens.take(n - 1),
            actss.take(n - 1),
            l,
        );
        assert forall|i: int| 0 <= i < n implies #[trigger] states[i].contains_key(path)
            && states[i][path] >= l by {
            assert(states.take(n)[i] == states[i]);
        }
        lemma_no_recopy_below(states[n - 1], path, lens[n - 1], states[n], actss[n - 1], l);
        assert forall|i: int, j: int|
            0 <= i < actss.len() && 0 <= j < actss[i].len() implies ((#[trigger] actss[i][j]) matches
        MirrorAction::CopyTail { offset, .. } ==> offset >= l) by {
            if i < n - 1 {
                assert(actss.take(n - 1)[i] == actss[i]);
            }
        }
    }
}

/// A same-tree rename moves the tracked entry from `from` to `to` with its
/// mirrored length unchanged, leaves every other entry alone, and asks for
/// exactly one physical rename of the destination file — which changes the
/// file's path, not its bytes.
pub proof fn lemma_rename_moves_entry(
    pre: Map<Seq<char>, u64>,
    from: Seq<char>,
    to: Seq<char>,
    post: Map<Seq<char>, u64>,
    r: Result<Seq<MirrorAction>, MirrorError>,
)
    requires
        rename_pair_post(pre, from, to, post, r),
        pre.contains_key(from),
        from != to,
    ensures
        !post.contains_key(from),
        post.contains_key(to) && post[to] == pre[from],
        r matches Ok(acts) && acts.len() == 1 && is_rename(acts[0], from, to),
        forall|q: Seq<char>|
            q != from && q != to ==> (#[trigger] post.contains_key(q)) == pre.contains_key(q) && (
            pre.contains_key(q) ==> post[q] == pre[q]),
{
}

/// Removing a tracked file leaves no entry for its path, touches no other
/// entry, and asks for exactly one deletion of the destination file.
pub proof fn lemma_remove_clears_state_and_file(
    pre: Map<Seq<char>, u64>,
    path: Seq<char>,
    post: Map<Seq<char>, u64>,
    r: Result<Seq<MirrorAction>, MirrorError>,
)
    requires
        remove_post(pre, path, RemoveKind::File, post, r),
        pre.contains_key(path),
    ensures
        !post.contains_key(path),
        r matches Ok(acts) && acts.len() == 1 && is_remove_file(acts[0], path),
        forall|q: Seq<char>|
            q != path ==> (#[trigger] post.contains_key(q)) == pre.contains_key(q) && (
            pre.contains_key(q) ==> post[q] == pre[q]),
{
}

} // verus!
