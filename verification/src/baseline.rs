use vstd::prelude::*;

use crate::actions::{is_ensure_dir, is_ensure_file, MirrorAction};
use crate::state::MirrorState;

verus! {

/// What kind of object one scanned source-tree entry is.
#[derive(Clone, Copy, PartialEq, Eq, Structural, Debug)]
pub enum ScanKind {
    File,
    Folder,
}

/// One entry of the startup walk over the source tree: its path relative to
/// the source root, its kind, and (for a file) its current length in bytes.
pub struct ScanEntry {
    pub rel_path: String,
    pub kind: ScanKind,
    pub len: u64,
}

/// The mirror map a scan seeds: every scanned file is tracked at exactly its
/// scanned length, so bytes already on disk are never copied again.
pub open spec fn baseline_map(scan: Seq<ScanEntry>) -> Map<Seq<char>, u64>
    decreases scan.len(),
{
    if scan.len() == 0 {
        Map::empty()
    } else {
        let prev = baseline_map(scan.drop_last());
        let e = scan.last();
        match e.kind {
            ScanKind::File => prev.insert(e.rel_path@, e.len),
            ScanKind::Folder => prev,
        }
    }
}

/// The destination-tree work one scanned entry asks for: a directory is
/// created if absent, a file is opened append-only and created empty only if
/// absent. Neither touches existing destination content.
pub open spec fn baseline_action_ok(e: ScanEntry, a: MirrorAction) -> bool {
    match e.kind {
        ScanKind::File => is_ensure_file(a, e.rel_path@),
        ScanKind::Folder => is_ensure_dir(a, e.rel_path@),
    }
}

/// Build the startup baseline from a completed walk of the source tree:
/// the seeded mirror state, and one content-preserving destination action
/// per scanned entry, in scan order.
pub fn build_baseline(scan: &Vec<ScanEntry>) -> (r: (MirrorState, Vec<MirrorAction>))
    ensures
        r.0.wf(),
        r.0@ == baseline_map(scan@),
        r.1@.len() == scan@.len(),
        forall|i: int| 0 <= i < scan@.len() ==> baseline_action_ok(scan@[i], #[trigger] r.1@[i]),
{
    let mut state = MirrorState::new();
    let mut acts: Vec<MirrorAction> = Vec::new();
    let n = scan.len();
    let mut i: usize = 0;
    while i < n
        invariant
            state.wf(),
            n == scan@.len(),
            0 <= i <= n,
            state@ == baseline_map(scan@.take(i as int)),
            acts@.len() == i,
            forall|j: int| 0 <= j < i ==> baseline_action_ok(scan@[j], #[trigger] acts@[j]),
        decreases n - i,
    {
        let e = &scan[i];
        match e.kind {
            ScanKind::File => {
                state.insert(e.rel_path.clone(), e.len);
                acts.push(MirrorAction::EnsureFile { path: e.rel_path.clone() });
            },
            ScanKind::Folder => {
                acts.push(MirrorAction::EnsureDir { path: e.rel_path.clone() });
            },
        }
        proof {
            assert(scan@.take(i + 1).drop_last() =~= scan@.take(i as int));
            assert(scan@.take(i + 1).last() == scan@[i as int]);
        }
        i += 1;
    }
    proof {
        assert(scan@.take(n as int) =~= scan@);
    }
    (state, acts)
}

} // verus!
