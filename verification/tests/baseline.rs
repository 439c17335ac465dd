use tailmirror::actions::MirrorAction;
use tailmirror::baseline::{build_baseline, ScanEntry, ScanKind};

fn sample_scan() -> Vec<ScanEntry> {
    vec![
        ScanEntry { rel_path: "logs".to_string(), kind: ScanKind::Folder, len: 0 },
        ScanEntry { rel_path: "logs/a.txt".to_string(), kind: ScanKind::File, len: 100 },
        ScanEntry { rel_path: "b.txt".to_string(), kind: ScanKind::File, len: 0 },
    ]
}

#[test]
fn baseline_seeds_lengths_and_skeleton() {
    let scan = sample_scan();
    let (state, acts) = build_baseline(&scan);

    assert_eq!(state.get(&"logs/a.txt".to_string()), Some(100));
    assert_eq!(state.get(&"b.txt".to_string()), Some(0));
    assert_eq!(state.get(&"logs".to_string()), None);

    assert_eq!(acts.len(), 3);
    match &acts[0] {
        MirrorAction::EnsureDir { path } => assert_eq!(path, "logs"),
        other => panic!("expected EnsureDir, got {:?}", other),
    }
    match &acts[1] {
        MirrorAction::EnsureFile { path } => assert_eq!(path, "logs/a.txt"),
        other => panic!("expected EnsureFile, got {:?}", other),
    }
    match &acts[2] {
        MirrorAction::EnsureFile { path } => assert_eq!(path, "b.txt"),
        other => panic!("expected EnsureFile, got {:?}", other),
    }
}

#[test]
fn baseline_twice_is_idempotent() {
    let scan = sample_scan();
    let (state1, acts1) = build_baseline(&scan);
    let (state2, acts2) = build_baseline(&scan);

    for p in ["logs/a.txt", "b.txt", "logs", "absent"] {
        assert_eq!(state1.get(&p.to_string()), state2.get(&p.to_string()));
    }
    assert_eq!(acts1.len(), acts2.len());
    // No baseline action rewrites, truncates or removes destination content.
    for a in acts1.iter().chain(acts2.iter()) {
        assert!(matches!(
            a,
            MirrorAction::EnsureDir { .. } | MirrorAction::EnsureFile { .. }
        ));
    }
}

#[test]
fn baseline_empty_scan() {
    let scan: Vec<ScanEntry> = Vec::new();
    let (state, acts) = build_baseline(&scan);
    assert_eq!(state.get(&"anything".to_string()), None);
    assert!(acts.is_empty());
}
