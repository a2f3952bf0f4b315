use instance_packager::error::PackagerError;
use instance_packager::glob_resolver::{get_glob_paths, resolve_entries, GlobEntry};
use std::path::Path;
use tempfile::{tempdir, Builder};

fn make_dir(parent: &Path, name: &str) {
    if let Ok(dir) = Builder::new().prefix(name).rand_bytes(0).tempdir_in(parent) {
        let _ = dir.keep();
    }
}

fn make_file(parent: &Path, name: &str) {
    if parent.join(name).exists() {
        return;
    }
    let file = Builder::new()
        .prefix(name)
        .rand_bytes(0)
        .tempfile_in(parent)
        .unwrap();
    file.keep().unwrap();
}

fn make_fake_files(files: Vec<&str>) -> tempfile::TempDir {
    let temp_dir = tempdir().unwrap();

    for file in files {
        let mut current = temp_dir.path().to_path_buf();
        let parts: Vec<&str> = file.split('/').collect();
        for (index, part) in parts.iter().enumerate() {
            if index + 1 == parts.len() {
                make_file(&current, part);
            } else {
                make_dir(&current, part);
                current = current.join(part);
            }
        }
    }

    temp_dir
}


fn found(path: &str) -> GlobEntry {
    GlobEntry::Found(String::from(path))
}

#[test]
fn resolve_entries_keeps_visible_paths_in_order() {
    let entries = vec![
        found("/d/b.bin"),
        found("/d/.hidden.bin"),
        found("/d/a.bin"),
        found("/.d/c.bin"),
        found(".bin"),
        found("/d/.e/"),
    ];
    assert_eq!(
        resolve_entries(&entries),
        Ok(vec![
            String::from("/d/b.bin"),
            String::from("/d/a.bin"),
            String::from("/.d/c.bin"),
        ])
    );
    assert_eq!(resolve_entries(&vec![]), Ok(vec![]));
}

#[test]
fn resolve_entries_reports_the_first_failure() {
    let unreadable_first = vec![found("/d/a.bin"), GlobEntry::Unreadable, GlobEntry::NotText];
    assert_eq!(
        resolve_entries(&unreadable_first),
        Err(PackagerError::GlobPatternFailure)
    );

    let not_text_first = vec![
        found("/d/.hidden"),
        GlobEntry::NotText,
        GlobEntry::Unreadable,
        found("/d/a.bin"),
    ];
    assert_eq!(
        resolve_entries(&not_text_first),
        Err(PackagerError::PathEncodingFailure)
    );
}

#[test]
fn get_glob_paths_lists_matches_without_hidden_files() {
    let temp_dir = make_fake_files(vec![
        "game/b (2).bin",
        "game/a (1).bin",
        "game/.secret.bin",
        "game/c.cue",
        "game/sub/d.bin",
        ".git/e.bin",
    ]);
    let root = temp_dir.path().to_str().unwrap();

    let bins = get_glob_paths(&format!("{}/game/*.bin", root)).unwrap();
    assert_eq!(
        bins,
        vec![
            format!("{}/game/a (1).bin", root),
            format!("{}/game/b (2).bin", root),
        ]
    );

    let everything = get_glob_paths(&format!("{}/game/*", root)).unwrap();
    assert_eq!(
        everything,
        vec![
            format!("{}/game/a (1).bin", root),
            format!("{}/game/b (2).bin", root),
            format!("{}/game/c.cue", root),
            format!("{}/game/sub", root),
        ]
    );

    let none = get_glob_paths(&format!("{}/game/*.iso", root)).unwrap();
    assert_eq!(none, Vec::<String>::new());

    let inside_hidden = get_glob_paths(&format!("{}/.git/*.bin", root)).unwrap();
    assert_eq!(inside_hidden, vec![format!("{}/.git/e.bin", root)]);
}

#[test]
fn get_glob_paths_rejects_a_malformed_pattern() {
    assert_eq!(
        get_glob_paths("/tmp/***"),
        Err(PackagerError::GlobPatternFailure)
    );
    assert_eq!(
        get_glob_paths("/tmp/[unclosed"),
        Err(PackagerError::GlobPatternFailure)
    );
}
