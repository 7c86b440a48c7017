use seal_extract::entry::{Entry, Mtime};
use seal_extract::error::ExtractError;
use seal_extract::extract::{write_to_disk_plan, Failure};
use seal_extract::format::Format;
use seal_extract::options::ArchiveOptions;
use seal_extract::plan::{plan_entries, Action, Refusal, Refused, Target};

fn strict() -> ArchiveOptions {
    ArchiveOptions {
        max_file_size: 1 << 20,
        max_total_size: 1 << 24,
        allow_unsafe_path_traversals: false,
        allow_symlinks: false,
    }
}

fn file(path: &str, data: &[u8], mode: Option<u32>, mtime: Option<Mtime>) -> Entry {
    Entry::File { path: path.to_string(), data: data.to_vec(), mode, mtime }
}

fn dir(path: &str, mode: Option<u32>, mtime: Option<Mtime>) -> Entry {
    Entry::Directory { path: path.to_string(), mode, mtime }
}

fn symlink(path: &str, target: &str) -> Entry {
    Entry::Symlink { path: path.to_string(), target: target.to_string() }
}

fn inside(p: &str) -> Target {
    Target::Inside(p.to_string())
}

#[test]
fn plan_orders_entries_links_then_directory_times() {
    let t = Mtime { secs: 1_700_000_000, nanos: 5 };
    let entries = vec![
        dir("d", Some(0o755), Some(t)),
        symlink("d/link", "../a.txt"),
        file("a.txt", b"hello", Some(0o644), Some(t)),
    ];
    let options = ArchiveOptions { allow_symlinks: true, ..strict() };
    let plan = plan_entries(&entries, &options).unwrap();
    assert_eq!(
        plan,
        vec![
            Action::CreateDirAll { target: inside("d") },
            Action::SetMode { target: inside("d"), mode: 0o755 },
            Action::CreateParentDir { target: inside("a.txt") },
            Action::WriteFile { target: inside("a.txt"), entry: 2 },
            Action::SetMode { target: inside("a.txt"), mode: 0o644 },
            Action::SetMtime { target: inside("a.txt"), mtime: t },
            Action::CreateSymlink { target: inside("d/link"), points_to: "../a.txt".to_string() },
            Action::SetMtime { target: inside("d"), mtime: t },
        ]
    );
}

#[test]
fn plan_without_modes_or_times() {
    let entries = vec![file("x/y.bin", &[1, 2, 3], None, None), dir("x", None, None)];
    let plan = plan_entries(&entries, &strict()).unwrap();
    assert_eq!(
        plan,
        vec![
            Action::CreateParentDir { target: inside("x/y.bin") },
            Action::WriteFile { target: inside("x/y.bin"), entry: 0 },
            Action::CreateDirAll { target: inside("x") },
        ]
    );
}

#[test]
fn plan_refuses_parent_traversal() {
    let t = Mtime { secs: 9, nanos: 0 };
    let entries = vec![
        file("ok.txt", b"", None, None),
        dir("d", Some(0o700), Some(t)),
        file("a/../../evil", b"x", None, None),
        file("late.txt", b"y", None, None),
    ];
    assert_eq!(
        plan_entries(&entries, &strict()),
        Err(Refused {
            done: vec![
                Action::CreateParentDir { target: inside("ok.txt") },
                Action::WriteFile { target: inside("ok.txt"), entry: 0 },
                Action::CreateDirAll { target: inside("d") },
                Action::SetMode { target: inside("d"), mode: 0o700 },
            ],
            refusal: Refusal::Traversal { path: "a/../../evil".to_string() },
        })
    );
}

#[test]
fn plan_refuses_each_kind_of_unsafe_path() {
    for p in ["", "/etc/passwd", "\\windows", "C:\\x", "c:x", "..", "a/..", "..\\b", "a\0b", "a:b"] {
        let entries = vec![file(p, b"", None, None)];
        assert_eq!(
            plan_entries(&entries, &strict()).map_err(|r| r.refusal),
            Err(Refusal::Traversal { path: p.to_string() }),
            "{:?}",
            p
        );
    }
}

#[test]
fn plan_accepts_safe_lookalikes() {
    for p in ["a.txt", "./a", "a/..b", "..b/c", "...", "a/b/c.d", "1:x", "ab:c"] {
        let entries = vec![file(p, b"", None, None)];
        assert!(plan_entries(&entries, &strict()).is_ok(), "{:?}", p);
    }
}

#[test]
fn plan_warns_when_traversal_allowed() {
    let options = ArchiveOptions { allow_unsafe_path_traversals: true, ..strict() };
    let entries = vec![dir("../up", None, None)];
    assert_eq!(
        plan_entries(&entries, &options).unwrap(),
        vec![
            Action::Warn { path: "../up".to_string() },
            Action::CreateDirAll { target: inside("../up") },
        ]
    );
}

#[test]
fn plan_refuses_symlink_unless_allowed() {
    let entries = vec![file("a", b"1", None, None), symlink("l", "a")];
    assert_eq!(
        plan_entries(&entries, &strict()).map_err(|r| r.refusal),
        Err(Refusal::Symlink { path: "l".to_string(), target: "a".to_string() })
    );
}

#[test]
fn plan_checks_path_before_symlink() {
    let entries = vec![symlink("/abs", "a")];
    assert_eq!(
        plan_entries(&entries, &strict()).map_err(|r| r.refusal),
        Err(Refusal::Traversal { path: "/abs".to_string() })
    );
}

#[test]
fn plan_hard_links_after_files() {
    let entries = vec![
        Entry::HardLink { path: "h".to_string(), target: "f".to_string() },
        file("f", b"z", None, None),
    ];
    assert_eq!(
        plan_entries(&entries, &strict()).unwrap(),
        vec![
            Action::CreateParentDir { target: inside("f") },
            Action::WriteFile { target: inside("f"), entry: 1 },
            Action::CreateHardLink { target: inside("h"), existing: inside("f") },
        ]
    );
    let bad = vec![Entry::HardLink { path: "h".to_string(), target: "../f".to_string() }];
    assert_eq!(
        plan_entries(&bad, &strict()).map_err(|r| r.refusal),
        Err(Refusal::Traversal { path: "../f".to_string() })
    );
}

#[test]
fn write_plan_single_file_goes_to_destination() {
    let t = Mtime { secs: 7, nanos: 0 };
    let entries = vec![file("data", b"abc", Some(0o600), Some(t))];
    let plan = write_to_disk_plan(&entries, &strict(), Some(Format::Gz), "gz.writefile").unwrap();
    assert_eq!(
        plan,
        vec![
            Action::WriteFile { target: Target::Destination, entry: 0 },
            Action::SetMode { target: Target::Destination, mode: 0o600 },
            Action::SetMtime { target: Target::Destination, mtime: t },
        ]
    );
}

#[test]
fn write_plan_single_file_empty() {
    let empty: Vec<Entry> = vec![];
    assert_eq!(
        write_to_disk_plan(&empty, &strict(), Some(Format::Zst), "zst.writefile"),
        Err(Failure { done: vec![], error: ExtractError::EmptySingleFile { function_name: "zst.writefile" } })
    );
    let not_file = vec![dir("d", None, None)];
    assert_eq!(
        write_to_disk_plan(&not_file, &strict(), Some(Format::Xz), "xz.writefile").map_err(|f| f.error),
        Err(ExtractError::EmptySingleFile { function_name: "xz.writefile" })
    );
}

#[test]
fn write_plan_errors() {
    let entries = vec![file("first", b"1", None, None), symlink("l", "t")];
    assert_eq!(
        write_to_disk_plan(&entries, &strict(), Some(Format::Tar), "tar.extract"),
        Err(Failure {
            done: vec![
                Action::CreateParentDir { target: inside("first") },
                Action::WriteFile { target: inside("first"), entry: 0 },
            ],
            error: ExtractError::SymlinkRefused {
                function_name: "tar.extract",
                path: "l".to_string(),
                target: "t".to_string(),
            },
        })
    );
    let entries = vec![file("../x", b"", None, None)];
    assert_eq!(
        write_to_disk_plan(&entries, &strict(), None, "zip.extract").map_err(|f| f.error),
        Err(ExtractError::UnsafePath { function_name: "zip.extract", path: "../x".to_string() })
    );
}

#[test]
fn write_plan_multi_file_format_uses_directory() {
    let entries = vec![file("data", b"abc", None, None)];
    let plan = write_to_disk_plan(&entries, &strict(), Some(Format::TarGz), "f").unwrap();
    assert_eq!(
        plan,
        vec![
            Action::CreateParentDir { target: inside("data") },
            Action::WriteFile { target: inside("data"), entry: 0 },
        ]
    );
}

#[test]
fn single_file_formats() {
    let singles = [Format::Gz, Format::Bz2, Format::Xz, Format::Lz4, Format::Zst];
    let multis = [
        Format::Zip,
        Format::Tar,
        Format::Ar,
        Format::Deb,
        Format::TarGz,
        Format::TarBz2,
        Format::TarXz,
        Format::TarZst,
        Format::TarLz4,
        Format::SevenZ,
    ];
    for f in singles {
        assert!(f.is_single_file());
    }
    for f in multis {
        assert!(!f.is_single_file());
    }
}

fn effects(plan: &[Action], entries: &[Entry]) -> Vec<String> {
    plan.iter()
        .filter(|a| !matches!(a, Action::Warn { .. }))
        .map(|a| match a {
            Action::WriteFile { target, entry } => format!("write {:?} {:?}", target, entries[*entry].data()),
            other => format!("{:?}", other),
        })
        .collect()
}

#[test]
fn symlinks_behave_as_if_last() {
    let options = ArchiveOptions { allow_symlinks: true, ..strict() };
    let mixed = vec![
        symlink("l1", "a"),
        file("a", b"1", Some(0o644), None),
        dir("d", None, Some(Mtime { secs: 3, nanos: 0 })),
        symlink("d/l2", "../a"),
        file("d/b", b"2", None, None),
    ];
    let reordered = vec![
        file("a", b"1", Some(0o644), None),
        dir("d", None, Some(Mtime { secs: 3, nanos: 0 })),
        file("d/b", b"2", None, None),
        symlink("l1", "a"),
        symlink("d/l2", "../a"),
    ];
    let p1 = write_to_disk_plan(&mixed, &options, None, "w").unwrap();
    let p2 = write_to_disk_plan(&reordered, &options, Some(Format::Tar), "w").unwrap();
    assert_eq!(effects(&p1, &mixed), effects(&p2, &reordered));
}
