use seal_extract::entry::Entry;
use seal_extract::error::ExtractError;
use seal_extract::extract::{contents, stream_to_disk_plan, write_to_disk_plan};
use seal_extract::format::Format;
use seal_extract::options::ArchiveOptions;
use seal_extract::plan::{Action, Refusal, Target};

fn octal(field: &mut [u8], value: u64) {
    let digits = field.len() - 1;
    let text = format!("{:0width$o}", value, width = digits);
    field[..digits].copy_from_slice(text.as_bytes());
    field[digits] = 0;
}

fn header(name: &str, size: u64, kind: u8, link: &str) -> [u8; 512] {
    let mut h = [0u8; 512];
    h[..name.len()].copy_from_slice(name.as_bytes());
    octal(&mut h[100..108], 0o644);
    octal(&mut h[108..116], 0);
    octal(&mut h[116..124], 0);
    octal(&mut h[124..136], size);
    octal(&mut h[136..148], 0);
    h[156] = kind;
    h[157..157 + link.len()].copy_from_slice(link.as_bytes());
    h[257..263].copy_from_slice(b"ustar\0");
    h[263..265].copy_from_slice(b"00");
    for b in &mut h[148..156] {
        *b = b' ';
    }
    let sum: u32 = h.iter().map(|&b| b as u32).sum();
    let text = format!("{:06o}\0 ", sum);
    h[148..156].copy_from_slice(text.as_bytes());
    h
}

enum Item<'a> {
    File(&'a str, &'a [u8]),
    Dir(&'a str),
    Link(&'a str, &'a str),
}

fn tar(items: &[Item]) -> Vec<u8> {
    let mut out = Vec::new();
    for item in items {
        match item {
            Item::File(name, data) => {
                out.extend_from_slice(&header(name, data.len() as u64, b'0', ""));
                out.extend_from_slice(data);
                let pad = (512 - data.len() % 512) % 512;
                out.extend(std::iter::repeat(0u8).take(pad));
            }
            Item::Dir(name) => out.extend_from_slice(&header(name, 0, b'5', "")),
            Item::Link(name, target) => out.extend_from_slice(&header(name, 0, b'2', target)),
        }
    }
    out.extend(std::iter::repeat(0u8).take(1024));
    out
}

fn options(max_file: usize, max_total: usize) -> ArchiveOptions {
    ArchiveOptions {
        max_file_size: max_file,
        max_total_size: max_total,
        allow_unsafe_path_traversals: false,
        allow_symlinks: false,
    }
}

#[test]
fn contents_reads_tar_entries() {
    let bytes = tar(&[Item::Dir("d/"), Item::File("d/a.txt", b"hello"), Item::Link("d/l", "a.txt")]);
    let entries = contents(bytes, Some("x.tar"), &options(1000, 10000), Format::Tar, "tar.readfile").unwrap();
    assert_eq!(entries.len(), 3);
    assert!(matches!(&entries[0], Entry::Directory { path, mode: None, mtime: None } if path == "d/"));
    assert!(matches!(&entries[1], Entry::File { path, data, .. } if path == "d/a.txt" && data == b"hello"));
    assert!(matches!(&entries[2], Entry::Symlink { path, target } if path == "d/l" && target == "a.txt"));
    assert_eq!(entries[1].data(), Some(&b"hello"[..]));
    assert_eq!(entries[0].data(), None);
    assert_eq!(entries[2].path(), "d/l");
}

#[test]
fn contents_file_too_large() {
    let bytes = tar(&[Item::File("big", &[7u8; 10])]);
    let err = contents(bytes, None, &options(5, 10000), Format::Tar, "tar.load").unwrap_err();
    assert_eq!(err, ExtractError::FileTooLarge { function_name: "tar.load", source: None, size: 10, limit: 5 });
}

#[test]
fn contents_total_too_large() {
    let bytes = tar(&[Item::File("a", &[1u8; 4]), Item::File("b", &[2u8; 4])]);
    let err = contents(bytes, Some("t.tar"), &options(100, 6), Format::Tar, "tar.readfile").unwrap_err();
    assert!(matches!(err, ExtractError::TotalSizeTooLarge { function_name: "tar.readfile", limit: 6, .. }));
}

#[test]
fn contents_unsafe_entry() {
    let bytes = tar(&[Item::File("../evil", b"x")]);
    let err = contents(bytes, None, &options(100, 100), Format::Tar, "tar.load").unwrap_err();
    assert_eq!(
        err,
        ExtractError::UnsafeArchive { function_name: "tar.load", source: None, path: "../evil".to_string() }
    );
}

#[test]
fn contents_invalid_archive_names_format() {
    let err = contents(vec![1, 2, 3, 4, 5], Some("a.7z"), &options(100, 100), Format::SevenZ, "sevenz.readfile")
        .unwrap_err();
    match &err {
        ExtractError::InvalidArchive { function_name, source, format_name, .. } => {
            assert_eq!(*function_name, "sevenz.readfile");
            assert_eq!(source.as_deref(), Some("a.7z"));
            assert_eq!(*format_name, "7Z");
        }
        other => panic!("unexpected {:?}", other),
    }
    assert!(err.message().starts_with("sevenz.readfile: archive at 'a.7z' is invalid or not of format 7Z: "));
}

#[test]
fn contents_other_failure_keeps_description() {
    let err = contents(vec![9u8; 40], None, &options(100, 100), Format::Zip, "zip.load").unwrap_err();
    match &err {
        ExtractError::Unextractable { description, .. } => assert!(description.starts_with("ZIP error")),
        other => panic!("unexpected {:?}", other),
    }
}

#[test]
fn stream_plan_of_tar() {
    let bytes = tar(&[Item::Dir("d/"), Item::File("d/a.txt", b"hi")]);
    let (entries, plan) =
        stream_to_disk_plan(&bytes, None, &options(100, 1000), Format::Tar, "tar.extract");
    let plan = plan.unwrap();
    assert_eq!(entries.len(), 2);
    assert_eq!(
        plan,
        vec![
            Action::CreateDirAll { target: Target::Inside("d/".to_string()) },
            Action::CreateParentDir { target: Target::Inside("d/a.txt".to_string()) },
            Action::WriteFile { target: Target::Inside("d/a.txt".to_string()), entry: 1 },
        ]
    );
}

#[test]
fn stream_plan_refuses_symlink() {
    let bytes = tar(&[Item::File("a", b"1"), Item::Link("l", "a")]);
    let (entries, plan) =
        stream_to_disk_plan(&bytes, Some("in.tar"), &options(100, 1000), Format::Tar, "tar.extract");
    assert_eq!(entries.len(), 2);
    let failure = plan.unwrap_err();
    assert_eq!(
        failure.done,
        vec![
            Action::CreateParentDir { target: Target::Inside("a".to_string()) },
            Action::WriteFile { target: Target::Inside("a".to_string()), entry: 0 },
        ]
    );
    assert_eq!(
        failure.error,
        ExtractError::StreamRefused {
            function_name: "tar.extract",
            source: Some("in.tar".to_string()),
            refusal: Refusal::Symlink { path: "l".to_string(), target: "a".to_string() },
        }
    );
    let allowed = ArchiveOptions { allow_symlinks: true, ..options(100, 1000) };
    let (_, plan) = stream_to_disk_plan(&bytes, None, &allowed, Format::Tar, "tar.extract");
    let plan = plan.unwrap();
    assert_eq!(
        plan.last(),
        Some(&Action::CreateSymlink { target: Target::Inside("l".to_string()), points_to: "a".to_string() })
    );
}

#[test]
fn stream_plan_decoding_error() {
    let bytes = tar(&[Item::File("big", &[0u8; 50])]);
    let (entries, plan) = stream_to_disk_plan(&bytes, None, &options(10, 1000), Format::Tar, "tar.extract");
    assert!(entries.is_empty());
    let failure = plan.unwrap_err();
    assert!(failure.done.is_empty());
    assert_eq!(failure.error, ExtractError::FileTooLarge { function_name: "tar.extract", source: None, size: 50, limit: 10 });
}

#[test]
fn stream_and_write_plans_agree_on_decoded_archive() {
    let bytes = tar(&[Item::Dir("d/"), Item::File("d/a.txt", b"hi"), Item::File("b", b"x")]);
    let permissive = ArchiveOptions { allow_unsafe_path_traversals: true, ..options(100, 1000) };
    let (entries, streamed) =
        stream_to_disk_plan(&bytes, None, &permissive, Format::Tar, "tar.extract");
    let streamed = streamed.unwrap();
    let written = write_to_disk_plan(&entries, &permissive, Some(Format::Tar), "tar.extract").unwrap();
    assert_eq!(streamed, written);
    assert!(streamed.iter().all(|a| !matches!(a, Action::Warn { .. })));
}

fn crc32(data: &[u8]) -> u32 {
    let mut crc = 0xffff_ffffu32;
    for &b in data {
        crc ^= b as u32;
        for _ in 0..8 {
            crc = if crc & 1 != 0 { (crc >> 1) ^ 0xedb8_8320 } else { crc >> 1 };
        }
    }
    !crc
}

fn gzip_stored(data: &[u8]) -> Vec<u8> {
    let mut out = vec![0x1f, 0x8b, 8, 0, 0, 0, 0, 0, 0, 255];
    let len = data.len() as u16;
    out.push(1);
    out.extend_from_slice(&len.to_le_bytes());
    out.extend_from_slice(&(!len).to_le_bytes());
    out.extend_from_slice(data);
    out.extend_from_slice(&crc32(data).to_le_bytes());
    out.extend_from_slice(&(data.len() as u32).to_le_bytes());
    out
}

#[test]
fn single_file_gzip_decodes_to_one_file_and_plans_agree() {
    let bytes = gzip_stored(b"payload");
    let entries = contents(bytes.clone(), None, &options(100, 1000), Format::Gz, "gz.load").unwrap();
    assert_eq!(entries.len(), 1);
    assert!(matches!(&entries[0], Entry::File { path, data, .. } if path == "data" && data == b"payload"));
    let (streamed_entries, streamed) =
        stream_to_disk_plan(&bytes, None, &options(100, 1000), Format::Gz, "gz.extract");
    let streamed = streamed.unwrap();
    assert_eq!(streamed_entries.len(), 1);
    let written = write_to_disk_plan(&streamed_entries, &options(100, 1000), Some(Format::Gz), "gz.extract").unwrap();
    assert_eq!(streamed, written);
    assert_eq!(streamed, vec![Action::WriteFile { target: Target::Destination, entry: 0 }]);
}
