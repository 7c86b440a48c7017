use seal_extract::error::{failure_error, ArchiveFailure, ExtractError};
use seal_extract::format::Format;
use seal_extract::message::decimal_text;
use seal_extract::plan::Refusal;
use seal_extract::entry::Entry;
use seal_extract::extract::{decoded_contents, stream_decoded};
use seal_extract::options::ArchiveOptions;

const NOTES: &str = "
This could mean the archive:
  1. Is malicious (path/symlink traversal attack)
  2. Was accidentally generated from the wrong directory
  3. Is not meant to be extracted to disk
 
If you trust this archive, pass ArchiveOptions.allow_unsafe_path_traversals = true
to read, write, or extract it.
";

#[test]
fn decimal_rendering() {
    assert_eq!(decimal_text(0), "0");
    assert_eq!(decimal_text(7), "7");
    assert_eq!(decimal_text(10), "10");
    assert_eq!(decimal_text(1234567890), "1234567890");
    assert_eq!(decimal_text(usize::MAX), usize::MAX.to_string());
}

#[test]
fn error_for_each_failure() {
    let e = failure_error(ArchiveFailure::FileTooLarge { size: 9, limit: 4 }, "tar.load", None, Format::Tar);
    assert_eq!(e, ExtractError::FileTooLarge { function_name: "tar.load", source: None, size: 9, limit: 4 });
    assert_eq!(
        e.message(),
        "tar.load: a file in the archive loaded from memory (size 9 bytes) exceeds max_file_size (4 bytes); see options to change defaults"
    );

    let e = failure_error(ArchiveFailure::TotalSizeTooLarge { size: 100, limit: 50 }, "f", Some("x.tar"), Format::Tar);
    assert_eq!(e.message(), "f: archive (size 100 bytes) exceeds max_total_size (50 bytes); see options to change defaults");

    let e = failure_error(
        ArchiveFailure::AllocationFailed { size: 12, reason: "oom".to_string() },
        "f",
        Some("a.zip"),
        Format::Zip,
    );
    assert_eq!(
        e.message(),
        "f: you don't have enough memory to extract archive at 'a.zip'\n   (failed to reserve 12 bytes due to err: oom)"
    );

    let e = failure_error(ArchiveFailure::InvalidArchive { reason: "bad".to_string() }, "f", Some("a.tgz"), Format::TarGz);
    assert_eq!(e.message(), "f: archive at 'a.tgz' is invalid or not of format TAR.GZ: bad");

    let e = failure_error(ArchiveFailure::UnsafePath { path: "../e".to_string() }, "f", None, Format::Zip);
    assert_eq!(
        e.message(),
        format!("f: Path/Symlink Traversal: archive loaded from memory\n \nArchive contains a path that, once extracted, will traverse outside the extraction directory:\nTraversing path: '../e'\n \n{}", NOTES)
    );

    let e = failure_error(ArchiveFailure::Other { description: "IO error: boom".to_string() }, "f", Some("p"), Format::Gz);
    assert_eq!(e.message(), "f: unable to extract archive at 'at 'p'' due to err: IO error: boom");
}

#[test]
fn format_names_in_invalid_archive_errors() {
    let cases = [
        (Format::Zip, "ZIP"),
        (Format::Tar, "TAR"),
        (Format::Ar, "AR"),
        (Format::Deb, "DEB"),
        (Format::TarGz, "TAR.GZ"),
        (Format::TarBz2, "TAR.BZ2"),
        (Format::TarXz, "TAR.XZ"),
        (Format::TarZst, "TAR.ZST"),
        (Format::TarLz4, "TAR.LZ4"),
        (Format::Gz, "GZIP"),
        (Format::Bz2, "BZIP2"),
        (Format::Xz, "XZ"),
        (Format::Lz4, "LZ4"),
        (Format::Zst, "ZSTD"),
        (Format::SevenZ, "7Z"),
    ];
    for (format, name) in cases {
        let e = failure_error(ArchiveFailure::InvalidArchive { reason: "r".to_string() }, "f", None, format);
        match e {
            ExtractError::InvalidArchive { format_name, .. } => assert_eq!(format_name, name),
            other => panic!("unexpected {:?}", other),
        }
    }
}

#[test]
fn write_and_stream_messages() {
    let e = ExtractError::EmptySingleFile { function_name: "gz.writefile" };
    assert_eq!(e.message(), "gz.writefile: single file entry is empty");

    let e = ExtractError::UnsafePath { function_name: "w", path: "/x".to_string() };
    assert_eq!(
        e.message(),
        format!("w: Path/Symlink Traversal:\n \nArchive contains a path that, once extracted, will traverse outside the extraction directory:\nTraversing path: '/x'\n \n{}", NOTES)
    );

    let e = ExtractError::SymlinkRefused { function_name: "w", path: "l".to_string(), target: "t".to_string() };
    assert_eq!(
        e.message(),
        "w: archive has internal symlink from l -> t; this is unusual...\n  pass options.symlinks_allowed = true to extract symlinks"
    );

    let e = ExtractError::StreamRefused {
        function_name: "s",
        source: Some("a.tar".to_string()),
        refusal: Refusal::Symlink { path: "l".to_string(), target: "t".to_string() },
    };
    assert_eq!(
        e.message(),
        "s: unable to extract archive at 'at 'a.tar'' due to err: IO error: archive has internal symlink from l -> t; this is unusual...\n  pass options.allow_symlinks = true to extract symlinks"
    );

    let e = ExtractError::StreamRefused {
        function_name: "s",
        source: None,
        refusal: Refusal::Traversal { path: "../q".to_string() },
    };
    assert_eq!(
        e.message(),
        format!("s: unable to extract archive at 'loaded from memory' due to err: IO error: Path/Symlink Traversal:\n \nArchive contains a path that, once extracted, will traverse outside the extraction directory:\nTraversing path: '../q'\n \n{}", NOTES)
    );
}

#[test]
fn decoding_result_handed_on() {
    let es = vec![Entry::Directory { path: "d".to_string(), mode: None, mtime: None }];
    let r = decoded_contents(Ok(es), "f", None, Format::Tar).unwrap();
    assert!(matches!(&r[..], [Entry::Directory { path, .. }] if path == "d"));
    let e = decoded_contents(Err(ArchiveFailure::TotalSizeTooLarge { size: 3, limit: 2 }), "f", None, Format::Tar)
        .unwrap_err();
    assert_eq!(e, ExtractError::TotalSizeTooLarge { function_name: "f", size: 3, limit: 2 });
    let options = ArchiveOptions {
        max_file_size: 10,
        max_total_size: 10,
        allow_unsafe_path_traversals: false,
        allow_symlinks: false,
    };
    let (entries, plan) = stream_decoded(
        Err(ArchiveFailure::TotalSizeTooLarge { size: 3, limit: 2 }),
        &options,
        Format::Tar,
        "f",
        None,
    );
    assert!(entries.is_empty());
    let failure = plan.unwrap_err();
    assert!(failure.done.is_empty());
    assert_eq!(failure.error, e);
}
