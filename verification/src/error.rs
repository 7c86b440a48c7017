use vstd::prelude::*;
use archive::ArchiveError;
use crate::format::{Format, format_name, spec_format_name};
use crate::plan::{Refusal, RefusalV};

verus! {

/// The error type of `archive`, passed through opaque.
#[verifier::external_type_specification]
#[verifier::external_body]
pub struct ExArchiveError(ArchiveError);

/// Why the decoder gave up on an archive, as plain values.
#[derive(Debug, PartialEq, Eq)]
pub enum ArchiveFailure {
    /// One decoded file is larger than the per-file limit.
    FileTooLarge { size: usize, limit: usize },
    /// All decoded files together are larger than the total limit.
    TotalSizeTooLarge { size: usize, limit: usize },
    /// A buffer of `size` bytes could not be reserved.
    AllocationFailed { size: usize, reason: String },
    /// The bytes are not an archive of the expected format.
    InvalidArchive { reason: String },
    /// An entry's path or link target leaves the extraction root.
    UnsafePath { path: String },
    /// Any other failure, described by the decoder.
    Other { description: String },
}

/// The model of an [`ArchiveFailure`].
pub enum ArchiveFailureV {
    FileTooLarge { size: usize, limit: usize },
    TotalSizeTooLarge { size: usize, limit: usize },
    AllocationFailed { size: usize, reason: Seq<char> },
    InvalidArchive { reason: Seq<char> },
    UnsafePath { path: Seq<char> },
    Other { description: Seq<char> },
}

impl View for ArchiveFailure {
    type V = ArchiveFailureV;

    open spec fn view(&self) -> ArchiveFailureV {
        match self {
            ArchiveFailure::FileTooLarge { size, limit } => ArchiveFailureV::FileTooLarge {
                size: *size,
                limit: *limit,
            },
            ArchiveFailure::TotalSizeTooLarge { size, limit } => ArchiveFailureV::TotalSizeTooLarge {
                size: *size,
                limit: *limit,
            },
            ArchiveFailure::AllocationFailed { size, reason } => ArchiveFailureV::AllocationFailed {
                size: *size,
                reason: reason@,
            },
            ArchiveFailure::InvalidArchive { reason } => ArchiveFailureV::InvalidArchive {
                reason: reason@,
            },
            ArchiveFailure::UnsafePath { path } => ArchiveFailureV::UnsafePath { path: path@ },
            ArchiveFailure::Other { description } => ArchiveFailureV::Other {
                description: description@,
            },
        }
    }
}

/// Converts an error of `archive` into plain values, variant for variant;
/// the failures that are not told apart keep the decoder's own description
/// (its `Display` text), and an allocation failure keeps the allocator's.
/// The wrapper that calls the decoder uses it in its body, where what holds
/// of the converted failure is stated; nothing is stated here, since Verus
/// cannot look into the error.
#[verifier::external_body]
pub(crate) fn archive_failure(error: ArchiveError) -> ArchiveFailure {
    match error {
        ArchiveError::FileTooLarge { size, limit } => ArchiveFailure::FileTooLarge { size, limit },
        ArchiveError::TotalSizeTooLarge { size, limit } => ArchiveFailure::TotalSizeTooLarge { size, limit },
        ArchiveError::AllocationFailed { size, source } => ArchiveFailure::AllocationFailed { size, reason: source.to_string() },
        ArchiveError::InvalidArchive(reason) => ArchiveFailure::InvalidArchive { reason },
        ArchiveError::UnsafePath(path) => ArchiveFailure::UnsafePath { path },
        other => ArchiveFailure::Other { description: other.to_string() },
    }
}

/// An error of reading, extracting or writing an archive. Each variant
/// carries the name of the public function that failed and, for an archive
/// read from a file, that file's path (`None` for one loaded from memory).
#[derive(Debug, PartialEq, Eq)]
pub enum ExtractError {
    /// A decoded file exceeds the per-file limit.
    FileTooLarge { function_name: &'static str, source: Option<String>, size: usize, limit: usize },
    /// The decoded files together exceed the total limit.
    TotalSizeTooLarge { function_name: &'static str, size: usize, limit: usize },
    /// Memory for a decoded file could not be reserved.
    OutOfMemory { function_name: &'static str, source: Option<String>, size: usize, reason: String },
    /// The bytes are not an archive of the given format.
    InvalidArchive {
        function_name: &'static str,
        source: Option<String>,
        format_name: &'static str,
        reason: String,
    },
    /// The decoder found an entry that would leave the extraction root.
    UnsafeArchive { function_name: &'static str, source: Option<String>, path: String },
    /// Any other decoding failure.
    Unextractable { function_name: &'static str, source: Option<String>, description: String },
    /// A single-file archive to be written has no file entry first.
    EmptySingleFile { function_name: &'static str },
    /// An entry to be written would leave the destination directory.
    UnsafePath { function_name: &'static str, path: String },
    /// An entry to be written is a symbolic link, which is not allowed.
    SymlinkRefused { function_name: &'static str, path: String, target: String },
    /// Extracting an archive straight to disk stopped at a refused entry.
    StreamRefused { function_name: &'static str, source: Option<String>, refusal: Refusal },
}

/// The model of an [`ExtractError`].
pub enum ExtractErrorV {
    FileTooLarge { function_name: Seq<char>, source: Option<Seq<char>>, size: usize, limit: usize },
    TotalSizeTooLarge { function_name: Seq<char>, size: usize, limit: usize },
    OutOfMemory {
        function_name: Seq<char>,
        source: Option<Seq<char>>,
        size: usize,
        reason: Seq<char>,
    },
    InvalidArchive {
        function_name: Seq<char>,
        source: Option<Seq<char>>,
        format_name: Seq<char>,
        reason: Seq<char>,
    },
    UnsafeArchive { function_name: Seq<char>, source: Option<Seq<char>>, path: Seq<char> },
    Unextractable { function_name: Seq<char>, source: Option<Seq<char>>, description: Seq<char> },
    EmptySingleFile { function_name: Seq<char> },
    UnsafePath { function_name: Seq<char>, path: Seq<char> },
    SymlinkRefused { function_name: Seq<char>, path: Seq<char>, target: Seq<char> },
    StreamRefused { function_name: Seq<char>, source: Option<Seq<char>>, refusal: RefusalV },
}

/// The model of an optional archive path.
pub open spec fn source_view(source: Option<String>) -> Option<Seq<char>> {
    match source {
        Some(s) => Some(s@),
        None => None,
    }
}

impl View for ExtractError {
    type V = ExtractErrorV;

    open spec fn view(&self) -> ExtractErrorV {
        match self {
            ExtractError::FileTooLarge { function_name, source, size, limit } =>
                ExtractErrorV::FileTooLarge {
                function_name: function_name@,
                source: source_view(*source),
                size: *size,
                limit: *limit,
            },
            ExtractError::TotalSizeTooLarge { function_name, size, limit } =>
                ExtractErrorV::TotalSizeTooLarge {
                function_name: function_name@,
                size: *size,
                limit: *limit,
            },
            ExtractError::OutOfMemory { function_name, source, size, reason } =>
                ExtractErrorV::OutOfMemory {
                function_name: function_name@,
                source: source_view(*source),
                size: *size,
                reason: reason@,
            },
            ExtractError::InvalidArchive { function_name, source, format_name, reason } =>
                ExtractErrorV::InvalidArchive {
                function_name: function_name@,
                source: source_view(*source),
                format_name: format_name@,
                reason: reason@,
            },
            ExtractError::UnsafeArchive { function_name, source, path } =>
                ExtractErrorV::UnsafeArchive {
                function_name: function_name@,
                source: source_view(*source),
                path: path@,
            },
            ExtractError::Unextractable { function_name, source, description } =>
                ExtractErrorV::Unextractable {
                function_name: function_name@,
                source: source_view(*source),
                description: description@,
            },
            ExtractError::EmptySingleFile { function_name } => ExtractErrorV::EmptySingleFile {
                function_name: function_name@,
            },
            ExtractError::UnsafePath { function_name, path } => ExtractErrorV::UnsafePath {
                function_name: function_name@,
                path: path@,
            },
            ExtractError::SymlinkRefused { function_name, path, target } =>
                ExtractErrorV::SymlinkRefused {
                function_name: function_name@,
                path: path@,
                target: target@,
            },
            ExtractError::StreamRefused { function_name, source, refusal } =>
                ExtractErrorV::StreamRefused {
                function_name: function_name@,
                source: source_view(*source),
                refusal: refusal@,
            },
        }
    }
}

/// The error that a decoding failure becomes, for the public function
/// `function_name` reading the archive at `source` (or from memory) in
/// `format`.
pub open spec fn spec_failure_error(
    failure: ArchiveFailureV,
    function_name: Seq<char>,
    source: Option<Seq<char>>,
    format: Format,
) -> ExtractErrorV {
    match failure {
        ArchiveFailureV::FileTooLarge { size, limit } => ExtractErrorV::FileTooLarge {
            function_name,
            source,
            size,
            limit,
        },
        ArchiveFailureV::TotalSizeTooLarge { size, limit } => ExtractErrorV::TotalSizeTooLarge {
            function_name,
            size,
            limit,
        },
        ArchiveFailureV::AllocationFailed { size, reason } => ExtractErrorV::OutOfMemory {
            function_name,
            source,
            size,
            reason,
        },
        ArchiveFailureV::InvalidArchive { reason } => ExtractErrorV::InvalidArchive {
            function_name,
            source,
            format_name: spec_format_name(format),
            reason,
        },
        ArchiveFailureV::UnsafePath { path } => ExtractErrorV::UnsafeArchive {
            function_name,
            source,
            path,
        },
        ArchiveFailureV::Other { description } => ExtractErrorV::Unextractable {
            function_name,
            source,
            description,
        },
    }
}

/// The optional archive path as an owned value.
pub open spec fn opt_str_view(source: Option<&str>) -> Option<Seq<char>> {
    match source {
        Some(s) => Some(s@),
        None => None,
    }
}

fn owned_source(source: Option<&str>) -> (r: Option<String>)
    ensures
        source_view(r) == opt_str_view(source),
{
    match source {
        Some(s) => Some(s.to_string()),
        None => None,
    }
}

/// Turns a decoding failure into the error reported by `function_name` for
/// the archive at `source` (`None`: loaded from memory) in `format`: each
/// size limit, allocation failure, invalid archive and unsafe entry gets its
/// own error, and every other failure keeps the decoder's description.
pub fn failure_error(
    failure: ArchiveFailure,
    function_name: &'static str,
    source: Option<&str>,
    format: Format,
) -> (e: ExtractError)
    ensures
        e@ == spec_failure_error(failure@, function_name@, opt_str_view(source), format),
{
    let source = owned_source(source);
    match failure {
        ArchiveFailure::FileTooLarge { size, limit } => ExtractError::FileTooLarge {
            function_name,
            source,
            size,
            limit,
        },
        ArchiveFailure::TotalSizeTooLarge { size, limit } => ExtractError::TotalSizeTooLarge {
            function_name,
            size,
            limit,
        },
        ArchiveFailure::AllocationFailed { size, reason } => ExtractError::OutOfMemory {
            function_name,
            source,
            size,
            reason,
        },
        ArchiveFailure::InvalidArchive { reason } => ExtractError::InvalidArchive {
            function_name,
            source,
            format_name: format_name(format),
            reason,
        },
        ArchiveFailure::UnsafePath { path } => ExtractError::UnsafeArchive {
            function_name,
            source,
            path,
        },
        ArchiveFailure::Other { description } => ExtractError::Unextractable {
            function_name,
            source,
            description,
        },
    }
}

} // verus!
