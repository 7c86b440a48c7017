use vstd::prelude::*;
use crate::error::{ExtractError, ExtractErrorV};
use crate::plan::{Refusal, RefusalV};

verus! {

/// The advice appended to every report of a path that would leave the
/// extraction directory.
pub open spec fn unsafe_path_notes() -> Seq<char> {
    "\nThis could mean the archive:\n  1. Is malicious (path/symlink traversal attack)\n  2. Was accidentally generated from the wrong directory\n  3. Is not meant to be extracted to disk\n \nIf you trust this archive, pass ArchiveOptions.allow_unsafe_path_traversals = true\nto read, write, or extract it.\n"@
}

fn notes_text() -> (s: &'static str)
    ensures
        s@ == unsafe_path_notes(),
{
    "\nThis could mean the archive:\n  1. Is malicious (path/symlink traversal attack)\n  2. Was accidentally generated from the wrong directory\n  3. Is not meant to be extracted to disk\n \nIf you trust this archive, pass ArchiveOptions.allow_unsafe_path_traversals = true\nto read, write, or extract it.\n"
}

/// Where the archive came from: `at '<path>'`, or `loaded from memory`.
pub open spec fn source_display(source: Option<Seq<char>>) -> Seq<char> {
    match source {
        Some(p) => "at '"@ + p + "'"@,
        None => "loaded from memory"@,
    }
}

fn display_text(source: &Option<String>) -> (s: String)
    ensures
        s@ == source_display(crate::error::source_view(*source)),
{
    match source {
        Some(p) => String::from_str("at '").concat(p.as_str()).concat("'"),
        None => String::from_str("loaded from memory"),
    }
}

/// The decimal digit for `d` (below ten).
pub open spec fn digit_char(d: nat) -> char {
    if d == 0 {
        '0'
    } else if d == 1 {
        '1'
    } else if d == 2 {
        '2'
    } else if d == 3 {
        '3'
    } else if d == 4 {
        '4'
    } else if d == 5 {
        '5'
    } else if d == 6 {
        '6'
    } else if d == 7 {
        '7'
    } else if d == 8 {
        '8'
    } else {
        '9'
    }
}

/// The decimal notation of `n`, without leading zeros.
pub open spec fn decimal(n: nat) -> Seq<char>
    decreases n,
{
    if n < 10 {
        seq![digit_char(n)]
    } else {
        decimal(n / 10) + seq![digit_char(n % 10)]
    }
}

fn digit_text(d: usize) -> (s: &'static str)
    requires
        d < 10,
    ensures
        s@ == seq![digit_char(d as nat)],
{
    proof {
        reveal_strlit("0");
        reveal_strlit("1");
        reveal_strlit("2");
        reveal_strlit("3");
        reveal_strlit("4");
        reveal_strlit("5");
        reveal_strlit("6");
        reveal_strlit("7");
        reveal_strlit("8");
        reveal_strlit("9");
    }
    let s = if d == 0 {
        "0"
    } else if d == 1 {
        "1"
    } else if d == 2 {
        "2"
    } else if d == 3 {
        "3"
    } else if d == 4 {
        "4"
    } else if d == 5 {
        "5"
    } else if d == 6 {
        "6"
    } else if d == 7 {
        "7"
    } else if d == 8 {
        "8"
    } else {
        "9"
    };
    assert(s@ =~= seq![digit_char(d as nat)]);
    s
}

/// Writes `n` in decimal.
pub fn decimal_text(n: usize) -> (s: String)
    ensures
        s@ == decimal(n as nat),
    decreases n,
{
    if n < 10 {
        String::from_str(digit_text(n))
    } else {
        decimal_text(n / 10).concat(digit_text(n % 10))
    }
}

/// A size in bytes, as shown in messages.
pub open spec fn size_text(n: nat) -> Seq<char> {
    decimal(n) + " bytes"@
}

fn size_string(n: usize) -> (s: String)
    ensures
        s@ == size_text(n as nat),
{
    decimal_text(n).concat(" bytes")
}

/// The report of an entry path that would leave the extraction directory.
pub open spec fn traversal_text(path: Seq<char>) -> Seq<char> {
    "Path/Symlink Traversal:\n \nArchive contains a path that, once extracted, will traverse outside the extraction directory:\nTraversing path: '"@
        + path + "'\n \n"@ + unsafe_path_notes()
}

fn traversal_string(path: &str) -> (s: String)
    ensures
        s@ == traversal_text(path@),
{
    String::from_str(
        "Path/Symlink Traversal:\n \nArchive contains a path that, once extracted, will traverse outside the extraction directory:\nTraversing path: '",
    ).concat(path).concat("'\n \n").concat(notes_text())
}

/// What a refused entry is reported as while extracting straight to disk.
pub open spec fn refusal_text(refusal: RefusalV) -> Seq<char> {
    match refusal {
        RefusalV::Traversal { path } => traversal_text(path),
        RefusalV::Symlink { path, target } => "archive has internal symlink from "@ + path
            + " -> "@ + target
            + "; this is unusual...\n  pass options.allow_symlinks = true to extract symlinks"@,
    }
}

fn refusal_string(refusal: &Refusal) -> (s: String)
    ensures
        s@ == refusal_text(refusal@),
{
    match refusal {
        Refusal::Traversal { path } => traversal_string(path.as_str()),
        Refusal::Symlink { path, target } => String::from_str(
            "archive has internal symlink from ",
        ).concat(path.as_str()).concat(" -> ").concat(target.as_str()).concat(
            "; this is unusual...\n  pass options.allow_symlinks = true to extract symlinks",
        ),
    }
}

/// The text of each error, starting with the name of the function that
/// failed.
pub open spec fn spec_message(e: ExtractErrorV) -> Seq<char> {
    match e {
        ExtractErrorV::FileTooLarge { function_name, source, size, limit } => function_name
            + ": a file in the archive "@ + source_display(source) + " (size "@ + size_text(
            size as nat,
        ) + ") exceeds max_file_size ("@ + size_text(limit as nat)
            + "); see options to change defaults"@,
        ExtractErrorV::TotalSizeTooLarge { function_name, size, limit } => function_name
            + ": archive (size "@ + size_text(size as nat) + ") exceeds max_total_size ("@
            + size_text(limit as nat) + "); see options to change defaults"@,
        ExtractErrorV::OutOfMemory { function_name, source, size, reason } => function_name
            + ": you don't have enough memory to extract archive "@ + source_display(source)
            + "\n   (failed to reserve "@ + size_text(size as nat) + " due to err: "@ + reason
            + ")"@,
        ExtractErrorV::InvalidArchive { function_name, source, format_name, reason } =>
            function_name + ": archive "@ + source_display(source)
            + " is invalid or not of format "@ + format_name + ": "@ + reason,
        ExtractErrorV::UnsafeArchive { function_name, source, path } => function_name
            + ": Path/Symlink Traversal: archive "@ + source_display(source)
            + "\n \nArchive contains a path that, once extracted, will traverse outside the extraction directory:\nTraversing path: '"@
            + path + "'\n \n"@ + unsafe_path_notes(),
        ExtractErrorV::Unextractable { function_name, source, description } => function_name
            + ": unable to extract archive at '"@ + source_display(source) + "' due to err: "@
            + description,
        ExtractErrorV::EmptySingleFile { function_name } => function_name
            + ": single file entry is empty"@,
        ExtractErrorV::UnsafePath { function_name, path } => function_name + ": "@
            + traversal_text(path),
        ExtractErrorV::SymlinkRefused { function_name, path, target } => function_name
            + ": archive has internal symlink from "@ + path + " -> "@ + target
            + "; this is unusual...\n  pass options.symlinks_allowed = true to extract symlinks"@,
        ExtractErrorV::StreamRefused { function_name, source, refusal } => function_name
            + ": unable to extract archive at '"@ + source_display(source)
            + "' due to err: IO error: "@ + refusal_text(refusal),
    }
}

impl ExtractError {
    /// The message shown for the error.
    pub fn message(&self) -> (m: String)
        ensures
            m@ == spec_message(self@),
    {
        match self {
            ExtractError::FileTooLarge { function_name, source, size, limit } => String::from_str(
                function_name,
            ).concat(": a file in the archive ").concat(display_text(source).as_str()).concat(
                " (size ",
            ).concat(size_string(*size).as_str()).concat(") exceeds max_file_size (").concat(
                size_string(*limit).as_str(),
            ).concat("); see options to change defaults"),
            ExtractError::TotalSizeTooLarge { function_name, size, limit } => String::from_str(
                function_name,
            ).concat(": archive (size ").concat(size_string(*size).as_str()).concat(
                ") exceeds max_total_size (",
            ).concat(size_string(*limit).as_str()).concat("); see options to change defaults"),
            ExtractError::OutOfMemory { function_name, source, size, reason } => String::from_str(
                function_name,
            ).concat(": you don't have enough memory to extract archive ").concat(
                display_text(source).as_str(),
            ).concat("\n   (failed to reserve ").concat(size_string(*size).as_str()).concat(
                " due to err: ",
            ).concat(reason.as_str()).concat(")"),
            ExtractError::InvalidArchive { function_name, source, format_name, reason } =>
                String::from_str(function_name).concat(": archive ").concat(
                display_text(source).as_str(),
            ).concat(" is invalid or not of format ").concat(format_name).concat(": ").concat(
                reason.as_str(),
            ),
            ExtractError::UnsafeArchive { function_name, source, path } => String::from_str(
                function_name,
            ).concat(": Path/Symlink Traversal: archive ").concat(display_text(source).as_str()).concat(
                "\n \nArchive contains a path that, once extracted, will traverse outside the extraction directory:\nTraversing path: '",
            ).concat(path.as_str()).concat("'\n \n").concat(notes_text()),
            ExtractError::Unextractable { function_name, source, description } =>
                String::from_str(function_name).concat(": unable to extract archive at '").concat(
                display_text(source).as_str(),
            ).concat("' due to err: ").concat(description.as_str()),
            ExtractError::EmptySingleFile { function_name } => String::from_str(
                function_name,
            ).concat(": single file entry is empty"),
            ExtractError::UnsafePath { function_name, path } => String::from_str(
                function_name,
            ).concat(": ").concat(traversal_string(path.as_str()).as_str()),
            ExtractError::SymlinkRefused { function_name, path, target } => String::from_str(
                function_name,
            ).concat(": archive has internal symlink from ").concat(path.as_str()).concat(
                " -> ",
            ).concat(target.as_str()).concat(
                "; this is unusual...\n  pass options.symlinks_allowed = true to extract symlinks",
            ),
            ExtractError::StreamRefused { function_name, source, refusal } => String::from_str(
                function_name,
            ).concat(": unable to extract archive at '").concat(display_text(source).as_str()).concat(
                "' due to err: IO error: ",
            ).concat(refusal_string(refusal).as_str()),
        }
    }
}

} // verus!
