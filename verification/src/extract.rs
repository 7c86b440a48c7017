use vstd::prelude::*;
use archive::ArchiveExtractor;
use crate::entry::{Entry, EntryV, entry_views};
use crate::error::{
    ArchiveFailure, ArchiveFailureV, ExtractError, ExtractErrorV, archive_failure, opt_str_view, spec_failure_error,
    failure_error,
};
use crate::format::{Format, spec_is_single_file, to_archive_format};
use crate::options::ArchiveOptions;
use crate::path_safety::{path_is_relative, path_is_safe};
use crate::plan::{
    Action, ActionV, Refusal, RefusalV, TargetV, action_views, mode_actions, mtime_actions,
    plan_entries, spec_entries_done, spec_entries_plan,
};

verus! {

/// What holds of every entry that the decoder hands out: its path (and a
/// hard link's target) is safe to join onto the extraction directory, a
/// symbolic link's target is a relative path, and a file holds no more than
/// `max_file_size` bytes.
pub open spec fn decoded_entry_ok(e: EntryV, max_file_size: usize) -> bool {
    &&& path_is_safe(e.path())
    &&& match e {
        EntryV::File { data, .. } => data.len() <= max_file_size,
        EntryV::HardLink { target, .. } => path_is_safe(target),
        EntryV::Symlink { target, .. } => path_is_relative(target),
        _ => true,
    }
}

/// The shape of a decoded single-file archive: exactly one file.
pub open spec fn decoded_shape_ok(entries: Seq<EntryV>, format: Format) -> bool {
    spec_is_single_file(format) ==> entries.len() == 1 && entries[0] is File
}

/// The number of bytes held by the file entries.
pub open spec fn file_bytes(entries: Seq<EntryV>) -> nat
    decreases entries.len(),
{
    if entries.len() == 0 {
        0
    } else {
        file_bytes(entries.drop_last()) + match entries.last() {
            EntryV::File { data, .. } => data.len(),
            _ => 0,
        }
    }
}

/// The decoder's bound on a whole archive: an archive of several entries
/// holds no more than `max_total_size` bytes of files (a single-file format
/// yields one entry, bounded by the per-file limit alone).
pub open spec fn decoded_total_ok(entries: Seq<EntryV>, max_total_size: usize) -> bool {
    entries.len() <= 1 || file_bytes(entries) <= max_total_size
}

/// The entries that `archive::ArchiveExtractor::extract` yields when it
/// decodes `data` in `format` with a per-file limit of `max_file_size` and a
/// total limit of `max_total_size` bytes and succeeds.
pub uninterp spec fn decoded_entries(
    data: Seq<u8>,
    format: Format,
    max_file_size: usize,
    max_total_size: usize,
) -> Seq<EntryV>;

/// The bound that `archive` puts on the decompressed stream of a `.tar.xz`
/// archive: the total limit with room for the tar headers
/// (`max_total_size` saturating-plus 64 MiB).
pub open spec fn tar_xz_stream_limit(max_total_size: usize) -> int {
    if max_total_size + 0x400_0000 <= usize::MAX {
        max_total_size + 0x400_0000
    } else {
        usize::MAX as int
    }
}

/// What holds of every failure that the decoder reports for an archive in
/// `format` read with a per-file limit of `max_file_size` and a total limit
/// of `max_total_size` bytes: a file too large is larger than the per-file
/// limit, which it reports; a total too large reaches the total limit it
/// reports, the total limit itself (or, for `.tar.xz`, the stream limit),
/// and never comes from a single-file format; a buffer that could not be
/// reserved is one within the per-file limit, reserved only for an archive
/// of several entries; and an archive is called invalid only by the
/// decoders that do so: for the tar formats other than `.tar.xz`, only for a
/// link without a target, and never for zip, ar, deb, gzip, bzip2, lz4 or
/// zstd.
pub open spec fn decoding_failure_ok(
    f: ArchiveFailureV,
    format: Format,
    max_file_size: usize,
    max_total_size: usize,
) -> bool {
    match f {
        ArchiveFailureV::FileTooLarge { size, limit } => limit == max_file_size && size > limit,
        ArchiveFailureV::TotalSizeTooLarge { size, limit } => {
            &&& !spec_is_single_file(format)
            &&& size >= limit
            &&& limit == max_total_size || (format == Format::TarXz && limit == tar_xz_stream_limit(
                max_total_size,
            ))
        },
        ArchiveFailureV::AllocationFailed { size, .. } => !spec_is_single_file(format) && size
            <= max_file_size,
        ArchiveFailureV::InvalidArchive { reason } => match format {
            Format::Tar | Format::TarGz | Format::TarBz2 | Format::TarZst | Format::TarLz4 =>
                "link without target: "@.is_prefix_of(reason),
            Format::TarXz | Format::SevenZ | Format::Xz => true,
            _ => false,
        },
        _ => true,
    }
}

/// Decodes `data` with `archive::ArchiveExtractor::extract`, limited to
/// `max_file_size` bytes per file and `max_total_size` bytes in all, and
/// converts each entry variant for variant (the decoder records no
/// permission bits or modification times). On success, every entry's path
/// has passed `archive::path_safety::validate_path` (as has a hard link's
/// target), a symbolic link's target has passed the relative-path check of
/// `archive::path_safety::validate_links`, each file was read with a bound
/// of `max_file_size` bytes, an archive of several entries was read with a
/// running bound of `max_total_size` bytes of file contents, and a
/// single-file format yields exactly one file entry.
/// The entries that come back are a function of the arguments alone (the
/// decoders read only `data`), named `decoded_entries`; what they are is
/// left to the decoders of each format. A failure is converted by
/// `archive_failure` and meets `decoding_failure_ok`, as the checks of
/// `ArchiveExtractor` that raise each error show. Whether decoding fails is
/// left unsaid: it also rests on whether memory can be reserved, which the
/// decoders of some formats report as an ordinary error.
#[verifier::external_body]
fn decode(data: &[u8], format: Format, max_file_size: usize, max_total_size: usize) -> (r: Result<
    Vec<Entry>,
    ArchiveFailure,
>)
    ensures
        r matches Err(f) ==> decoding_failure_ok(f@, format, max_file_size, max_total_size),
        r matches Ok(es) ==> entry_views(es@) == decoded_entries(
            data@,
            format,
            max_file_size,
            max_total_size,
        ),
        r matches Ok(es) ==> forall|i: int|
            0 <= i < es.len() ==> decoded_entry_ok(#[trigger] es@[i]@, max_file_size),
        r matches Ok(es) ==> decoded_total_ok(entry_views(es@), max_total_size),
        r matches Ok(es) ==> decoded_shape_ok(entry_views(es@), format),
{
    let extractor = ArchiveExtractor::new().with_max_file_size(max_file_size).with_max_total_size(max_total_size);
    let entries = extractor.extract(data, to_archive_format(format)).map_err(archive_failure)?;
    Ok(entries.into_iter().map(|e| match e {
        archive::ArchiveEntry::File { path, data } => Entry::File { path, data, mode: None, mtime: None },
        archive::ArchiveEntry::Directory { path } => Entry::Directory { path, mode: None, mtime: None },
        archive::ArchiveEntry::Symlink { path, target } => Entry::Symlink { path, target },
        archive::ArchiveEntry::HardLink { path, target } => Entry::HardLink { path, target },
    }).collect())
}

/// Reads the archive held in `bytes` (from the file at `path`, or from
/// memory when `path` is `None`) in `format`, within the size limits of
/// `options`. The decoder refuses every archive with a path that would leave
/// the extraction root, whatever `options` allow, and records no permission
/// bits or modification times: decoded entries carry none. Every entry returned has a safe path and a file within the
/// per-file limit, and an archive of several entries holds files within the
/// total limit; the entries are those that decoding yields
/// (`decoded_entries`); a decoding failure, which meets
/// `decoding_failure_ok`, is reported by `failure_error` for
/// `function_name`.
pub fn contents(
    bytes: Vec<u8>,
    path: Option<&str>,
    options: &ArchiveOptions,
    format: Format,
    function_name: &'static str,
) -> (r: Result<Vec<Entry>, ExtractError>)
    ensures
        r matches Ok(es) ==> forall|i: int|
            0 <= i < es.len() ==> decoded_entry_ok(#[trigger] es@[i]@, options.max_file_size),
        r matches Ok(es) ==> decoded_total_ok(entry_views(es@), options.max_total_size),
        r matches Ok(es) ==> decoded_shape_ok(entry_views(es@), format),
        r matches Ok(es) ==> entry_views(es@) == decoded_entries(
            bytes@,
            format,
            options.max_file_size,
            options.max_total_size,
        ),
        r matches Err(e) ==> exists|f: ArchiveFailureV|
            decoding_failure_ok(f, format, options.max_file_size, options.max_total_size) && e@
                == #[trigger] spec_failure_error(f, function_name@, opt_str_view(path), format),
{
    let decoded = decode(
        bytes.as_slice(),
        format,
        options.max_file_size,
        options.max_total_size,
    );
    decoded_contents(decoded, function_name, path, format)
}

/// The result of reading an archive, given what the decoder returned: the
/// decoded entries unchanged, or the decoding failure reported by
/// `failure_error` for `function_name` and the archive at `source` (or in
/// memory) in `format`.
pub open spec fn spec_decoded_contents(
    decoded: Result<Seq<EntryV>, ArchiveFailureV>,
    function_name: Seq<char>,
    source: Option<Seq<char>>,
    format: Format,
) -> Result<Seq<EntryV>, ExtractErrorV> {
    match decoded {
        Ok(es) => Ok(es),
        Err(f) => Err(spec_failure_error(f, function_name, source, format)),
    }
}

/// The models of a decoder's result.
pub open spec fn decoded_view(decoded: Result<Vec<Entry>, ArchiveFailure>) -> Result<
    Seq<EntryV>,
    ArchiveFailureV,
> {
    match decoded {
        Ok(es) => Ok(entry_views(es@)),
        Err(f) => Err(f@),
    }
}

/// Hands on what the decoder returned when reading an archive: the entries
/// themselves on success, a failure turned into the error of
/// `function_name` (`failure_error`).
pub fn decoded_contents(
    decoded: Result<Vec<Entry>, ArchiveFailure>,
    function_name: &'static str,
    source: Option<&str>,
    format: Format,
) -> (r: Result<Vec<Entry>, ExtractError>)
    ensures
        decoded matches Ok(es) ==> r == Ok::<Vec<Entry>, ExtractError>(es),
        decoded matches Err(f) ==> r is Err && r->Err_0@ == spec_failure_error(
            f@,
            function_name@,
            opt_str_view(source),
            format,
        ),
{
    match decoded {
        Ok(entries) => Ok(entries),
        Err(failure) => Err(failure_error(failure, function_name, source, format)),
    }
}

/// How a single-file archive's entry `e` (at index `i`) is written: a file
/// goes to the destination itself, with its permission bits and modification
/// time; other entries are not written.
pub open spec fn single_file_actions(e: EntryV, i: int) -> Seq<ActionV> {
    match e {
        EntryV::File { mode, mtime, .. } => seq![
            ActionV::WriteFile { target: TargetV::Destination, entry: i },
        ] + mode_actions(TargetV::Destination, mode) + mtime_actions(TargetV::Destination, mtime),
        _ => seq![],
    }
}

/// The error that writing an archive reports for a refused entry.
pub open spec fn write_refusal_error(refusal: RefusalV, function_name: Seq<char>) -> ExtractErrorV {
    match refusal {
        RefusalV::Traversal { path } => ExtractErrorV::UnsafePath { function_name, path },
        RefusalV::Symlink { path, target } => ExtractErrorV::SymlinkRefused {
            function_name,
            path,
            target,
        },
    }
}

/// The plan for writing `entries` to the destination. For a single-file
/// format the first entry must be a file, written to the destination itself;
/// otherwise every entry is written under the destination directory
/// (`spec_entries_plan`), and a refused entry is reported.
pub open spec fn spec_write_plan(
    entries: Seq<EntryV>,
    options: ArchiveOptions,
    format: Option<Format>,
    function_name: Seq<char>,
) -> Result<Seq<ActionV>, ExtractErrorV> {
    if format is Some && spec_is_single_file(format.unwrap()) {
        if entries.len() > 0 && entries[0] is File {
            Ok(single_file_actions(entries[0], 0))
        } else {
            Err(ExtractErrorV::EmptySingleFile { function_name })
        }
    } else {
        match spec_entries_plan(entries, options) {
            Ok(plan) => Ok(plan),
            Err(r) => Err(write_refusal_error(r, function_name)),
        }
    }
}

/// The actions for the single-file entries among the first `n`.
pub open spec fn single_scan(entries: Seq<EntryV>, n: int) -> Seq<ActionV>
    decreases n,
{
    if n <= 0 {
        seq![]
    } else {
        single_scan(entries, n - 1) + single_file_actions(entries[n - 1], n - 1)
    }
}

/// The plan for extracting a decoded archive straight to the destination:
/// for a single-file format each file is written to the destination itself;
/// otherwise every entry is written under the destination directory
/// (`spec_entries_plan`), and a refused entry stops the extraction of the
/// archive at `source`.
pub open spec fn spec_stream_plan(
    entries: Seq<EntryV>,
    options: ArchiveOptions,
    format: Format,
    function_name: Seq<char>,
    source: Option<Seq<char>>,
) -> Result<Seq<ActionV>, ExtractErrorV> {
    if spec_is_single_file(format) {
        Ok(single_scan(entries, entries.len() as int))
    } else {
        match spec_entries_plan(entries, options) {
            Ok(plan) => Ok(plan),
            Err(r) => Err(ExtractErrorV::StreamRefused { function_name, source, refusal: r }),
        }
    }
}

fn single_file_step(e: &Entry, i: usize) -> (r: Vec<Action>)
    ensures
        action_views(r@) == single_file_actions(e@, i as int),
{
    let mut r: Vec<Action> = Vec::new();
    match e {
        Entry::File { mode, mtime, .. } => {
            r.push(Action::WriteFile { target: crate::plan::Target::Destination, entry: i });
            if let Some(m) = mode {
                r.push(Action::SetMode { target: crate::plan::Target::Destination, mode: *m });
            }
            if let Some(t) = mtime {
                r.push(Action::SetMtime { target: crate::plan::Target::Destination, mtime: *t });
            }
        },
        _ => {},
    }
    assert(action_views(r@) =~= single_file_actions(e@, i as int));
    r
}

/// A plan that fails: the actions carried out before the failure, then the
/// error.
#[derive(Debug, PartialEq, Eq)]
pub struct Failure {
    /// What is carried out before failing.
    pub done: Vec<Action>,
    /// The error reported.
    pub error: ExtractError,
}

/// What writing `entries` carries out before it fails: nothing for a
/// single-file format, else the in-order actions of the entries before the
/// refused one (`spec_entries_done`).
pub open spec fn spec_write_done(
    entries: Seq<EntryV>,
    options: ArchiveOptions,
    format: Option<Format>,
) -> Seq<ActionV> {
    if format is Some && spec_is_single_file(format.unwrap()) {
        seq![]
    } else {
        spec_entries_done(entries, options)
    }
}

fn write_refusal(refusal: Refusal, function_name: &'static str) -> (e: ExtractError)
    ensures
        e@ == write_refusal_error(refusal@, function_name@),
{
    match refusal {
        Refusal::Traversal { path } => ExtractError::UnsafePath { function_name, path },
        Refusal::Symlink { path, target } => ExtractError::SymlinkRefused {
            function_name,
            path,
            target,
        },
    }
}

/// Plans writing `entries` (of an archive in `format`, if known) to the
/// destination for `function_name`, as `spec_write_plan` states; a failing
/// plan carries what is written before the failure (`spec_write_done`).
pub fn write_to_disk_plan(
    entries: &[Entry],
    options: &ArchiveOptions,
    format: Option<Format>,
    function_name: &'static str,
) -> (r: Result<Vec<Action>, Failure>)
    ensures
        match spec_write_plan(entry_views(entries@), *options, format, function_name@) {
            Ok(plan) => r is Ok && action_views(r->Ok_0@) == plan,
            Err(e) => r is Err && r->Err_0.error@ == e && action_views(r->Err_0.done@)
                == spec_write_done(entry_views(entries@), *options, format),
        },
{
    let ghost ev = entry_views(entries@);
    if let Some(f) = format {
        if f.is_single_file() {
            if entries.len() > 0 {
                assert(ev[0] == entries@[0]@);
                if let Entry::File { .. } = &entries[0] {
                    return Ok(single_file_step(&entries[0], 0));
                }
            }
            let done: Vec<Action> = Vec::new();
            assert(action_views(done@) =~= Seq::<ActionV>::empty());
            return Err(Failure { done, error: ExtractError::EmptySingleFile { function_name } });
        }
    }
    match plan_entries(entries, options) {
        Ok(plan) => Ok(plan),
        Err(refused) => Err(
            Failure { done: refused.done, error: write_refusal(refused.refusal, function_name) },
        ),
    }
}

/// Plans extracting the decoded `entries` of an archive in `format`, read
/// from `source` (or from memory), straight to the destination, as
/// `spec_stream_plan` states; a refused archive carries what is written
/// before the refused entry (`spec_entries_done`).
pub fn stream_plan(
    entries: &[Entry],
    options: &ArchiveOptions,
    format: Format,
    function_name: &'static str,
    source: Option<&str>,
) -> (r: Result<Vec<Action>, Failure>)
    ensures
        match spec_stream_plan(
            entry_views(entries@),
            *options,
            format,
            function_name@,
            opt_str_view(source),
        ) {
            Ok(plan) => r is Ok && action_views(r->Ok_0@) == plan,
            Err(e) => r is Err && r->Err_0.error@ == e && action_views(r->Err_0.done@)
                == spec_entries_done(entry_views(entries@), *options),
        },
{
    let ghost ev = entry_views(entries@);
    if format.is_single_file() {
        let mut plan: Vec<Action> = Vec::new();
        let n = entries.len();
        assert(action_views(plan@) =~= Seq::<ActionV>::empty());
        for i in 0..n
            invariant
                n == entries@.len(),
                ev == entry_views(entries@),
                action_views(plan@) == single_scan(ev, i as int),
        {
            assert(ev[i as int] == entries@[i as int]@);
            let mut step = single_file_step(&entries[i], i);
            let ghost a = plan@;
            let ghost b = step@;
            plan.append(&mut step);
            assert(action_views(a + b) =~= action_views(a) + action_views(b));
        }
        return Ok(plan);
    }
    match plan_entries(entries, options) {
        Ok(plan) => Ok(plan),
        Err(refused) => Err(
            Failure {
                done: refused.done,
                error: ExtractError::StreamRefused {
                    function_name,
                    source: match source {
                        Some(s) => Some(s.to_string()),
                        None => None,
                    },
                    refusal: refused.refusal,
                },
            },
        ),
    }
}

/// The result of extracting an archive straight to disk, given what the
/// decoder returned: for decoded entries, those entries and their plan
/// (`spec_stream_plan`), carrying what is written before a refused entry
/// (`spec_entries_done`); for a decoding failure, no entries, nothing
/// written and the error of `failure_error`.
pub open spec fn spec_stream_decoded(
    decoded: Result<Seq<EntryV>, ArchiveFailureV>,
    options: ArchiveOptions,
    format: Format,
    function_name: Seq<char>,
    source: Option<Seq<char>>,
) -> (Seq<EntryV>, Result<Seq<ActionV>, (Seq<ActionV>, ExtractErrorV)>) {
    match decoded {
        Ok(es) => (
            es,
            match spec_stream_plan(es, options, format, function_name, source) {
                Ok(plan) => Ok(plan),
                Err(e) => Err((spec_entries_done(es, options), e)),
            },
        ),
        Err(f) => (seq![], Err((seq![], spec_failure_error(f, function_name, source, format)))),
    }
}

/// The model of the result of extracting straight to disk.
pub open spec fn stream_outcome_view(outcome: (Vec<Entry>, Result<Vec<Action>, Failure>)) -> (
    Seq<EntryV>,
    Result<Seq<ActionV>, (Seq<ActionV>, ExtractErrorV)>,
) {
    (
        entry_views(outcome.0@),
        match outcome.1 {
            Ok(plan) => Ok(action_views(plan@)),
            Err(fl) => Err((action_views(fl.done@), fl.error@)),
        },
    )
}

/// Plans extracting an archive straight to disk from what the decoder
/// returned, as `spec_stream_decoded` states.
pub fn stream_decoded(
    decoded: Result<Vec<Entry>, ArchiveFailure>,
    options: &ArchiveOptions,
    format: Format,
    function_name: &'static str,
    source: Option<&str>,
) -> (r: (Vec<Entry>, Result<Vec<Action>, Failure>))
    ensures
        stream_outcome_view(r) == spec_stream_decoded(
            decoded_view(decoded),
            *options,
            format,
            function_name@,
            opt_str_view(source),
        ),
{
    match decoded {
        Ok(entries) => {
            let plan = stream_plan(entries.as_slice(), options, format, function_name, source);
            (entries, plan)
        },
        Err(failure) => {
            let entries: Vec<Entry> = Vec::new();
            let done: Vec<Action> = Vec::new();
            assert(entry_views(entries@) =~= Seq::<EntryV>::empty());
            assert(action_views(done@) =~= Seq::<ActionV>::empty());
            (entries, Err(Failure { done, error: failure_error(failure, function_name, source, format) }))
        },
    }
}

/// Reads the archive held in `contents` (from the file at `path`, or from
/// memory) and plans extracting it straight to the destination. The whole
/// archive is decoded into memory first (within the size limits of
/// `options`) and only then planned; as with `contents`, an archive with a
/// traversing path is refused by the decoder whatever `options` allow, and
/// no permission bits or modification times are set for decoded entries.
/// Returns the decoded entries, whose files the plan's writes refer to by
/// index, with their plan (`stream_decoded`); after a decoding failure
/// (one that meets `decoding_failure_ok`), no entries and the error of
/// `failure_error`.
pub fn stream_to_disk_plan(
    contents: &[u8],
    path: Option<&str>,
    options: &ArchiveOptions,
    format: Format,
    function_name: &'static str,
) -> (r: (Vec<Entry>, Result<Vec<Action>, Failure>))
    ensures
        ({
            let ev = entry_views(r.0@);
            ||| {
                &&& forall|i: int|
                    0 <= i < ev.len() ==> decoded_entry_ok(#[trigger] ev[i], options.max_file_size)
                &&& decoded_total_ok(ev, options.max_total_size)
                &&& decoded_shape_ok(ev, format)
                &&& ev == decoded_entries(
                    contents@,
                    format,
                    options.max_file_size,
                    options.max_total_size,
                )
                &&& stream_outcome_view(r) == spec_stream_decoded(
                    Ok(ev),
                    *options,
                    format,
                    function_name@,
                    opt_str_view(path),
                )
            }
            ||| exists|f: ArchiveFailureV|
                decoding_failure_ok(f, format, options.max_file_size, options.max_total_size)
                    && stream_outcome_view(r) == #[trigger] spec_stream_decoded(
                    Err(f),
                    *options,
                    format,
                    function_name@,
                    opt_str_view(path),
                )
        }),
{
    let decoded = decode(
        contents,
        format,
        options.max_file_size,
        options.max_total_size,
    );
    let outcome = match decoded {
        Ok(entries) => {
            let ghost ev = entry_views(entries@);
            assert forall|i: int| 0 <= i < ev.len() implies decoded_entry_ok(
                #[trigger] ev[i],
                options.max_file_size,
            ) by {
                assert(ev[i] == entries@[i]@);
            }
            Ok(entries)
        },
        Err(failure) => Err(failure),
    };
    let ghost dv = decoded_view(outcome);
    let r = stream_decoded(outcome, options, format, function_name, path);
    proof {
        if dv is Err {
            assert(stream_outcome_view(r) == spec_stream_decoded(
                Err(dv->Err_0),
                *options,
                format,
                function_name@,
                opt_str_view(path),
            ));
        }
    }
    r
}

} // verus!
