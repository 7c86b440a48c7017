use vstd::prelude::*;
use crate::entry::EntryV;
use crate::options::ArchiveOptions;
use crate::path_safety::path_is_safe;
use crate::extract::{
    decoded_entry_ok, decoded_shape_ok, single_file_actions, spec_decoded_contents,
    spec_stream_decoded, single_scan, spec_stream_plan, spec_write_plan,
};
use crate::error::{ArchiveFailureV, ExtractErrorV};
use crate::format::{Format, spec_is_single_file};
use crate::message::spec_message;
use crate::plan::{
    ActionV, RefusalV, TargetV, done_before_refusal, entry_deferred_actions, entry_link_actions, entry_main_actions,
    entry_refusal, entry_warnings, mode_actions, mtime_actions, scan, spec_entries_done, spec_entries_plan, lemma_scan_err_persists,
};

verus! {

/// The action creates a link (symbolic or hard).
pub open spec fn is_link_action(a: ActionV) -> bool {
    a is CreateSymlink || a is CreateHardLink
}

/// The target is the destination itself or a safe path under it.
pub open spec fn target_stays_inside(t: TargetV) -> bool {
    match t {
        TargetV::Destination => true,
        TargetV::Inside(p) => path_is_safe(p),
    }
}

/// Every path that the action writes to, or links to, stays inside the
/// destination.
pub open spec fn action_stays_inside(a: ActionV) -> bool {
    match a {
        ActionV::Warn { .. } => true,
        ActionV::CreateDirAll { target } => target_stays_inside(target),
        ActionV::CreateParentDir { target } => target_stays_inside(target),
        ActionV::WriteFile { target, .. } => target_stays_inside(target),
        ActionV::SetMode { target, .. } => target_stays_inside(target),
        ActionV::SetMtime { target, .. } => target_stays_inside(target),
        ActionV::CreateSymlink { target, .. } => target_stays_inside(target),
        ActionV::CreateHardLink { target, existing } => target_stays_inside(target)
            && target_stays_inside(existing),
    }
}

/// The plan parts `m` (in-order actions), `l` (links) and `d` (directory
/// times) hold what entry `e` at index `i` asks for: a file is written from
/// its own entry and gets its permission bits and its modification time, each
/// where the entry has it; a directory is created and gets its permission
/// bits, and its modification time among the directory times; a link is
/// created among the links.
pub open spec fn entry_covered(
    e: EntryV,
    i: int,
    m: Seq<ActionV>,
    l: Seq<ActionV>,
    d: Seq<ActionV>,
) -> bool {
    match e {
        EntryV::File { path, mode, mtime, .. } => {
            &&& m.contains(ActionV::WriteFile { target: TargetV::Inside(path), entry: i })
            &&& mode is Some ==> m.contains(
                ActionV::SetMode { target: TargetV::Inside(path), mode: mode.unwrap() },
            )
            &&& mtime is Some ==> m.contains(
                ActionV::SetMtime { target: TargetV::Inside(path), mtime: mtime.unwrap() },
            )
        },
        EntryV::Directory { path, mode, mtime } => {
            &&& m.contains(ActionV::CreateDirAll { target: TargetV::Inside(path) })
            &&& mode is Some ==> m.contains(
                ActionV::SetMode { target: TargetV::Inside(path), mode: mode.unwrap() },
            )
            &&& mtime is Some ==> d.contains(
                ActionV::SetMtime { target: TargetV::Inside(path), mtime: mtime.unwrap() },
            )
        },
        EntryV::Symlink { path, target } => l.contains(
            ActionV::CreateSymlink { target: TargetV::Inside(path), points_to: target },
        ),
        EntryV::HardLink { path, target } => l.contains(
            ActionV::CreateHardLink {
                target: TargetV::Inside(path),
                existing: TargetV::Inside(target),
            },
        ),
    }
}

/// What a sequence holds, a longer sequence that begins or ends with it
/// holds too.
proof fn lemma_contains_concat(s: Seq<ActionV>, t: Seq<ActionV>)
    ensures
        forall|a: ActionV| #[trigger] s.contains(a) ==> (s + t).contains(a) && (t + s).contains(a),
{
    assert forall|a: ActionV| #[trigger] s.contains(a) implies (s + t).contains(a) && (t
        + s).contains(a) by {
        let j = choose|j: int| 0 <= j < s.len() && s[j] == a;
        assert((s + t)[j] == a);
        assert((t + s)[t.len() + j] == a);
    }
}

proof fn lemma_covered_extend(
    e: EntryV,
    i: int,
    m: Seq<ActionV>,
    l: Seq<ActionV>,
    d: Seq<ActionV>,
    x: Seq<ActionV>,
    y: Seq<ActionV>,
    z: Seq<ActionV>,
)
    requires
        entry_covered(e, i, m, l, d),
    ensures
        entry_covered(e, i, m + x, l + y, d + z),
{
    lemma_contains_concat(m, x);
    lemma_contains_concat(l, y);
    lemma_contains_concat(d, z);
}

proof fn lemma_covered_prepend(
    e: EntryV,
    i: int,
    m: Seq<ActionV>,
    l: Seq<ActionV>,
    d: Seq<ActionV>,
    p: Seq<ActionV>,
    q: Seq<ActionV>,
    r: Seq<ActionV>,
)
    requires
        entry_covered(e, i, m, l, d),
    ensures
        entry_covered(e, i, p + m, q + l, r + d),
{
    lemma_contains_concat(m, p);
    lemma_contains_concat(l, q);
    lemma_contains_concat(d, r);
}

proof fn lemma_entry_parts(e: EntryV, i: int, options: ArchiveOptions)
    requires
        entry_refusal(e, options) is None,
    ensures
        forall|j: int|
            0 <= j < entry_main_actions(e, i).len() ==> !is_link_action(
                #[trigger] entry_main_actions(e, i)[j],
            ),
        forall|j: int|
            0 <= j < entry_link_actions(e).len() ==> is_link_action(
                #[trigger] entry_link_actions(e)[j],
            ),
        forall|j: int|
            0 <= j < entry_deferred_actions(e).len() ==> (#[trigger] entry_deferred_actions(
                e,
            )[j]) is SetMtime,
        !options.allow_unsafe_path_traversals ==> {
            &&& forall|j: int|
                0 <= j < entry_main_actions(e, i).len() ==> action_stays_inside(
                    #[trigger] entry_main_actions(e, i)[j],
                ) && !(entry_main_actions(e, i)[j] is Warn)
            &&& forall|j: int|
                0 <= j < entry_link_actions(e).len() ==> action_stays_inside(
                    #[trigger] entry_link_actions(e)[j],
                )
            &&& forall|j: int|
                0 <= j < entry_deferred_actions(e).len() ==> action_stays_inside(
                    #[trigger] entry_deferred_actions(e)[j],
                )
        },
        !options.allow_symlinks ==> entry_link_actions(e).len() == 0 || !(
        entry_link_actions(e)[0] is CreateSymlink),
        entry_link_actions(e).len() <= 1,
        entry_covered(
            e,
            i,
            entry_main_actions(e, i),
            entry_link_actions(e),
            entry_deferred_actions(e),
        ),
{
    let w = entry_warnings(e);
    let m = entry_main_actions(e, i);
    match e {
        EntryV::File { path, mode, mtime, .. } => {
            let t = TargetV::Inside(path);
            assert(m =~= w + (seq![
                ActionV::CreateParentDir { target: t },
                ActionV::WriteFile { target: t, entry: i },
            ] + mode_actions(t, mode) + mtime_actions(t, mtime)));
            assert(m[w.len() + 1int] == ActionV::WriteFile { target: t, entry: i });
            if mode is Some {
                assert(m[w.len() + 2int] == ActionV::SetMode { target: t, mode: mode.unwrap() });
            }
            if mtime is Some {
                let k = (w.len() + 2 + mode_actions(t, mode).len()) as int;
                assert(m[k] == ActionV::SetMtime { target: t, mtime: mtime.unwrap() });
            }
        },
        EntryV::Directory { path, mode, mtime } => {
            let t = TargetV::Inside(path);
            assert(m =~= w + (seq![ActionV::CreateDirAll { target: t }] + mode_actions(t, mode)));
            assert(m[w.len() as int] == ActionV::CreateDirAll { target: t });
            if mode is Some {
                assert(m[w.len() + 1int] == ActionV::SetMode { target: t, mode: mode.unwrap() });
            }
            if mtime is Some {
                assert(entry_deferred_actions(e)[0] == ActionV::SetMtime {
                    target: t,
                    mtime: mtime.unwrap(),
                });
            }
        },
        EntryV::Symlink { path, target } => {
            assert(entry_link_actions(e)[0] == ActionV::CreateSymlink {
                target: TargetV::Inside(path),
                points_to: target,
            });
        },
        EntryV::HardLink { path, target } => {
            assert(entry_link_actions(e)[0] == ActionV::CreateHardLink {
                target: TargetV::Inside(path),
                existing: TargetV::Inside(target),
            });
        },
    }
}

/// What holds of the parts of a successful scan of the first `n` entries.
pub open spec fn scan_parts_ok(
    entries: Seq<EntryV>,
    n: int,
    options: ArchiveOptions,
    m: Seq<ActionV>,
    l: Seq<ActionV>,
    d: Seq<ActionV>,
) -> bool {
    &&& forall|j: int| 0 <= j < m.len() ==> !is_link_action(#[trigger] m[j])
    &&& forall|j: int| 0 <= j < l.len() ==> is_link_action(#[trigger] l[j])
    &&& forall|j: int| 0 <= j < d.len() ==> (#[trigger] d[j]) is SetMtime
    &&& !options.allow_unsafe_path_traversals ==> {
        &&& forall|j: int|
            0 <= j < m.len() ==> action_stays_inside(#[trigger] m[j]) && !(m[j] is Warn)
        &&& forall|j: int| 0 <= j < l.len() ==> action_stays_inside(#[trigger] l[j])
        &&& forall|j: int| 0 <= j < d.len() ==> action_stays_inside(#[trigger] d[j])
    }
    &&& !options.allow_symlinks ==> forall|j: int| 0 <= j < l.len() ==> !((#[trigger] l[j]) is CreateSymlink)
    &&& forall|i: int| 0 <= i < n ==> #[trigger] entry_refusal(entries[i], options) is None
    &&& forall|i: int| 0 <= i < n ==> entry_covered(#[trigger] entries[i], i, m, l, d)
}

proof fn lemma_scan_ok(entries: Seq<EntryV>, n: int, options: ArchiveOptions)
    requires
        0 <= n <= entries.len(),
        scan(entries, n, options) is Ok,
    ensures
        ({
            let parts = scan(entries, n, options)->Ok_0;
            scan_parts_ok(entries, n, options, parts.0, parts.1, parts.2)
        }),
    decreases n,
{
    if n > 0 {
        lemma_scan_ok(entries, n - 1, options);
        let prev = scan(entries, n - 1, options)->Ok_0;
        let e = entries[n - 1];
        let x = entry_main_actions(e, n - 1);
        let y = entry_link_actions(e);
        let z = entry_deferred_actions(e);
        lemma_entry_parts(e, n - 1, options);
        let (m, l, d) = (prev.0 + x, prev.1 + y, prev.2 + z);
        assert(scan(entries, n, options)->Ok_0 == (m, l, d));
        assert forall|i: int| 0 <= i < n implies entry_covered(
            #[trigger] entries[i],
            i,
            m,
            l,
            d,
        ) by {
            if i < n - 1 {
                lemma_covered_extend(entries[i], i, prev.0, prev.1, prev.2, x, y, z);
            } else {
                lemma_covered_prepend(e, i, x, y, z, prev.0, prev.1, prev.2);
            }
        }
        assert forall|i: int| 0 <= i < n implies #[trigger] entry_refusal(entries[i], options) is None by {
            if i < n - 1 {
            }
        }
        assert forall|j: int| 0 <= j < m.len() implies !is_link_action(#[trigger] m[j]) by {
            if j >= prev.0.len() {
                assert(m[j] == x[j - prev.0.len()]);
            }
        }
        assert forall|j: int| 0 <= j < l.len() implies is_link_action(#[trigger] l[j]) by {
            if j >= prev.1.len() {
                assert(l[j] == y[j - prev.1.len()]);
            }
        }
        assert forall|j: int| 0 <= j < d.len() implies (#[trigger] d[j]) is SetMtime by {
            if j >= prev.2.len() {
                assert(d[j] == z[j - prev.2.len()]);
            }
        }
        if !options.allow_unsafe_path_traversals {
            assert forall|j: int| 0 <= j < m.len() implies action_stays_inside(#[trigger] m[j])
                && !(m[j] is Warn) by {
                if j >= prev.0.len() {
                    assert(m[j] == x[j - prev.0.len()]);
                }
            }
            assert forall|j: int| 0 <= j < l.len() implies action_stays_inside(#[trigger] l[j]) by {
                if j >= prev.1.len() {
                    assert(l[j] == y[j - prev.1.len()]);
                }
            }
            assert forall|j: int| 0 <= j < d.len() implies action_stays_inside(#[trigger] d[j]) by {
                if j >= prev.2.len() {
                    assert(d[j] == z[j - prev.2.len()]);
                }
            }
        }
        if !options.allow_symlinks {
            assert forall|j: int| 0 <= j < l.len() implies !((#[trigger] l[j]) is CreateSymlink) by {
                if j >= prev.1.len() {
                    assert(l[j] == y[j - prev.1.len()]);
                }
            }
        }
    } else {
        assert(scan(entries, n, options)->Ok_0 == (
            Seq::<ActionV>::empty(),
            Seq::<ActionV>::empty(),
            Seq::<ActionV>::empty(),
        ));
    }
}

proof fn lemma_scan_err(entries: Seq<EntryV>, n: int, options: ArchiveOptions)
    requires
        0 <= n <= entries.len(),
        scan(entries, n, options) is Err,
    ensures
        exists|k: int|
            0 <= k < n && #[trigger] entry_refusal(entries[k], options) == Some(
                scan(entries, n, options)->Err_0,
            ) && forall|j: int| 0 <= j < k ==> #[trigger] entry_refusal(entries[j], options) is None,
    decreases n,
{
    if scan(entries, n - 1, options) is Err {
        lemma_scan_err(entries, n - 1, options);
    } else {
        lemma_scan_ok(entries, n - 1, options);
        assert(entry_refusal(entries[n - 1], options) == Some(scan(entries, n, options)->Err_0));
    }
}

proof fn lemma_scan_no_refusal(entries: Seq<EntryV>, n: int, options: ArchiveOptions)
    requires
        0 <= n <= entries.len(),
        forall|i: int| 0 <= i < n ==> #[trigger] entry_refusal(entries[i], options) is None,
    ensures
        scan(entries, n, options) is Ok,
    decreases n,
{
    if n > 0 {
        lemma_scan_no_refusal(entries, n - 1, options);
        assert(entry_refusal(entries[n - 1], options) is None);
    }
}

/// The plan fails exactly when the options forbid some entry, and then with
/// the refusal of the first such entry.
pub proof fn law_refusal_exact(entries: Seq<EntryV>, options: ArchiveOptions)
    ensures
        spec_entries_plan(entries, options) is Ok <==> forall|i: int|
            0 <= i < entries.len() ==> #[trigger] entry_refusal(entries[i], options) is None,
        spec_entries_plan(entries, options) is Err ==> exists|k: int|
            0 <= k < entries.len() && #[trigger] entry_refusal(entries[k], options) == Some(
                spec_entries_plan(entries, options)->Err_0,
            ) && forall|j: int| 0 <= j < k ==> #[trigger] entry_refusal(entries[j], options) is None,
{
    let n = entries.len() as int;
    if scan(entries, n, options) is Ok {
        lemma_scan_ok(entries, n, options);
    } else {
        lemma_scan_err(entries, n, options);
        if forall|i: int| 0 <= i < n ==> #[trigger] entry_refusal(entries[i], options) is None {
            lemma_scan_no_refusal(entries, n, options);
        }
    }
}

proof fn lemma_plan_parts(entries: Seq<EntryV>, options: ArchiveOptions)
    requires
        spec_entries_plan(entries, options) is Ok,
    ensures
        ({
            let parts = scan(entries, entries.len() as int, options)->Ok_0;
            &&& scan(entries, entries.len() as int, options) is Ok
            &&& spec_entries_plan(entries, options)->Ok_0 == parts.0 + parts.1 + parts.2
            &&& scan_parts_ok(entries, entries.len() as int, options, parts.0, parts.1, parts.2)
        }),
{
    lemma_scan_ok(entries, entries.len() as int, options);
}

/// Unless unsafe traversals are allowed, a plan writes and links only to
/// safe paths under the destination, and warns of none.
pub proof fn law_no_write_outside_destination(entries: Seq<EntryV>, options: ArchiveOptions)
    requires
        !options.allow_unsafe_path_traversals,
        spec_entries_plan(entries, options) is Ok,
    ensures
        forall|j: int|
            0 <= j < spec_entries_plan(entries, options)->Ok_0.len() ==> action_stays_inside(
                #[trigger] spec_entries_plan(entries, options)->Ok_0[j],
            ) && !(spec_entries_plan(entries, options)->Ok_0[j] is Warn),
{
    lemma_plan_parts(entries, options);
    let parts = scan(entries, entries.len() as int, options)->Ok_0;
    let plan = spec_entries_plan(entries, options)->Ok_0;
    assert forall|j: int| 0 <= j < plan.len() implies action_stays_inside(#[trigger] plan[j])
        && !(plan[j] is Warn) by {
        if j < parts.0.len() {
            assert(plan[j] == parts.0[j]);
        } else if j < parts.0.len() + parts.1.len() {
            assert(plan[j] == parts.1[j - parts.0.len()]);
        } else {
            assert(plan[j] == parts.2[j - parts.0.len() - parts.1.len()]);
        }
    }
}

/// Unless symbolic links are allowed, a plan exists only for archives
/// without them, and creates none.
pub proof fn law_symlinks_refused(entries: Seq<EntryV>, options: ArchiveOptions)
    requires
        !options.allow_symlinks,
        spec_entries_plan(entries, options) is Ok,
    ensures
        forall|i: int| 0 <= i < entries.len() ==> !((#[trigger] entries[i]) is Symlink),
        forall|j: int|
            0 <= j < spec_entries_plan(entries, options)->Ok_0.len() ==> !((
            #[trigger] spec_entries_plan(entries, options)->Ok_0[j]) is CreateSymlink),
{
    lemma_plan_parts(entries, options);
    let parts = scan(entries, entries.len() as int, options)->Ok_0;
    let plan = spec_entries_plan(entries, options)->Ok_0;
    assert forall|i: int| 0 <= i < entries.len() implies !((#[trigger] entries[i]) is Symlink) by {
        assert(entry_refusal(entries[i], options) is None);
    }
    assert forall|j: int| 0 <= j < plan.len() implies !((#[trigger] plan[j]) is CreateSymlink) by {
        if j < parts.0.len() {
            assert(plan[j] == parts.0[j]);
            assert(!is_link_action(parts.0[j]));
        } else if j < parts.0.len() + parts.1.len() {
            assert(plan[j] == parts.1[j - parts.0.len()]);
        } else {
            assert(plan[j] == parts.2[j - parts.0.len() - parts.1.len()]);
            assert(parts.2[j - parts.0.len() - parts.1.len()] is SetMtime);
        }
    }
}

/// A plan first writes entries in archive order, then creates every link,
/// then sets directory modification times: no entry is written after a link
/// exists, and nothing is written into a directory after its time is set.
pub proof fn law_links_then_directory_times_last(
    entries: Seq<EntryV>,
    options: ArchiveOptions,
) -> (split: (int, int))
    requires
        spec_entries_plan(entries, options) is Ok,
    ensures
        0 <= split.0 <= split.1 <= spec_entries_plan(entries, options)->Ok_0.len(),
        forall|j: int|
            0 <= j < split.0 ==> !is_link_action(
                #[trigger] spec_entries_plan(entries, options)->Ok_0[j],
            ),
        forall|j: int|
            split.0 <= j < split.1 ==> is_link_action(
                #[trigger] spec_entries_plan(entries, options)->Ok_0[j],
            ),
        forall|j: int|
            split.1 <= j < spec_entries_plan(entries, options)->Ok_0.len() ==> (
            #[trigger] spec_entries_plan(entries, options)->Ok_0[j]) is SetMtime,
{
    lemma_plan_parts(entries, options);
    let parts = scan(entries, entries.len() as int, options)->Ok_0;
    let plan = spec_entries_plan(entries, options)->Ok_0;
    let a = parts.0.len() as int;
    let b = a + parts.1.len();
    assert forall|j: int| 0 <= j < a implies !is_link_action(#[trigger] plan[j]) by {
        assert(plan[j] == parts.0[j]);
    }
    assert forall|j: int| a <= j < b implies is_link_action(#[trigger] plan[j]) by {
        assert(plan[j] == parts.1[j - a]);
    }
    assert forall|j: int| b <= j < plan.len() implies (#[trigger] plan[j]) is SetMtime by {
        assert(plan[j] == parts.2[j - b]);
    }
    (a, b)
}

proof fn lemma_done_at_first_refusal(entries: Seq<EntryV>, n: int, options: ArchiveOptions) -> (k: int)
    requires
        0 <= n <= entries.len(),
        scan(entries, n, options) is Err,
    ensures
        0 <= k < n,
        scan(entries, k, options) is Ok,
        entry_refusal(entries[k], options) is Some,
        done_before_refusal(entries, n, options) == scan(entries, k, options)->Ok_0.0,
    decreases n,
{
    if scan(entries, n - 1, options) is Err {
        lemma_done_at_first_refusal(entries, n - 1, options)
    } else {
        n - 1
    }
}

/// A refused write stops at the first refused entry `k`: what it carries
/// out before failing is exactly the in-order actions (warnings,
/// directories, files with their bits and times) of the entries before
/// `k`. Unless unsafe traversals are allowed, those stay inside the
/// destination; no link is made and no directory time is set.
pub proof fn law_refused_plan_writes_earlier_entries(
    entries: Seq<EntryV>,
    options: ArchiveOptions,
) -> (k: int)
    requires
        spec_entries_plan(entries, options) is Err,
    ensures
        0 <= k < entries.len(),
        entry_refusal(entries[k], options) == Some(spec_entries_plan(entries, options)->Err_0),
        forall|j: int| 0 <= j < k ==> #[trigger] entry_refusal(entries[j], options) is None,
        spec_entries_done(entries, options) == scan(entries, k, options)->Ok_0.0,
        forall|j: int|
            0 <= j < spec_entries_done(entries, options).len() ==> !is_link_action(
                #[trigger] spec_entries_done(entries, options)[j],
            ),
        !options.allow_unsafe_path_traversals ==> forall|j: int|
            0 <= j < spec_entries_done(entries, options).len() ==> action_stays_inside(
                #[trigger] spec_entries_done(entries, options)[j],
            ),
{
    let n = entries.len() as int;
    let k = lemma_done_at_first_refusal(entries, n, options);
    lemma_scan_ok(entries, k, options);
    assert(scan(entries, k + 1, options) == Err::<(Seq<ActionV>, Seq<ActionV>, Seq<ActionV>), RefusalV>(
        entry_refusal(entries[k], options)->Some_0,
    ));
    lemma_scan_err_persists(entries, k + 1, n, options);
    k
}

/// Reading an archive and extracting it straight to disk report a decoding
/// failure alike, with nothing written; a successful decoding is handed on
/// unchanged by both.
pub proof fn law_reading_and_streaming_agree_on_decoding(
    decoded: Result<Seq<EntryV>, ArchiveFailureV>,
    options: ArchiveOptions,
    format: Format,
    function_name: Seq<char>,
    source: Option<Seq<char>>,
)
    ensures
        decoded is Err ==> spec_decoded_contents(decoded, function_name, source, format)
            == Err::<Seq<EntryV>, ExtractErrorV>(
            spec_stream_decoded(decoded, options, format, function_name, source).1->Err_0.1,
        ) && spec_stream_decoded(decoded, options, format, function_name, source).1->Err_0.0
            == Seq::<ActionV>::empty(),
        decoded is Ok ==> spec_decoded_contents(decoded, function_name, source, format)
            == Ok::<Seq<EntryV>, ExtractErrorV>(
            spec_stream_decoded(decoded, options, format, function_name, source).0,
        ),
{
}

proof fn lemma_covered_in_plan(
    e: EntryV,
    i: int,
    m: Seq<ActionV>,
    l: Seq<ActionV>,
    d: Seq<ActionV>,
)
    requires
        entry_covered(e, i, m, l, d),
    ensures
        entry_covered(e, i, m + l + d, m + l + d, m + l + d),
{
    lemma_contains_concat(m, l);
    lemma_contains_concat(l, m);
    lemma_contains_concat(m + l, d);
    lemma_contains_concat(d, m + l);
}

/// A plan writes every file (from its own entry) and creates every
/// directory and every link; it sets the permission bits of every file and
/// directory that has them, and the modification time of every file and
/// directory that has one, whether or not the entry also has the other.
pub proof fn law_every_entry_planned(entries: Seq<EntryV>, options: ArchiveOptions)
    requires
        spec_entries_plan(entries, options) is Ok,
    ensures
        forall|i: int|
            0 <= i < entries.len() ==> entry_covered(
                #[trigger] entries[i],
                i,
                spec_entries_plan(entries, options)->Ok_0,
                spec_entries_plan(entries, options)->Ok_0,
                spec_entries_plan(entries, options)->Ok_0,
            ),
{
    lemma_plan_parts(entries, options);
    let parts = scan(entries, entries.len() as int, options)->Ok_0;
    let plan = spec_entries_plan(entries, options)->Ok_0;
    assert forall|i: int| 0 <= i < entries.len() implies entry_covered(
        #[trigger] entries[i],
        i,
        plan,
        plan,
        plan,
    ) by {
        lemma_covered_in_plan(entries[i], i, parts.0, parts.1, parts.2);
    }
}

/// The action's targets are all the destination itself.
pub open spec fn action_at_destination(a: ActionV) -> bool {
    match a {
        ActionV::WriteFile { target, .. } => target is Destination,
        ActionV::SetMode { target, .. } => target is Destination,
        ActionV::SetMtime { target, .. } => target is Destination,
        _ => false,
    }
}

proof fn lemma_single_scan_at_destination(entries: Seq<EntryV>, n: int)
    ensures
        forall|j: int|
            0 <= j < single_scan(entries, n).len() ==> action_at_destination(
                #[trigger] single_scan(entries, n)[j],
            ),
    decreases n,
{
    if n > 0 {
        lemma_single_scan_at_destination(entries, n - 1);
        let prev = single_scan(entries, n - 1);
        let x = single_file_actions(entries[n - 1], n - 1);
        assert forall|j: int| 0 <= j < x.len() implies action_at_destination(#[trigger] x[j]) by {
        }
        assert forall|j: int|
            0 <= j < (prev + x).len() implies action_at_destination(#[trigger] (prev + x)[j]) by {
            if j >= prev.len() {
                assert((prev + x)[j] == x[j - prev.len()]);
            }
        }
    }
}

/// An archive in a single-file format is written to the destination path
/// itself and nowhere else, whether it is written from memory or extracted
/// straight to disk.
pub proof fn law_single_file_writes_destination_only(
    entries: Seq<EntryV>,
    options: ArchiveOptions,
    format: Format,
    function_name: Seq<char>,
    source: Option<Seq<char>>,
)
    requires
        spec_is_single_file(format),
    ensures
        spec_write_plan(entries, options, Some(format), function_name) is Ok ==> forall|j: int|
            0 <= j < spec_write_plan(entries, options, Some(format), function_name)->Ok_0.len()
                ==> action_at_destination(
                #[trigger] spec_write_plan(entries, options, Some(format), function_name)->Ok_0[j],
            ),
        spec_write_plan(entries, options, Some(format), function_name) is Err <==> !(entries.len()
            > 0 && entries[0] is File),
        spec_stream_plan(entries, options, format, function_name, source) is Ok,
        forall|j: int|
            0 <= j < spec_stream_plan(entries, options, format, function_name, source)->Ok_0.len()
                ==> action_at_destination(
                #[trigger] spec_stream_plan(entries, options, format, function_name, source)->Ok_0[j],
            ),
{
    lemma_single_scan_at_destination(entries, entries.len() as int);
}

/// The plan writes file entry `e` (at index `i`) to the destination itself
/// and sets there its permission bits and its modification time, each where
/// the entry has it.
pub open spec fn file_at_destination(e: EntryV, i: int, plan: Seq<ActionV>) -> bool {
    match e {
        EntryV::File { mode, mtime, .. } => {
            &&& plan.contains(ActionV::WriteFile { target: TargetV::Destination, entry: i })
            &&& mode is Some ==> plan.contains(
                ActionV::SetMode { target: TargetV::Destination, mode: mode.unwrap() },
            )
            &&& mtime is Some ==> plan.contains(
                ActionV::SetMtime { target: TargetV::Destination, mtime: mtime.unwrap() },
            )
        },
        _ => true,
    }
}

proof fn lemma_single_file_actions_cover(e: EntryV, i: int)
    ensures
        file_at_destination(e, i, single_file_actions(e, i)),
{
    let x = single_file_actions(e, i);
    match e {
        EntryV::File { mode, mtime, .. } => {
            let t = TargetV::Destination;
            assert(x[0] == ActionV::WriteFile { target: t, entry: i });
            if mode is Some {
                assert(x[1] == ActionV::SetMode { target: t, mode: mode.unwrap() });
            }
            if mtime is Some {
                let k = (1 + mode_actions(t, mode).len()) as int;
                assert(x[k] == ActionV::SetMtime { target: t, mtime: mtime.unwrap() });
            }
        },
        _ => {},
    }
}

proof fn lemma_single_scan_covers(entries: Seq<EntryV>, n: int)
    requires
        0 <= n <= entries.len(),
    ensures
        forall|i: int|
            0 <= i < n ==> file_at_destination(#[trigger] entries[i], i, single_scan(entries, n)),
    decreases n,
{
    if n > 0 {
        lemma_single_scan_covers(entries, n - 1);
        let prev = single_scan(entries, n - 1);
        let x = single_file_actions(entries[n - 1], n - 1);
        lemma_single_file_actions_cover(entries[n - 1], n - 1);
        lemma_contains_concat(prev, x);
        lemma_contains_concat(x, prev);
        assert forall|i: int| 0 <= i < n implies file_at_destination(
            #[trigger] entries[i],
            i,
            single_scan(entries, n),
        ) by {
            assert(single_scan(entries, n) == prev + x);
            if i < n - 1 {
                assert(file_at_destination(entries[i], i, prev));
            }
        }
    }
}

/// In a single-file format, the file is written to the destination itself
/// with its permission bits and its modification time, each where the entry
/// has it and whatever the other holds: writing the first entry, a file, from
/// memory, and extracting the archive straight to disk, for every file that
/// decoding yields.
pub proof fn law_single_file_keeps_mode_and_time(
    entries: Seq<EntryV>,
    options: ArchiveOptions,
    format: Format,
    function_name: Seq<char>,
    source: Option<Seq<char>>,
)
    requires
        spec_is_single_file(format),
    ensures
        entries.len() > 0 && entries[0] is File ==> spec_write_plan(
            entries,
            options,
            Some(format),
            function_name,
        ) is Ok && file_at_destination(
            entries[0],
            0,
            spec_write_plan(entries, options, Some(format), function_name)->Ok_0,
        ),
        forall|i: int|
            0 <= i < entries.len() ==> file_at_destination(
                #[trigger] entries[i],
                i,
                spec_stream_plan(entries, options, format, function_name, source)->Ok_0,
            ),
{
    lemma_single_file_actions_cover(entries[0], 0);
    lemma_single_scan_covers(entries, entries.len() as int);
}

/// Outside the single-file formats, writing decoded entries to disk and
/// extracting an archive straight to disk plan the same actions, and refuse
/// the same entries for the same reason.
pub proof fn law_stream_and_write_agree(
    entries: Seq<EntryV>,
    options: ArchiveOptions,
    format: Format,
    function_name: Seq<char>,
    source: Option<Seq<char>>,
)
    requires
        !spec_is_single_file(format),
    ensures
        spec_write_plan(entries, options, Some(format), function_name) == spec_write_plan(
            entries,
            options,
            None,
            function_name,
        ),
        spec_write_plan(entries, options, Some(format), function_name) is Ok <==> spec_stream_plan(
            entries,
            options,
            format,
            function_name,
            source,
        ) is Ok,
        spec_write_plan(entries, options, Some(format), function_name) is Ok ==> spec_write_plan(
            entries,
            options,
            Some(format),
            function_name,
        ) == spec_stream_plan(entries, options, format, function_name, source),
        spec_stream_plan(entries, options, format, function_name, source) is Err ==> (
        spec_stream_plan(entries, options, format, function_name, source)->Err_0 == (
        ExtractErrorV::StreamRefused {
            function_name,
            source,
            refusal: spec_entries_plan(entries, options)->Err_0,
        })),
{
}

/// Entries as the decoder hands them out never need an unsafe traversal:
/// planning them is refused, if at all, only for a symbolic link, and the
/// plan warns of nothing.
pub proof fn law_decoded_entries_stay_inside(
    entries: Seq<EntryV>,
    options: ArchiveOptions,
    max_file_size: usize,
)
    requires
        forall|i: int| 0 <= i < entries.len() ==> decoded_entry_ok(#[trigger] entries[i], max_file_size),
    ensures
        spec_entries_plan(entries, options) is Err ==> spec_entries_plan(entries, options)->Err_0 is Symlink,
        spec_entries_plan(entries, options) is Ok ==> forall|j: int|
            0 <= j < spec_entries_plan(entries, options)->Ok_0.len() ==> action_stays_inside(
                #[trigger] spec_entries_plan(entries, options)->Ok_0[j],
            ) && !(spec_entries_plan(entries, options)->Ok_0[j] is Warn),
{
    law_refusal_exact(entries, options);
    let safe_options = ArchiveOptions { allow_unsafe_path_traversals: false, ..options };
    if spec_entries_plan(entries, options) is Ok {
        assert forall|i: int| 0 <= i < entries.len() implies #[trigger] entry_refusal(
            entries[i],
            safe_options,
        ) is None by {
            assert(decoded_entry_ok(entries[i], max_file_size));
            assert(entry_refusal(entries[i], options) is None);
        }
        law_refusal_exact(entries, safe_options);
        lemma_same_plan_when_paths_safe(entries, options, safe_options, entries.len() as int);
        law_no_write_outside_destination(entries, safe_options);
    }
}

proof fn lemma_same_plan_when_paths_safe(
    entries: Seq<EntryV>,
    options: ArchiveOptions,
    other: ArchiveOptions,
    n: int,
)
    requires
        0 <= n <= entries.len(),
        other.allow_symlinks == options.allow_symlinks,
        forall|i: int|
            0 <= i < entries.len() ==> path_is_safe((#[trigger] entries[i]).path()) && (
            entries[i] is HardLink ==> path_is_safe(entries[i]->HardLink_target)),
    ensures
        scan(entries, n, options) == scan(entries, n, other),
    decreases n,
{
    if n > 0 {
        lemma_same_plan_when_paths_safe(entries, options, other, n - 1);
        assert(path_is_safe(entries[n - 1].path()));
    }
}

/// Every error message begins with the name of the function that failed.
pub proof fn law_message_names_function(e: ExtractErrorV)
    ensures
        error_function_name(e).is_prefix_of(spec_message(e)),
{
    let f = error_function_name(e);
    let m = spec_message(e);
    assert(m.subrange(0, f.len() as int) =~= f);
}

/// The name of the function that reports the error.
pub open spec fn error_function_name(e: ExtractErrorV) -> Seq<char> {
    match e {
        ExtractErrorV::FileTooLarge { function_name, .. } => function_name,
        ExtractErrorV::TotalSizeTooLarge { function_name, .. } => function_name,
        ExtractErrorV::OutOfMemory { function_name, .. } => function_name,
        ExtractErrorV::InvalidArchive { function_name, .. } => function_name,
        ExtractErrorV::UnsafeArchive { function_name, .. } => function_name,
        ExtractErrorV::Unextractable { function_name, .. } => function_name,
        ExtractErrorV::EmptySingleFile { function_name } => function_name,
        ExtractErrorV::UnsafePath { function_name, .. } => function_name,
        ExtractErrorV::SymlinkRefused { function_name, .. } => function_name,
        ExtractErrorV::StreamRefused { function_name, .. } => function_name,
    }
}

/// Unless unsafe traversals are allowed, writing an archive to disk, or
/// extracting one straight to disk, writes and links only to the
/// destination itself or to safe paths under it, whatever the format.
pub proof fn law_disk_plans_stay_inside(
    entries: Seq<EntryV>,
    options: ArchiveOptions,
    format: Format,
    function_name: Seq<char>,
    source: Option<Seq<char>>,
)
    requires
        !options.allow_unsafe_path_traversals,
    ensures
        spec_write_plan(entries, options, Some(format), function_name) is Ok ==> forall|j: int|
            0 <= j < spec_write_plan(entries, options, Some(format), function_name)->Ok_0.len()
                ==> action_stays_inside(
                #[trigger] spec_write_plan(entries, options, Some(format), function_name)->Ok_0[j],
            ),
        spec_stream_plan(entries, options, format, function_name, source) is Ok ==> forall|j: int|
            0 <= j < spec_stream_plan(entries, options, format, function_name, source)->Ok_0.len()
                ==> action_stays_inside(
                #[trigger] spec_stream_plan(entries, options, format, function_name, source)->Ok_0[j],
            ),
{
    if spec_is_single_file(format) {
        law_single_file_writes_destination_only(entries, options, format, function_name, source);
        let w = spec_write_plan(entries, options, Some(format), function_name);
        let st = spec_stream_plan(entries, options, format, function_name, source)->Ok_0;
        if w is Ok {
            assert forall|j: int| 0 <= j < w->Ok_0.len() implies action_stays_inside(
                #[trigger] w->Ok_0[j],
            ) by {
                assert(action_at_destination(w->Ok_0[j]));
            }
        }
        assert forall|j: int| 0 <= j < st.len() implies action_stays_inside(#[trigger] st[j]) by {
            assert(action_at_destination(st[j]));
        }
    } else if spec_entries_plan(entries, options) is Ok {
        law_no_write_outside_destination(entries, options);
    }
}

/// For the entries that decoding yields (one file for a single-file
/// format), writing them to disk and extracting the archive straight to
/// disk plan the same actions whenever writing succeeds, in every format; in
/// a single-file format both always succeed.
pub proof fn law_stream_and_write_agree_on_decoded(
    entries: Seq<EntryV>,
    options: ArchiveOptions,
    format: Format,
    function_name: Seq<char>,
    source: Option<Seq<char>>,
)
    requires
        decoded_shape_ok(entries, format),
    ensures
        spec_is_single_file(format) ==> spec_write_plan(
            entries,
            options,
            Some(format),
            function_name,
        ) is Ok,
        spec_write_plan(entries, options, Some(format), function_name) is Ok ==> spec_write_plan(
            entries,
            options,
            Some(format),
            function_name,
        ) == spec_stream_plan(entries, options, format, function_name, source),
{
    if spec_is_single_file(format) {
        let e = entries[0];
        assert(single_scan(entries, 0) == Seq::<ActionV>::empty());
        assert(single_scan(entries, 1) =~= single_file_actions(e, 0));
    } else {
        law_stream_and_write_agree(entries, options, format, function_name, source);
    }
}

} // verus!
