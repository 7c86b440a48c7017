use vstd::prelude::*;
use crate::entry::{EntryV, Mtime};
use crate::extract::spec_write_plan;
use crate::format::{Format, spec_is_single_file};
use crate::options::ArchiveOptions;
use crate::path_safety::path_is_safe;
use crate::plan::{
    ActionV, TargetV, entry_deferred_actions, entry_link_actions, entry_main_actions,
    entry_refusal, entry_warnings, mode_actions, mtime_actions, scan, spec_entries_plan,
};

verus! {

/// What an action does to the file system, with a file's contents in place
/// of the index of its entry; warnings do nothing to it.
pub enum WriteV {
    CreateDirAll { target: TargetV },
    CreateParentDir { target: TargetV },
    WriteFile { target: TargetV, data: Seq<u8> },
    SetMode { target: TargetV, mode: u32 },
    SetMtime { target: TargetV, mtime: Mtime },
    CreateSymlink { target: TargetV, points_to: Seq<char> },
    CreateHardLink { target: TargetV, existing: TargetV },
}

/// The contents of a file entry; nothing for other entries.
pub open spec fn file_data(e: EntryV) -> Seq<u8> {
    match e {
        EntryV::File { data, .. } => data,
        _ => seq![],
    }
}

/// The file-system effect of one action of a plan for `entries`.
pub open spec fn resolve_action(a: ActionV, entries: Seq<EntryV>) -> Seq<WriteV> {
    match a {
        ActionV::Warn { .. } => seq![],
        ActionV::CreateDirAll { target } => seq![WriteV::CreateDirAll { target }],
        ActionV::CreateParentDir { target } => seq![WriteV::CreateParentDir { target }],
        ActionV::WriteFile { target, entry } => seq![
            WriteV::WriteFile { target, data: file_data(entries[entry]) },
        ],
        ActionV::SetMode { target, mode } => seq![WriteV::SetMode { target, mode }],
        ActionV::SetMtime { target, mtime } => seq![WriteV::SetMtime { target, mtime }],
        ActionV::CreateSymlink { target, points_to } => seq![
            WriteV::CreateSymlink { target, points_to },
        ],
        ActionV::CreateHardLink { target, existing } => seq![
            WriteV::CreateHardLink { target, existing },
        ],
    }
}

/// The file-system effects of a plan for `entries`, in order.
pub open spec fn resolve_plan(plan: Seq<ActionV>, entries: Seq<EntryV>) -> Seq<WriteV>
    decreases plan.len(),
{
    if plan.len() == 0 {
        seq![]
    } else {
        resolve_plan(plan.drop_last(), entries) + resolve_action(plan.last(), entries)
    }
}

/// The archive reordered: every entry but the symbolic links in order, then
/// the symbolic links in order.
pub open spec fn symlinks_last(entries: Seq<EntryV>) -> Seq<EntryV> {
    non_symlinks(entries) + symlinks_of(entries)
}

/// The entries that are not symbolic links, in order.
pub open spec fn non_symlinks(entries: Seq<EntryV>) -> Seq<EntryV>
    decreases entries.len(),
{
    if entries.len() == 0 {
        seq![]
    } else if entries.last() is Symlink {
        non_symlinks(entries.drop_last())
    } else {
        non_symlinks(entries.drop_last()).push(entries.last())
    }
}

/// The symbolic links, in order.
pub open spec fn symlinks_of(entries: Seq<EntryV>) -> Seq<EntryV>
    decreases entries.len(),
{
    if entries.len() == 0 {
        seq![]
    } else if entries.last() is Symlink {
        symlinks_of(entries.drop_last()).push(entries.last())
    } else {
        symlinks_of(entries.drop_last())
    }
}

/// The effects that `f` gives each entry, concatenated in order.
pub open spec fn flat(entries: Seq<EntryV>, f: spec_fn(EntryV) -> Seq<WriteV>) -> Seq<WriteV>
    decreases entries.len(),
{
    if entries.len() == 0 {
        seq![]
    } else {
        flat(entries.drop_last(), f) + f(entries.last())
    }
}

/// The effects of an entry's in-order actions.
pub open spec fn main_writes(e: EntryV) -> Seq<WriteV> {
    match e {
        EntryV::File { path, data, mode, mtime } => seq![
            WriteV::CreateParentDir { target: TargetV::Inside(path) },
            WriteV::WriteFile { target: TargetV::Inside(path), data },
        ] + resolve_plan(mode_actions(TargetV::Inside(path), mode), seq![]) + resolve_plan(
            mtime_actions(TargetV::Inside(path), mtime),
            seq![],
        ),
        EntryV::Directory { path, mode, .. } => seq![
            WriteV::CreateDirAll { target: TargetV::Inside(path) },
        ] + resolve_plan(mode_actions(TargetV::Inside(path), mode), seq![]),
        _ => seq![],
    }
}

/// The effects of an entry's links.
pub open spec fn link_writes(e: EntryV) -> Seq<WriteV> {
    resolve_plan(entry_link_actions(e), seq![])
}

/// The effects of an entry's deferred directory time.
pub open spec fn deferred_writes(e: EntryV) -> Seq<WriteV> {
    resolve_plan(entry_deferred_actions(e), seq![])
}

proof fn lemma_resolve_add(a: Seq<ActionV>, b: Seq<ActionV>, entries: Seq<EntryV>)
    ensures
        resolve_plan(a + b, entries) == resolve_plan(a, entries) + resolve_plan(b, entries),
    decreases b.len(),
{
    if b.len() == 0 {
        assert(a + b =~= a);
        assert(resolve_plan(a, entries) + Seq::<WriteV>::empty() =~= resolve_plan(a, entries));
    } else {
        assert((a + b).drop_last() =~= a + b.drop_last());
        assert((a + b).last() == b.last());
        lemma_resolve_add(a, b.drop_last(), entries);
        assert(resolve_plan(a + b, entries) =~= resolve_plan(a, entries) + resolve_plan(b, entries));
    }
}

proof fn lemma_resolve_one(a: ActionV, entries: Seq<EntryV>)
    ensures
        resolve_plan(seq![a], entries) == resolve_action(a, entries),
{
    assert(seq![a].drop_last() =~= Seq::<ActionV>::empty());
    assert(resolve_plan(Seq::<ActionV>::empty(), entries) + resolve_action(a, entries)
        =~= resolve_action(a, entries));
}

proof fn lemma_resolve_no_write_entries(a: Seq<ActionV>, x: Seq<EntryV>, y: Seq<EntryV>)
    requires
        forall|j: int| 0 <= j < a.len() ==> !((#[trigger] a[j]) is WriteFile),
    ensures
        resolve_plan(a, x) == resolve_plan(a, y),
    decreases a.len(),
{
    if a.len() > 0 {
        lemma_resolve_no_write_entries(a.drop_last(), x, y);
        assert(!(a[a.len() - 1] is WriteFile));
    }
}

proof fn lemma_warnings_resolve_empty(e: EntryV, entries: Seq<EntryV>)
    ensures
        resolve_plan(entry_warnings(e), entries) == Seq::<WriteV>::empty(),
{
    let first = if !path_is_safe(e.path()) {
        seq![ActionV::Warn { path: e.path() }]
    } else {
        seq![]
    };
    let second = match e {
        EntryV::HardLink { target, .. } => if !path_is_safe(target) {
            seq![ActionV::Warn { path: target }]
        } else {
            seq![]
        },
        _ => seq![],
    };
    lemma_resolve_add(first, second, entries);
    if first.len() > 0 {
        lemma_resolve_one(ActionV::Warn { path: e.path() }, entries);
    }
    if second.len() > 0 {
        lemma_resolve_one(second[0], entries);
        assert(second =~= seq![second[0]]);
    }
    assert(resolve_plan(first, entries) + resolve_plan(second, entries) =~= Seq::<WriteV>::empty());
}

proof fn lemma_main_writes(entries: Seq<EntryV>, i: int)
    requires
        0 <= i < entries.len(),
    ensures
        resolve_plan(entry_main_actions(entries[i], i), entries) == main_writes(entries[i]),
{
    let e = entries[i];
    lemma_warnings_resolve_empty(e, entries);
    let w = entry_warnings(e);
    match e {
        EntryV::File { path, data, mode, mtime } => {
            let t = TargetV::Inside(path);
            let a = seq![ActionV::CreateParentDir { target: t }];
            let b = seq![ActionV::WriteFile { target: t, entry: i }];
            let m = mode_actions(t, mode);
            let n = mtime_actions(t, mtime);
            assert(entry_main_actions(e, i) =~= w + (((a + b) + m) + n));
            lemma_resolve_add(w, ((a + b) + m) + n, entries);
            lemma_resolve_add((a + b) + m, n, entries);
            lemma_resolve_add(a + b, m, entries);
            lemma_resolve_add(a, b, entries);
            lemma_resolve_one(a[0], entries);
            lemma_resolve_one(b[0], entries);
            assert(a =~= seq![a[0]]);
            assert(b =~= seq![b[0]]);
            lemma_resolve_no_write_entries(m, entries, seq![]);
            lemma_resolve_no_write_entries(n, entries, seq![]);
            assert(resolve_plan(entry_main_actions(e, i), entries) =~= main_writes(e));
        },
        EntryV::Directory { path, mode, .. } => {
            let t = TargetV::Inside(path);
            let a = seq![ActionV::CreateDirAll { target: t }];
            let m = mode_actions(t, mode);
            assert(entry_main_actions(e, i) =~= w + (a + m));
            lemma_resolve_add(w, a + m, entries);
            lemma_resolve_add(a, m, entries);
            lemma_resolve_one(a[0], entries);
            assert(a =~= seq![a[0]]);
            lemma_resolve_no_write_entries(m, entries, seq![]);
            assert(resolve_plan(entry_main_actions(e, i), entries) =~= main_writes(e));
        },
        _ => {
            assert(entry_main_actions(e, i) =~= w + Seq::<ActionV>::empty());
            lemma_resolve_add(w, Seq::<ActionV>::empty(), entries);
            assert(resolve_plan(entry_main_actions(e, i), entries) =~= main_writes(e));
        },
    }
}

proof fn lemma_flat_push(s: Seq<EntryV>, x: EntryV, f: spec_fn(EntryV) -> Seq<WriteV>)
    ensures
        flat(s.push(x), f) == flat(s, f) + f(x),
{
    assert(s.push(x).drop_last() =~= s);
    assert(s.push(x).last() == x);
}

proof fn lemma_flat_add(a: Seq<EntryV>, b: Seq<EntryV>, f: spec_fn(EntryV) -> Seq<WriteV>)
    ensures
        flat(a + b, f) == flat(a, f) + flat(b, f),
    decreases b.len(),
{
    if b.len() == 0 {
        assert(a + b =~= a);
        assert(flat(a, f) + Seq::<WriteV>::empty() =~= flat(a, f));
    } else {
        assert((a + b).drop_last() =~= a + b.drop_last());
        assert((a + b).last() == b.last());
        lemma_flat_add(a, b.drop_last(), f);
        assert(flat(a + b, f) =~= flat(a, f) + flat(b, f));
    }
}

proof fn lemma_flat_non_symlinks(entries: Seq<EntryV>, f: spec_fn(EntryV) -> Seq<WriteV>)
    requires
        forall|e: EntryV| e is Symlink ==> #[trigger] f(e) == Seq::<WriteV>::empty(),
    ensures
        flat(entries, f) == flat(non_symlinks(entries), f),
    decreases entries.len(),
{
    if entries.len() > 0 {
        lemma_flat_non_symlinks(entries.drop_last(), f);
        let x = entries.last();
        if x is Symlink {
            assert(flat(entries, f) =~= flat(entries.drop_last(), f));
        } else {
            lemma_flat_push(non_symlinks(entries.drop_last()), x, f);
        }
    }
}

proof fn lemma_flat_symlinks(entries: Seq<EntryV>, f: spec_fn(EntryV) -> Seq<WriteV>)
    requires
        forall|e: EntryV| !(e is Symlink) ==> #[trigger] f(e) == Seq::<WriteV>::empty(),
    ensures
        flat(entries, f) == flat(symlinks_of(entries), f),
    decreases entries.len(),
{
    if entries.len() > 0 {
        lemma_flat_symlinks(entries.drop_last(), f);
        let x = entries.last();
        if x is Symlink {
            lemma_flat_push(symlinks_of(entries.drop_last()), x, f);
        } else {
            assert(flat(entries, f) =~= flat(entries.drop_last(), f));
        }
    }
}

proof fn lemma_filters_keep(entries: Seq<EntryV>, p: spec_fn(EntryV) -> bool)
    requires
        forall|i: int| 0 <= i < entries.len() ==> p(#[trigger] entries[i]),
    ensures
        forall|i: int| 0 <= i < non_symlinks(entries).len() ==> p(#[trigger] non_symlinks(entries)[i]),
        forall|i: int| 0 <= i < non_symlinks(entries).len() ==> !((#[trigger] non_symlinks(entries)[i]) is Symlink),
        forall|i: int| 0 <= i < symlinks_of(entries).len() ==> p(#[trigger] symlinks_of(entries)[i]),
        forall|i: int| 0 <= i < symlinks_of(entries).len() ==> (#[trigger] symlinks_of(entries)[i]) is Symlink,
    decreases entries.len(),
{
    if entries.len() > 0 {
        let d = entries.drop_last();
        assert forall|i: int| 0 <= i < d.len() implies p(#[trigger] d[i]) by {
            assert(d[i] == entries[i]);
        }
        lemma_filters_keep(d, p);
        assert(p(entries[entries.len() - 1]));
    }
}

proof fn lemma_flat_all_empty(entries: Seq<EntryV>, f: spec_fn(EntryV) -> Seq<WriteV>)
    requires
        forall|i: int| 0 <= i < entries.len() ==> #[trigger] f(entries[i]) == Seq::<WriteV>::empty(),
    ensures
        flat(entries, f) == Seq::<WriteV>::empty(),
    decreases entries.len(),
{
    if entries.len() > 0 {
        let d = entries.drop_last();
        assert forall|i: int| 0 <= i < d.len() implies #[trigger] f(d[i]) == Seq::<WriteV>::empty() by {
            assert(d[i] == entries[i]);
        }
        lemma_flat_all_empty(d, f);
        assert(f(entries[entries.len() - 1]) == Seq::<WriteV>::empty());
        assert(flat(entries, f) =~= Seq::<WriteV>::empty());
    }
}

proof fn lemma_scan_writes(entries: Seq<EntryV>, n: int, options: ArchiveOptions)
    requires
        0 <= n <= entries.len(),
        scan(entries, n, options) is Ok,
    ensures
        resolve_plan(scan(entries, n, options)->Ok_0.0, entries) == flat(
            entries.subrange(0, n),
            |e: EntryV| main_writes(e),
        ),
        resolve_plan(scan(entries, n, options)->Ok_0.1, entries) == flat(
            entries.subrange(0, n),
            |e: EntryV| link_writes(e),
        ),
        resolve_plan(scan(entries, n, options)->Ok_0.2, entries) == flat(
            entries.subrange(0, n),
            |e: EntryV| deferred_writes(e),
        ),
    decreases n,
{
    let fm = |e: EntryV| main_writes(e);
    let fl = |e: EntryV| link_writes(e);
    let fd = |e: EntryV| deferred_writes(e);
    if n == 0 {
        assert(entries.subrange(0, 0) =~= Seq::<EntryV>::empty());
    } else {
        lemma_scan_writes(entries, n - 1, options);
        let prev = scan(entries, n - 1, options)->Ok_0;
        let e = entries[n - 1];
        let sub = entries.subrange(0, n);
        assert(sub.drop_last() =~= entries.subrange(0, n - 1));
        assert(sub.last() == e);
        lemma_resolve_add(prev.0, entry_main_actions(e, n - 1), entries);
        lemma_resolve_add(prev.1, entry_link_actions(e), entries);
        lemma_resolve_add(prev.2, entry_deferred_actions(e), entries);
        lemma_main_writes(entries, n - 1);
        lemma_resolve_no_write_entries(entry_link_actions(e), entries, seq![]);
        lemma_resolve_no_write_entries(entry_deferred_actions(e), entries, seq![]);
        assert(flat(sub, fm) == flat(entries.subrange(0, n - 1), fm) + fm(e));
        assert(flat(sub, fl) == flat(entries.subrange(0, n - 1), fl) + fl(e));
        assert(flat(sub, fd) == flat(entries.subrange(0, n - 1), fd) + fd(e));
    }
}

/// The file-system effects of a successful plan: every entry's in-order
/// effects, then every link, then every directory time.
proof fn lemma_plan_writes(entries: Seq<EntryV>, options: ArchiveOptions)
    requires
        spec_entries_plan(entries, options) is Ok,
    ensures
        resolve_plan(spec_entries_plan(entries, options)->Ok_0, entries) == flat(
            entries,
            |e: EntryV| main_writes(e),
        ) + flat(entries, |e: EntryV| link_writes(e)) + flat(entries, |e: EntryV| deferred_writes(e)),
{
    let n = entries.len() as int;
    lemma_scan_writes(entries, n, options);
    assert(entries.subrange(0, n) =~= entries);
    let parts = scan(entries, n, options)->Ok_0;
    lemma_resolve_add(parts.0 + parts.1, parts.2, entries);
    lemma_resolve_add(parts.0, parts.1, entries);
}

proof fn lemma_no_refusal_plan_ok(entries: Seq<EntryV>, n: int, options: ArchiveOptions)
    requires
        0 <= n <= entries.len(),
        forall|i: int| 0 <= i < entries.len() ==> #[trigger] entry_refusal(entries[i], options) is None,
    ensures
        scan(entries, n, options) is Ok,
    decreases n,
{
    if n > 0 {
        lemma_no_refusal_plan_ok(entries, n - 1, options);
        assert(entry_refusal(entries[n - 1], options) is None);
    }
}

/// When symbolic links are allowed, every path may be written and the
/// archive holds no hard links, writing it to disk has the same effect on
/// the file system (warnings aside) as writing the same archive with its
/// symbolic links moved behind every other entry: the links are made only
/// after all files and directories are written.
pub proof fn law_symlinks_after_other_entries(
    entries: Seq<EntryV>,
    options: ArchiveOptions,
    format: Option<Format>,
    function_name: Seq<char>,
)
    requires
        options.allow_symlinks,
        format is None || !spec_is_single_file(format.unwrap()),
        forall|i: int| 0 <= i < entries.len() ==> !((#[trigger] entries[i]) is HardLink),
        forall|i: int|
            0 <= i < entries.len() ==> options.allow_unsafe_path_traversals || path_is_safe(
                (#[trigger] entries[i]).path(),
            ),
    ensures
        spec_write_plan(entries, options, format, function_name) is Ok,
        spec_write_plan(symlinks_last(entries), options, format, function_name) is Ok,
        resolve_plan(spec_write_plan(entries, options, format, function_name)->Ok_0, entries)
            == resolve_plan(
            spec_write_plan(symlinks_last(entries), options, format, function_name)->Ok_0,
            symlinks_last(entries),
        ),
{
    let ns = non_symlinks(entries);
    let sl = symlinks_of(entries);
    let re = symlinks_last(entries);
    let p = |e: EntryV| entry_refusal(e, options) is None && !(e is HardLink);
    assert forall|i: int| 0 <= i < entries.len() implies p(#[trigger] entries[i]) by {
        assert(options.allow_unsafe_path_traversals || path_is_safe(entries[i].path()));
    }
    lemma_filters_keep(entries, p);
    assert forall|i: int| 0 <= i < entries.len() implies #[trigger] entry_refusal(
        entries[i],
        options,
    ) is None by {
        assert(p(entries[i]));
    }
    assert forall|i: int| 0 <= i < re.len() implies #[trigger] entry_refusal(re[i], options) is None
        && !(re[i] is HardLink) && (i < ns.len() <==> !(re[i] is Symlink)) by {
        if i < ns.len() {
            assert(re[i] == ns[i]);
            assert(p(ns[i]));
        } else {
            assert(re[i] == sl[i - ns.len()]);
            assert(p(sl[i - ns.len()]));
        }
    }
    lemma_no_refusal_plan_ok(entries, entries.len() as int, options);
    lemma_no_refusal_plan_ok(re, re.len() as int, options);
    lemma_plan_writes(entries, options);
    lemma_plan_writes(re, options);
    let fm = |e: EntryV| main_writes(e);
    let fl = |e: EntryV| link_writes(e);
    let fd = |e: EntryV| deferred_writes(e);
    assert forall|e: EntryV| e is Symlink implies #[trigger] fm(e) == Seq::<WriteV>::empty() by {}
    assert forall|e: EntryV| e is Symlink implies #[trigger] fd(e) == Seq::<WriteV>::empty() by {
        assert(resolve_plan(Seq::<ActionV>::empty(), seq![]) == Seq::<WriteV>::empty());
    }
    assert forall|e: EntryV| !(e is Symlink) && !(e is HardLink) implies #[trigger] fl(e)
        == Seq::<WriteV>::empty() by {
        assert(entry_link_actions(e) =~= Seq::<ActionV>::empty());
    }
    // in-order effects: those of the other entries, in order
    lemma_flat_non_symlinks(entries, fm);
    lemma_flat_add(ns, sl, fm);
    assert forall|i: int| 0 <= i < sl.len() implies #[trigger] fm(sl[i]) == Seq::<WriteV>::empty() by {}
    lemma_flat_all_empty(sl, fm);
    // directory times: those of the other entries, in order
    lemma_flat_non_symlinks(entries, fd);
    lemma_flat_add(ns, sl, fd);
    assert forall|i: int| 0 <= i < sl.len() implies #[trigger] fd(sl[i]) == Seq::<WriteV>::empty() by {}
    lemma_flat_all_empty(sl, fd);
    // links: those of the symbolic links, in order
    let gl = |e: EntryV| if e is Symlink { link_writes(e) } else { Seq::<WriteV>::empty() };
    assert forall|e: EntryV| !(e is Symlink) implies #[trigger] gl(e) == Seq::<WriteV>::empty() by {}
    lemma_flat_symlinks(entries, gl);
    lemma_flat_same(entries, fl, gl);
    lemma_flat_same(sl, fl, gl);
    lemma_flat_add(ns, sl, fl);
    assert forall|i: int| 0 <= i < ns.len() implies #[trigger] fl(ns[i]) == Seq::<WriteV>::empty() by {
        assert(!(ns[i] is Symlink) && !(ns[i] is HardLink));
    }
    lemma_flat_all_empty(ns, fl);
    assert(flat(re, fm) =~= flat(entries, fm));
    assert(flat(re, fd) =~= flat(entries, fd));
    assert(flat(re, fl) =~= flat(entries, fl));
}

proof fn lemma_flat_same(
    entries: Seq<EntryV>,
    f: spec_fn(EntryV) -> Seq<WriteV>,
    g: spec_fn(EntryV) -> Seq<WriteV>,
)
    requires
        forall|i: int| 0 <= i < entries.len() ==> #[trigger] f(entries[i]) == g(entries[i]),
    ensures
        flat(entries, f) == flat(entries, g),
    decreases entries.len(),
{
    if entries.len() > 0 {
        let d = entries.drop_last();
        assert forall|i: int| 0 <= i < d.len() implies #[trigger] f(d[i]) == g(d[i]) by {
            assert(d[i] == entries[i]);
        }
        lemma_flat_same(d, f, g);
        assert(f(entries[entries.len() - 1]) == g(entries[entries.len() - 1]));
    }
}

} // verus!
