use vstd::prelude::*;
use crate::entry::{Entry, EntryV, Mtime, entry_views};
use crate::options::ArchiveOptions;
use crate::path_safety::{path_is_safe, is_safe_path};

verus! {

/// Where an action takes effect.
#[derive(Debug, PartialEq, Eq)]
pub enum Target {
    /// The destination path itself.
    Destination,
    /// An archive path joined onto the destination directory.
    Inside(String),
}

/// The model of a [`Target`].
pub enum TargetV {
    Destination,
    Inside(Seq<char>),
}

impl View for Target {
    type V = TargetV;

    open spec fn view(&self) -> TargetV {
        match self {
            Target::Destination => TargetV::Destination,
            Target::Inside(p) => TargetV::Inside(p@),
        }
    }
}

/// One step of writing an archive to disk.
#[derive(Debug, PartialEq, Eq)]
pub enum Action {
    /// Report that an unsafe archive path is written because the options
    /// allow it.
    Warn { path: String },
    /// Create a directory and all of its missing parents.
    CreateDirAll { target: Target },
    /// Create the parent directories of a file about to be written.
    CreateParentDir { target: Target },
    /// Write the contents of the file entry at index `entry`.
    WriteFile { target: Target, entry: usize },
    /// Set Unix permission bits.
    SetMode { target: Target, mode: u32 },
    /// Set the modification time.
    SetMtime { target: Target, mtime: Mtime },
    /// Create a symbolic link that points to `points_to`.
    CreateSymlink { target: Target, points_to: String },
    /// Create a hard link to the already written `existing`.
    CreateHardLink { target: Target, existing: Target },
}

/// The model of an [`Action`].
pub enum ActionV {
    Warn { path: Seq<char> },
    CreateDirAll { target: TargetV },
    CreateParentDir { target: TargetV },
    WriteFile { target: TargetV, entry: int },
    SetMode { target: TargetV, mode: u32 },
    SetMtime { target: TargetV, mtime: Mtime },
    CreateSymlink { target: TargetV, points_to: Seq<char> },
    CreateHardLink { target: TargetV, existing: TargetV },
}

impl View for Action {
    type V = ActionV;

    open spec fn view(&self) -> ActionV {
        match self {
            Action::Warn { path } => ActionV::Warn { path: path@ },
            Action::CreateDirAll { target } => ActionV::CreateDirAll { target: target@ },
            Action::CreateParentDir { target } => ActionV::CreateParentDir { target: target@ },
            Action::WriteFile { target, entry } => ActionV::WriteFile {
                target: target@,
                entry: *entry as int,
            },
            Action::SetMode { target, mode } => ActionV::SetMode { target: target@, mode: *mode },
            Action::SetMtime { target, mtime } => ActionV::SetMtime {
                target: target@,
                mtime: *mtime,
            },
            Action::CreateSymlink { target, points_to } => ActionV::CreateSymlink {
                target: target@,
                points_to: points_to@,
            },
            Action::CreateHardLink { target, existing } => ActionV::CreateHardLink {
                target: target@,
                existing: existing@,
            },
        }
    }
}

/// The models of a sequence of actions, in order.
pub open spec fn action_views(actions: Seq<Action>) -> Seq<ActionV> {
    actions.map_values(|a: Action| a@)
}

/// Why the options forbid writing an entry.
#[derive(Debug, PartialEq, Eq)]
pub enum Refusal {
    /// The path would leave the destination directory.
    Traversal { path: String },
    /// The entry is a symbolic link and symbolic links are not allowed.
    Symlink { path: String, target: String },
}

/// A plan cut short by a refused entry: the actions of the entries before
/// it, which are carried out, and then the refusal.
#[derive(Debug, PartialEq, Eq)]
pub struct Refused {
    /// The in-order actions of the entries before the refused one.
    pub done: Vec<Action>,
    /// Why the entry is refused.
    pub refusal: Refusal,
}

/// The model of a [`Refusal`].
pub enum RefusalV {
    Traversal { path: Seq<char> },
    Symlink { path: Seq<char>, target: Seq<char> },
}

impl View for Refusal {
    type V = RefusalV;

    open spec fn view(&self) -> RefusalV {
        match self {
            Refusal::Traversal { path } => RefusalV::Traversal { path: path@ },
            Refusal::Symlink { path, target } => RefusalV::Symlink { path: path@, target: target@ },
        }
    }
}

/// The reason, if any, for which `options` forbid writing entry `e`: its
/// path (or a hard link's target) leaves the destination and traversals are
/// not allowed, or it is a symbolic link and links are not allowed. The path
/// is checked first.
pub open spec fn entry_refusal(e: EntryV, options: ArchiveOptions) -> Option<RefusalV> {
    if !options.allow_unsafe_path_traversals && !path_is_safe(e.path()) {
        Some(RefusalV::Traversal { path: e.path() })
    } else {
        match e {
            EntryV::Symlink { path, target } => if !options.allow_symlinks {
                Some(RefusalV::Symlink { path, target })
            } else {
                None
            },
            EntryV::HardLink { target, .. } => if !options.allow_unsafe_path_traversals
                && !path_is_safe(target) {
                Some(RefusalV::Traversal { path: target })
            } else {
                None
            },
            _ => None,
        }
    }
}

/// The warnings for an entry whose path, or hard link target, is unsafe but
/// allowed.
pub open spec fn entry_warnings(e: EntryV) -> Seq<ActionV> {
    (if !path_is_safe(e.path()) {
        seq![ActionV::Warn { path: e.path() }]
    } else {
        seq![]
    }) + match e {
        EntryV::HardLink { target, .. } => if !path_is_safe(target) {
            seq![ActionV::Warn { path: target }]
        } else {
            seq![]
        },
        _ => seq![],
    }
}

/// Setting the permission bits, where the entry has them.
pub open spec fn mode_actions(target: TargetV, mode: Option<u32>) -> Seq<ActionV> {
    match mode {
        Some(m) => seq![ActionV::SetMode { target, mode: m }],
        None => seq![],
    }
}

/// Setting the modification time, where the entry has one.
pub open spec fn mtime_actions(target: TargetV, mtime: Option<Mtime>) -> Seq<ActionV> {
    match mtime {
        Some(t) => seq![ActionV::SetMtime { target, mtime: t }],
        None => seq![],
    }
}

/// What is done for entry `e` (at index `i`) in archive order: warnings,
/// then directories are created with their permission bits, and files are
/// written (after their parent directories) with their permission bits and
/// modification time.
pub open spec fn entry_main_actions(e: EntryV, i: int) -> Seq<ActionV> {
    entry_warnings(e) + match e {
        EntryV::File { path, mode, mtime, .. } => seq![
            ActionV::CreateParentDir { target: TargetV::Inside(path) },
            ActionV::WriteFile { target: TargetV::Inside(path), entry: i },
        ] + mode_actions(TargetV::Inside(path), mode) + mtime_actions(TargetV::Inside(path), mtime),
        EntryV::Directory { path, mode, .. } => seq![
            ActionV::CreateDirAll { target: TargetV::Inside(path) },
        ] + mode_actions(TargetV::Inside(path), mode),
        _ => seq![],
    }
}

/// The links of entry `e`, created after every other entry is written so
/// that no entry is written through a link of the archive.
pub open spec fn entry_link_actions(e: EntryV) -> Seq<ActionV> {
    match e {
        EntryV::Symlink { path, target } => seq![
            ActionV::CreateSymlink { target: TargetV::Inside(path), points_to: target },
        ],
        EntryV::HardLink { path, target } => seq![
            ActionV::CreateHardLink {
                target: TargetV::Inside(path),
                existing: TargetV::Inside(target),
            },
        ],
        _ => seq![],
    }
}

/// A directory's modification time, set last of all, since writing into a
/// directory changes it.
pub open spec fn entry_deferred_actions(e: EntryV) -> Seq<ActionV> {
    match e {
        EntryV::Directory { path, mtime, .. } => mtime_actions(TargetV::Inside(path), mtime),
        _ => seq![],
    }
}

/// The three parts of a plan for the first `n` entries (in-order actions,
/// links, directory modification times), or the refusal of the first entry
/// that the options forbid.
pub open spec fn scan(
    entries: Seq<EntryV>,
    n: int,
    options: ArchiveOptions,
) -> Result<(Seq<ActionV>, Seq<ActionV>, Seq<ActionV>), RefusalV>
    decreases n,
{
    if n <= 0 {
        Ok((seq![], seq![], seq![]))
    } else {
        match scan(entries, n - 1, options) {
            Err(r) => Err(r),
            Ok(parts) => match entry_refusal(entries[n - 1], options) {
                Some(r) => Err(r),
                None => Ok(
                    (
                        parts.0 + entry_main_actions(entries[n - 1], n - 1),
                        parts.1 + entry_link_actions(entries[n - 1]),
                        parts.2 + entry_deferred_actions(entries[n - 1]),
                    ),
                ),
            },
        }
    }
}

/// The plan for writing all `entries` under the destination directory: the
/// in-order actions, then the links, then the directory modification times;
/// or the refusal of the first entry that the options forbid.
pub open spec fn spec_entries_plan(entries: Seq<EntryV>, options: ArchiveOptions) -> Result<
    Seq<ActionV>,
    RefusalV,
> {
    match scan(entries, entries.len() as int, options) {
        Ok(parts) => Ok(parts.0 + parts.1 + parts.2),
        Err(r) => Err(r),
    }
}

/// The in-order actions carried out before a refusal among the first `n`
/// entries: those of every entry before the first refused one. Writing
/// stops there, before any link is made or directory time set.
pub open spec fn done_before_refusal(
    entries: Seq<EntryV>,
    n: int,
    options: ArchiveOptions,
) -> Seq<ActionV>
    decreases n,
{
    if n <= 0 {
        seq![]
    } else {
        match scan(entries, n - 1, options) {
            Err(_) => done_before_refusal(entries, n - 1, options),
            Ok(parts) => parts.0,
        }
    }
}

/// What is carried out before the plan for `entries` fails.
pub open spec fn spec_entries_done(entries: Seq<EntryV>, options: ArchiveOptions) -> Seq<ActionV> {
    done_before_refusal(entries, entries.len() as int, options)
}

proof fn lemma_done_persists(entries: Seq<EntryV>, k: int, n: int, options: ArchiveOptions)
    requires
        1 <= k <= n,
        scan(entries, k, options) is Err,
    ensures
        done_before_refusal(entries, n, options) == done_before_refusal(entries, k, options),
    decreases n - k,
{
    if k < n {
        lemma_done_persists(entries, k, n - 1, options);
        lemma_scan_err_persists(entries, k, n - 1, options);
    }
}

proof fn lemma_action_views_add(a: Seq<Action>, b: Seq<Action>)
    ensures
        action_views(a + b) == action_views(a) + action_views(b),
{
    assert(action_views(a + b) =~= action_views(a) + action_views(b));
}

pub(crate) proof fn lemma_scan_err_persists(entries: Seq<EntryV>, k: int, n: int, options: ArchiveOptions)
    requires
        k <= n,
        scan(entries, k, options) is Err,
    ensures
        scan(entries, n, options) == scan(entries, k, options),
    decreases n - k,
{
    if k < n {
        lemma_scan_err_persists(entries, k, n - 1, options);
    }
}

fn append_actions(acc: &mut Vec<Action>, more: Vec<Action>)
    ensures
        action_views(final(acc)@) == action_views(old(acc)@) + action_views(more@),
{
    let mut more = more;
    let ghost a = acc@;
    let ghost b = more@;
    acc.append(&mut more);
    proof {
        lemma_action_views_add(a, b);
    }
}

fn inside(path: &String) -> (t: Target)
    ensures
        t@ == TargetV::Inside(path@),
{
    Target::Inside(path.clone())
}

fn mode_step(target: Target, mode: Option<u32>) -> (r: Vec<Action>)
    ensures
        action_views(r@) == mode_actions(target@, mode),
{
    let mut r: Vec<Action> = Vec::new();
    match mode {
        Some(m) => {
            let ghost t = target@;
            r.push(Action::SetMode { target, mode: m });
            assert(action_views(r@) =~= seq![ActionV::SetMode { target: t, mode: m }]);
        },
        None => {
            assert(action_views(r@) =~= Seq::<ActionV>::empty());
        },
    }
    r
}

fn mtime_step(target: Target, mtime: Option<Mtime>) -> (r: Vec<Action>)
    ensures
        action_views(r@) == mtime_actions(target@, mtime),
{
    let mut r: Vec<Action> = Vec::new();
    match mtime {
        Some(m) => {
            let ghost t = target@;
            r.push(Action::SetMtime { target, mtime: m });
            assert(action_views(r@) =~= seq![ActionV::SetMtime { target: t, mtime: m }]);
        },
        None => {
            assert(action_views(r@) =~= Seq::<ActionV>::empty());
        },
    }
    r
}

fn warn_step(path: &String) -> (r: Vec<Action>)
    ensures
        action_views(r@) == if !path_is_safe(path@) {
            seq![ActionV::Warn { path: path@ }]
        } else {
            seq![]
        },
{
    let mut r: Vec<Action> = Vec::new();
    if !is_safe_path(path.as_str()) {
        r.push(Action::Warn { path: path.clone() });
        assert(action_views(r@) =~= seq![ActionV::Warn { path: path@ }]);
    } else {
        assert(action_views(r@) =~= Seq::<ActionV>::empty());
    }
    r
}

/// The refusal, if any, of one entry.
fn refusal_of(e: &Entry, options: &ArchiveOptions) -> (r: Option<Refusal>)
    ensures
        match entry_refusal(e@, *options) {
            Some(x) => r is Some && r.unwrap()@ == x,
            None => r is None,
        },
{
    let path = e.path();
    if !options.allow_unsafe_path_traversals && !is_safe_path(path) {
        return Some(Refusal::Traversal { path: path.to_string() });
    }
    match e {
        Entry::Symlink { path, target } => if !options.allow_symlinks {
            Some(Refusal::Symlink { path: path.clone(), target: target.clone() })
        } else {
            None
        },
        Entry::HardLink { target, .. } => if !options.allow_unsafe_path_traversals
            && !is_safe_path(target.as_str()) {
            Some(Refusal::Traversal { path: target.clone() })
        } else {
            None
        },
        _ => None,
    }
}

fn main_step(e: &Entry, i: usize) -> (r: Vec<Action>)
    ensures
        action_views(r@) == entry_main_actions(e@, i as int),
{
    let mut r: Vec<Action> = Vec::new();
    let ghost ev = e@;
    match e {
        Entry::File { path, mode, mtime, .. } => {
            append_actions(&mut r, warn_step(path));
            let mut w: Vec<Action> = Vec::new();
            w.push(Action::CreateParentDir { target: inside(path) });
            w.push(Action::WriteFile { target: inside(path), entry: i });
            assert(action_views(w@) =~= seq![
                ActionV::CreateParentDir { target: TargetV::Inside(path@) },
                ActionV::WriteFile { target: TargetV::Inside(path@), entry: i as int },
            ]);
            append_actions(&mut r, w);
            append_actions(&mut r, mode_step(inside(path), *mode));
            append_actions(&mut r, mtime_step(inside(path), *mtime));
            assert(entry_warnings(ev) =~= (if !path_is_safe(path@) {
                seq![ActionV::Warn { path: path@ }]
            } else {
                seq![]
            }));
            assert(action_views(r@) =~= entry_main_actions(ev, i as int));
        },
        Entry::Directory { path, mode, .. } => {
            append_actions(&mut r, warn_step(path));
            let mut w: Vec<Action> = Vec::new();
            w.push(Action::CreateDirAll { target: inside(path) });
            assert(action_views(w@) =~= seq![
                ActionV::CreateDirAll { target: TargetV::Inside(path@) },
            ]);
            append_actions(&mut r, w);
            append_actions(&mut r, mode_step(inside(path), *mode));
            assert(entry_warnings(ev) =~= (if !path_is_safe(path@) {
                seq![ActionV::Warn { path: path@ }]
            } else {
                seq![]
            }));
            assert(action_views(r@) =~= entry_main_actions(ev, i as int));
        },
        Entry::Symlink { path, .. } => {
            append_actions(&mut r, warn_step(path));
            assert(action_views(r@) =~= entry_main_actions(ev, i as int));
        },
        Entry::HardLink { path, target } => {
            append_actions(&mut r, warn_step(path));
            append_actions(&mut r, warn_step(target));
            assert(action_views(r@) =~= entry_main_actions(ev, i as int));
        },
    }
    r
}

fn link_step(e: &Entry) -> (r: Vec<Action>)
    ensures
        action_views(r@) == entry_link_actions(e@),
{
    let mut r: Vec<Action> = Vec::new();
    match e {
        Entry::Symlink { path, target } => {
            r.push(Action::CreateSymlink { target: inside(path), points_to: target.clone() });
        },
        Entry::HardLink { path, target } => {
            r.push(Action::CreateHardLink { target: inside(path), existing: inside(target) });
        },
        _ => {},
    }
    assert(action_views(r@) =~= entry_link_actions(e@));
    r
}

fn deferred_step(e: &Entry) -> (r: Vec<Action>)
    ensures
        action_views(r@) == entry_deferred_actions(e@),
{
    match e {
        Entry::Directory { path, mtime, .. } => mtime_step(inside(path), *mtime),
        _ => {
            let r: Vec<Action> = Vec::new();
            assert(action_views(r@) =~= entry_deferred_actions(e@));
            r
        },
    }
}

/// Plans writing every entry under the destination directory: each entry's
/// warnings, directories and files in archive order, then every link, then
/// every directory's modification time. Stops at the first entry that
/// `options` forbid, with its refusal and the in-order actions of the
/// entries before it.
pub fn plan_entries(entries: &[Entry], options: &ArchiveOptions) -> (r: Result<Vec<Action>, Refused>)
    ensures
        match spec_entries_plan(entry_views(entries@), *options) {
            Ok(plan) => r is Ok && action_views(r->Ok_0@) == plan,
            Err(x) => r is Err && r->Err_0.refusal@ == x && action_views(r->Err_0.done@)
                == spec_entries_done(entry_views(entries@), *options),
        },
{
    let ghost ev = entry_views(entries@);
    let mut main: Vec<Action> = Vec::new();
    let mut links: Vec<Action> = Vec::new();
    let mut deferred: Vec<Action> = Vec::new();
    let n = entries.len();
    assert(action_views(main@) =~= Seq::<ActionV>::empty());
    assert(action_views(links@) =~= Seq::<ActionV>::empty());
    assert(action_views(deferred@) =~= Seq::<ActionV>::empty());
    for i in 0..n
        invariant
            n == entries@.len(),
            ev == entry_views(entries@),
            scan(ev, i as int, *options) == Ok::<_, RefusalV>(
                (action_views(main@), action_views(links@), action_views(deferred@)),
            ),
    {
        let e = &entries[i];
        assert(ev[i as int] == e@);
        match refusal_of(e, options) {
            Some(x) => {
                proof {
                    lemma_scan_err_persists(ev, i + 1, n as int, *options);
                    lemma_done_persists(ev, i + 1, n as int, *options);
                }
                return Err(Refused { done: main, refusal: x });
            },
            None => {},
        }
        append_actions(&mut main, main_step(e, i));
        append_actions(&mut links, link_step(e));
        append_actions(&mut deferred, deferred_step(e));
    }
    append_actions(&mut main, links);
    append_actions(&mut main, deferred);
    Ok(main)
}

} // verus!
