use vstd::prelude::*;

verus! {

/// A modification time: whole seconds and nanoseconds since the Unix epoch.
#[derive(Clone, Copy, Debug, PartialEq, Eq, Structural)]
pub struct Mtime {
    pub secs: u64,
    pub nanos: u32,
}

/// One entry of an archive, as extraction yields it and as it is written
/// back to disk.
#[derive(Clone, Debug)]
pub enum Entry {
    /// A regular file with its contents and optional Unix permission bits
    /// and modification time.
    File { path: String, data: Vec<u8>, mode: Option<u32>, mtime: Option<Mtime> },
    /// A directory with optional permission bits and modification time.
    Directory { path: String, mode: Option<u32>, mtime: Option<Mtime> },
    /// A symbolic link; `target` is relative to the link's directory.
    Symlink { path: String, target: String },
    /// A hard link to another entry of the archive; `target` is relative to
    /// the extraction root.
    HardLink { path: String, target: String },
}

/// The mathematical model of an [`Entry`].
pub enum EntryV {
    File { path: Seq<char>, data: Seq<u8>, mode: Option<u32>, mtime: Option<Mtime> },
    Directory { path: Seq<char>, mode: Option<u32>, mtime: Option<Mtime> },
    Symlink { path: Seq<char>, target: Seq<char> },
    HardLink { path: Seq<char>, target: Seq<char> },
}

impl EntryV {
    /// The entry's path within the archive.
    pub open spec fn path(self) -> Seq<char> {
        match self {
            EntryV::File { path, .. } => path,
            EntryV::Directory { path, .. } => path,
            EntryV::Symlink { path, .. } => path,
            EntryV::HardLink { path, .. } => path,
        }
    }
}

impl View for Entry {
    type V = EntryV;

    open spec fn view(&self) -> EntryV {
        match self {
            Entry::File { path, data, mode, mtime } => EntryV::File {
                path: path@,
                data: data@,
                mode: *mode,
                mtime: *mtime,
            },
            Entry::Directory { path, mode, mtime } => EntryV::Directory {
                path: path@,
                mode: *mode,
                mtime: *mtime,
            },
            Entry::Symlink { path, target } => EntryV::Symlink { path: path@, target: target@ },
            Entry::HardLink { path, target } => EntryV::HardLink {
                path: path@,
                target: target@,
            },
        }
    }
}

/// The models of a sequence of entries, in order.
pub open spec fn entry_views(entries: Seq<Entry>) -> Seq<EntryV> {
    entries.map_values(|e: Entry| e@)
}

impl Entry {
    /// The entry's path within the archive.
    pub fn path(&self) -> (path: &str)
        ensures
            path@ == self@.path(),
    {
        match self {
            Entry::File { path, .. } => path.as_str(),
            Entry::Directory { path, .. } => path.as_str(),
            Entry::Symlink { path, .. } => path.as_str(),
            Entry::HardLink { path, .. } => path.as_str(),
        }
    }

    /// The contents of a file entry; `None` for every other kind.
    pub fn data(&self) -> (data: Option<&[u8]>)
        ensures
            match self@ {
                EntryV::File { data: d, .. } => data is Some && data.unwrap()@ == d,
                _ => data is None,
            },
    {
        match self {
            Entry::File { data, .. } => Some(data.as_slice()),
            _ => None,
        }
    }

    /// The permission bits of a file or directory entry.
    pub fn mode(&self) -> (mode: Option<u32>)
        ensures
            mode == match self@ {
                EntryV::File { mode, .. } => mode,
                EntryV::Directory { mode, .. } => mode,
                _ => None,
            },
    {
        match self {
            Entry::File { mode, .. } => *mode,
            Entry::Directory { mode, .. } => *mode,
            _ => None,
        }
    }

    /// The modification time of a file or directory entry.
    pub fn mtime(&self) -> (mtime: Option<Mtime>)
        ensures
            mtime == match self@ {
                EntryV::File { mtime, .. } => mtime,
                EntryV::Directory { mtime, .. } => mtime,
                _ => None,
            },
    {
        match self {
            Entry::File { mtime, .. } => *mtime,
            Entry::Directory { mtime, .. } => *mtime,
            _ => None,
        }
    }
}

} // verus!
