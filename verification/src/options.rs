use vstd::prelude::*;

verus! {

/// What an extraction may do: the size limits handed to the decoder, and
/// whether entries that leave the destination, or symbolic links, are
/// written anyway.
#[derive(Clone, Copy, Debug, PartialEq, Eq, Structural)]
pub struct ArchiveOptions {
    /// The largest size, in bytes, of one decoded file.
    pub max_file_size: usize,
    /// The largest size, in bytes, of all decoded files together.
    pub max_total_size: usize,
    /// Write entries whose path would leave the destination, with a warning,
    /// instead of refusing the archive. This holds for the entries handed to
    /// `write_to_disk_plan` and `stream_plan`; the decoder behind `contents`
    /// and `stream_to_disk_plan` refuses such an archive whatever this says.
    pub allow_unsafe_path_traversals: bool,
    /// Create the archive's symbolic links instead of refusing the archive.
    pub allow_symlinks: bool,
}

} // verus!
