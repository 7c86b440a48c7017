use vstd::prelude::*;
use archive::ArchiveFormat;

verus! {

/// The archive format that `archive` decodes, passed through opaque.
#[verifier::external_type_specification]
#[verifier::external_body]
pub struct ExArchiveFormat(ArchiveFormat);

/// The archive and compression formats that can be extracted.
#[derive(Clone, Copy, Debug, PartialEq, Eq, Structural)]
pub enum Format {
    Zip,
    Tar,
    Ar,
    Deb,
    TarGz,
    TarBz2,
    TarXz,
    TarZst,
    TarLz4,
    Gz,
    Bz2,
    Xz,
    Lz4,
    Zst,
    SevenZ,
}

/// A format that compresses one file rather than holding an archive of many.
pub open spec fn spec_is_single_file(format: Format) -> bool {
    match format {
        Format::Gz | Format::Bz2 | Format::Xz | Format::Lz4 | Format::Zst => true,
        _ => false,
    }
}

/// The display name that `archive` gives each format.
pub open spec fn spec_format_name(format: Format) -> Seq<char> {
    match format {
        Format::Zip => "ZIP"@,
        Format::Tar => "TAR"@,
        Format::Ar => "AR"@,
        Format::Deb => "DEB"@,
        Format::TarGz => "TAR.GZ"@,
        Format::TarBz2 => "TAR.BZ2"@,
        Format::TarXz => "TAR.XZ"@,
        Format::TarZst => "TAR.ZST"@,
        Format::TarLz4 => "TAR.LZ4"@,
        Format::Gz => "GZIP"@,
        Format::Bz2 => "BZIP2"@,
        Format::Xz => "XZ"@,
        Format::Lz4 => "LZ4"@,
        Format::Zst => "ZSTD"@,
        Format::SevenZ => "7Z"@,
    }
}

impl Format {
    /// Whether the format compresses a single file (`.gz`, `.bz2`, `.xz`,
    /// `.lz4`, `.zst`); such an archive is written to the destination itself.
    pub fn is_single_file(&self) -> (single: bool)
        ensures
            single == spec_is_single_file(*self),
    {
        match self {
            Format::Gz | Format::Bz2 | Format::Xz | Format::Lz4 | Format::Zst => true,
            _ => false,
        }
    }
}

/// Converts the format into the value that `archive` takes, variant for
/// variant; the wrapper that calls the decoder uses it in its body.
/// Nothing is stated of the result, which Verus cannot look into.
#[verifier::external_body]
pub(crate) fn to_archive_format(format: Format) -> ArchiveFormat {
    match format {
        Format::Zip => ArchiveFormat::Zip, Format::Tar => ArchiveFormat::Tar,
        Format::Ar => ArchiveFormat::Ar, Format::Deb => ArchiveFormat::Deb,
        Format::TarGz => ArchiveFormat::TarGz, Format::TarBz2 => ArchiveFormat::TarBz2,
        Format::TarXz => ArchiveFormat::TarXz, Format::TarZst => ArchiveFormat::TarZst,
        Format::TarLz4 => ArchiveFormat::TarLz4, Format::Gz => ArchiveFormat::Gz,
        Format::Bz2 => ArchiveFormat::Bz2, Format::Xz => ArchiveFormat::Xz,
        Format::Lz4 => ArchiveFormat::Lz4, Format::Zst => ArchiveFormat::Zst,
        Format::SevenZ => ArchiveFormat::SevenZ,
    }
}

/// The display name of each format, the fixed table of
/// `ArchiveFormat::name` in `archive`.
pub fn format_name(format: Format) -> (name: &'static str)
    ensures
        name@ == spec_format_name(format),
{
    match format {
        Format::Zip => "ZIP",
        Format::Tar => "TAR",
        Format::Ar => "AR",
        Format::Deb => "DEB",
        Format::TarGz => "TAR.GZ",
        Format::TarBz2 => "TAR.BZ2",
        Format::TarXz => "TAR.XZ",
        Format::TarZst => "TAR.ZST",
        Format::TarLz4 => "TAR.LZ4",
        Format::Gz => "GZIP",
        Format::Bz2 => "BZIP2",
        Format::Xz => "XZ",
        Format::Lz4 => "LZ4",
        Format::Zst => "ZSTD",
        Format::SevenZ => "7Z",
    }
}

} // verus!
