//! Encoding the archives: a zip archive that stores one file, and the gzip
//! stream of a tar archive.
//!
//! Reading the source and writing the destination are the caller's part.
//! The functions here take the bytes that were read and return the bytes to
//! write, with the place to write them to.

use crate::error::Error;
use crate::path::{file_name_of, parent_of, BundlePath, ComponentView};
use vstd::prelude::*;
use vstd::string::*;

verus! {

/// The zip compression method that stores a file as it is.
pub const ZIP_METHOD_STORED: u16 = 0;

/// The permission bits of the file in an updater zip archive: `rwxr-xr-x`.
pub const ZIP_ENTRY_MODE: u32 = 0o755;

/// The bytes of the zip archive whose one entry has the name `name`, the
/// compression method numbered `method`, the Unix permission bits `mode`
/// and the content `contents`; `None` where the encoder refuses to write
/// such an archive.
pub uninterp spec fn zip_archive(name: Seq<char>, contents: Seq<u8>, method: u16, mode: u32) -> Option<
    Seq<u8>,
>;

/// The bytes of the gzip stream that holds `data`, with the modification
/// time `modification_time` (seconds since the Unix epoch) in its header;
/// `None` where the encoder fails.
pub uninterp spec fn gzip_stream(data: Seq<u8>, modification_time: u32) -> Option<Seq<u8>>;

/// Writes a zip archive with a single entry into memory.
///
/// Calls `zip::ZipWriter` on an in-memory cursor: `start_file` with the
/// entry's name, the method that `zip::CompressionMethod::from_u16` gives
/// for `method`, and `unix_permissions(mode)`; `write_all` with the
/// content; then `finish`. The contract claims only that the outcome is a
/// function of the four arguments. That holds because the crate is built
/// without its `time` feature, so that the entry's time stamp is the fixed
/// default and not the clock.
#[verifier::external_body]
fn zip_single_entry(name: &str, contents: &[u8], method: u16, mode: u32) -> (r: Result<
    Vec<u8>,
    zip::result::ZipError,
>)
    ensures
        match r {
            Ok(bytes) => zip_archive(name@, contents@, method, mode) == Some(bytes@),
            Err(_) => zip_archive(name@, contents@, method, mode) is None,
        },
{
    let mut writer = zip::ZipWriter::new(std::io::Cursor::new(Vec::new()));
    #[allow(deprecated)]
    let method = zip::CompressionMethod::from_u16(method);
    let options = zip::write::FileOptions::default().compression_method(method).unix_permissions(
        mode,
    );
    writer.start_file(name, options)?;
    std::io::Write::write_all(&mut writer, contents)?;
    Ok(writer.finish()?.into_inner())
}

/// Compresses `data` into a gzip stream in memory.
///
/// Calls `libflate::gzip::Encoder::with_options` on an empty vector, with
/// the default options and a header whose modification time is
/// `modification_time`; `write_all` with the data; then `finish`. The
/// contract claims only that the outcome is a function of the two
/// arguments: with the time given, nothing else enters the stream.
#[verifier::external_body]
fn gzip_encode(data: &[u8], modification_time: u32) -> (r: Result<Vec<u8>, std::io::Error>)
    ensures
        match r {
            Ok(bytes) => gzip_stream(data@, modification_time) == Some(bytes@),
            Err(_) => gzip_stream(data@, modification_time) is None,
        },
{
    let header = libflate::gzip::HeaderBuilder::new().modification_time(modification_time).finish();
    let options = libflate::gzip::EncodeOptions::new().header(header);
    let mut encoder = libflate::gzip::Encoder::with_options(Vec::new(), options)?;
    std::io::Write::write_all(&mut encoder, data)?;
    encoder.finish().into_result()
}

/// An archive that is ready to be written.
#[derive(Debug, PartialEq, Eq)]
pub struct ArchiveFile {
    /// Where the archive goes.
    pub path: BundlePath,
    /// The directory that has to exist before the archive is written, with
    /// all of its ancestors; `None` where `path` has no parent.
    pub parent_dir: Option<BundlePath>,
    /// The bytes of the archive.
    pub bytes: Vec<u8>,
}

/// The mathematical value of an `ArchiveFile`.
pub struct ArchiveFileView {
    pub path: Seq<ComponentView>,
    pub parent_dir: Option<Seq<ComponentView>>,
    pub bytes: Seq<u8>,
}

impl View for ArchiveFile {
    type V = ArchiveFileView;

    open spec fn view(&self) -> ArchiveFileView {
        ArchiveFileView {
            path: self.path@,
            parent_dir: match self.parent_dir {
                Some(p) => Some(p@),
                None => None,
            },
            bytes: self.bytes@,
        }
    }
}

/// The archive with the bytes `bytes` that goes to `destination`.
pub open spec fn archive_at(destination: Seq<ComponentView>, bytes: Seq<u8>) -> ArchiveFileView {
    ArchiveFileView { path: destination, parent_dir: parent_of(destination), bytes }
}

/// What the zip writer gives for a source file named `src_file` with the
/// content `contents`, to be written to `dst_file`: the archive that
/// stores the content under the source's file name, with the permission
/// bits `rwxr-xr-x`; `None` where the encoder refuses.
pub open spec fn zip_file(
    src_file: Seq<ComponentView>,
    dst_file: Seq<ComponentView>,
    contents: Seq<u8>,
) -> Option<ArchiveFileView> {
    match zip_archive(file_name_of(src_file)->0, contents, ZIP_METHOD_STORED, ZIP_ENTRY_MODE) {
        Some(bytes) => Some(archive_at(dst_file, bytes)),
        None => None,
    }
}

/// What the tar writer gives for the tar stream `tar_stream`, to be
/// written to `dest_path`: its gzip stream; `None` where the encoder
/// fails.
pub open spec fn tar_gz_file(
    dest_path: Seq<ComponentView>,
    tar_stream: Seq<u8>,
    modification_time: u32,
) -> Option<ArchiveFileView> {
    match gzip_stream(tar_stream, modification_time) {
        Some(bytes) => Some(archive_at(dest_path, bytes)),
        None => None,
    }
}

/// The zip writer is repeatable: two outcomes for the same source name,
/// destination and content are the same, byte for byte.
pub proof fn lemma_zip_writer_repeatable(
    src_file: Seq<ComponentView>,
    dst_file: Seq<ComponentView>,
    contents: Seq<u8>,
    first: Option<ArchiveFileView>,
    second: Option<ArchiveFileView>,
)
    requires
        first == zip_file(src_file, dst_file, contents),
        second == zip_file(src_file, dst_file, contents),
    ensures
        first == second,
        first matches Some(a) ==> second matches Some(b) && a.bytes == b.bytes,
{
}

/// The encoded bytes, placed at `destination`; or the encoder's error.
pub fn place_archive<E>(destination: &BundlePath, encoded: Result<Vec<u8>, E>) -> (r: Result<
    ArchiveFile,
    E,
>)
    ensures
        match encoded {
            Ok(bytes) => r matches Ok(file) && file@ == archive_at(destination@, bytes@),
            Err(e) => r == Err::<ArchiveFile, E>(e),
        },
{
    match encoded {
        Ok(bytes) => Ok(
            ArchiveFile { path: destination.clone(), parent_dir: destination.parent(), bytes },
        ),
        Err(e) => Err(e),
    }
}

/// The zip archive of one file.
///
/// `src_file` is where the file was read from and `contents` what it
/// holds; `dst_file` is where the archive goes. The archive has exactly one
/// entry, named after the source's file name, stored without compression,
/// with the permission bits `rwxr-xr-x`.
pub fn create_zip(src_file: &BundlePath, dst_file: &BundlePath, contents: &[u8]) -> (r: Result<
    ArchiveFile,
    Error,
>)
    requires
        file_name_of(src_file@) is Some,
        parent_of(dst_file@) is Some,
    ensures
        match zip_file(src_file@, dst_file@, contents@) {
            Some(file) => r matches Ok(f) && f@ == file,
            None => r matches Err(Error::Zip(_)),
        },
{
    let name = src_file.file_name().unwrap();
    let encoded = zip_single_entry(name, contents, ZIP_METHOD_STORED, ZIP_ENTRY_MODE);
    match place_archive(dst_file, encoded) {
        Ok(file) => Ok(file),
        Err(e) => Err(Error::Zip(e)),
    }
}

/// What the caller puts into the tar stream of a directory.
#[derive(Debug, PartialEq, Eq)]
pub struct TarRequest {
    /// The name of the entry under which the directory and everything
    /// below it is appended.
    pub root_name: String,
    /// Whether a symbolic link is replaced by what it points to. It never
    /// is: a link is stored as a link.
    pub follow_symlinks: bool,
}

/// What goes into the tar stream of the directory at `src_dir`: all of it,
/// under the directory's own name, with symbolic links kept as links.
pub fn tar_request(src_dir: &BundlePath) -> (r: TarRequest)
    requires
        file_name_of(src_dir@) is Some,
    ensures
        Some(r.root_name@) == file_name_of(src_dir@),
        !r.follow_symlinks,
{
    let name = src_dir.file_name().unwrap();
    TarRequest { root_name: String::from_str(name), follow_symlinks: false }
}

/// The gzip-compressed tar archive.
///
/// `tar_stream` is the tar stream that the caller made for a `TarRequest`;
/// `dest_path` is where the archive goes, and `modification_time` the time
/// of writing, in seconds since the Unix epoch, for the gzip header.
pub fn create_tar(dest_path: &BundlePath, tar_stream: &[u8], modification_time: u32) -> (r: Result<
    ArchiveFile,
    Error,
>)
    ensures
        match tar_gz_file(dest_path@, tar_stream@, modification_time) {
            Some(file) => r matches Ok(f) && f@ == file,
            None => r matches Err(Error::Gzip(_)),
        },
{
    let encoded = gzip_encode(tar_stream, modification_time);
    match place_archive(dest_path, encoded) {
        Ok(file) => Ok(file),
        Err(e) => Err(Error::Gzip(e)),
    }
}

} // verus!
