//! Writing a ZIP archive in memory with the `zip` crate.

use vstd::prelude::*;
use std::io::Write;

verus! {

/// A ZIP archive being written into memory. (Verus does not accept a
/// declaration of `zip::ZipWriter`, whose parameter is bound by std's I/O
/// traits, so the writer is held here, out of Verus's sight.)
#[verifier::external_body]
pub struct ZipBuffer {
    writer: zip::ZipWriter<std::io::Cursor<Vec<u8>>>,
}

#[verifier::external_type_specification]
#[verifier::external_body]
pub struct ExZipError(zip::result::ZipError);

#[verifier::external_type_specification]
#[verifier::external_body]
pub struct ExIoError(std::io::Error);

/// The files that an in-memory ZIP writer holds, in the order they were
/// started: each file's name and the bytes written to it so far.
pub uninterp spec fn zip_entries(w: ZipBuffer) -> Seq<(Seq<char>, Seq<u8>)>;

/// The archive that the `zip` crate (without its `time` feature, so every
/// entry carries the default date) writes for these files, each stored with
/// Deflate compression at the default level and the default permissions.
pub uninterp spec fn zip_deflated_archive(entries: Seq<(Seq<char>, Seq<u8>)>) -> Seq<u8>;

/// Whether every file holds fewer than 2^31 bytes. Such a file, Deflate
/// compressed, stays below the 4 GiB that the ZIP size fields hold without
/// the `large_file` option (Deflate output exceeds its input by at most a
/// few bytes per block: miniz_oxide writes a stored block when compressing
/// would expand the data), so the writer never refuses it.
pub open spec fn zip_files_fit(entries: Seq<(Seq<char>, Seq<u8>)>) -> bool {
    forall|i: int| 0 <= i < entries.len() ==> (#[trigger] entries[i]).1.len() < 0x8000_0000
}

/// `zip::ZipWriter::new(Cursor::new(Vec::new()))`: a writer that holds no
/// file yet.
#[verifier::external_body]
pub(crate) fn zip_writer_new() -> (w: ZipBuffer)
    ensures
        zip_entries(w) == Seq::<(Seq<char>, Seq<u8>)>::empty(),
{
    ZipBuffer { writer: zip::ZipWriter::new(std::io::Cursor::new(Vec::new())) }
}

/// `ZipWriter::start_file(path, options)` with Deflate compression. Claimed:
/// when it succeeds, the writer holds one more file, named `path` and empty;
/// it succeeds when the files so far fit (the writer is in memory, so only
/// the finishing of an oversized previous file can fail).
#[verifier::external_body]
pub(crate) fn zip_start_deflated_file(
    w: &mut ZipBuffer,
    path: &str,
) -> (r: Result<(), zip::result::ZipError>)
    ensures
        zip_files_fit(zip_entries(*old(w))) ==> r is Ok,
        r is Ok ==> zip_entries(*final(w)) == zip_entries(*old(w)).push((path@, Seq::<u8>::empty())),
{
    w.writer.start_file(
        path,
        zip::write::FileOptions::default().compression_method(zip::CompressionMethod::Deflated),
    )
}

/// `Write::write_all(bytes)` on the writer, once a file has been started.
/// Claimed: when it succeeds, `bytes` now end the contents of the file
/// started last; it succeeds when every file still fits afterwards (the
/// writer refuses only a file grown past 4 GiB, and writes to memory).
#[verifier::external_body]
pub(crate) fn zip_write_all(
    w: &mut ZipBuffer,
    bytes: &[u8],
) -> (r: Result<(), std::io::Error>)
    requires
        zip_entries(*old(w)).len() > 0,
    ensures
        zip_files_fit(zip_entries(*old(w))) && zip_entries(*old(w)).last().1.len() + bytes@.len()
            < 0x8000_0000 ==> r is Ok,
        r is Ok ==> {
            let before = zip_entries(*old(w));
            zip_entries(*final(w)) == before.update(
                before.len() - 1,
                (before.last().0, before.last().1 + bytes@),
            )
        },
{
    w.writer.write_all(bytes)
}

/// `ZipWriter::finish()`, then the buffer out of the cursor. Claimed: the
/// bytes are the archive named `zip_deflated_archive` of the files held;
/// it succeeds when the files fit (it writes the directory to memory).
#[verifier::external_body]
pub(crate) fn zip_finish(w: ZipBuffer) -> (r: Result<
    Vec<u8>,
    zip::result::ZipError,
>)
    ensures
        zip_files_fit(zip_entries(w)) ==> r is Ok,
        r matches Ok(bytes) ==> bytes@ == zip_deflated_archive(zip_entries(w)),
{
    let mut w = w;
    w.writer.finish().map(|cursor| cursor.into_inner())
}

/// `ZipError`'s `Display` text. Nothing is claimed of it.
#[verifier::external_body]
pub(crate) fn zip_error_text(e: &zip::result::ZipError) -> String {
    e.to_string()
}

/// `std::io::Error`'s `Display` text. Nothing is claimed of it.
#[verifier::external_body]
pub(crate) fn io_error_text(e: &std::io::Error) -> String {
    e.to_string()
}

} // verus!
