//! The archive readers: what the crates `zstd`, `flate2`, `tar` and `zip`
//! do for the extraction, each call with the contract that the extraction
//! takes on trust. The contracts speak of what a scan of an archive meets;
//! what that is for given bytes is for the crates to say, and is named here,
//! not defined.

use vstd::prelude::*;
use vstd::utf8::decode_utf8;
use vstd::utf8::valid_utf8;
use crate::archive::EntryName;
use crate::archive::Scanned;

verus! {

/// The error of the readers, `std::io::Error`: carried, never looked into.
#[verifier::external_type_specification]
#[verifier::external_body]
pub struct ExIoError(std::io::Error);

/// The error of the zip reader, `zip::result::ZipError`: carried, never
/// looked into.
#[verifier::external_type_specification]
#[verifier::external_body]
pub struct ExZipError(zip::result::ZipError);

/// `std::io::Cursor`, through which the zip reader reads the bytes of an
/// asset.
#[verifier::external_type_specification]
#[verifier::external_body]
#[verifier::reject_recursive_types(T)]
pub struct ExCursor<T>(std::io::Cursor<T>);

/// The zip reader, `zip::ZipArchive`.
#[verifier::external_type_specification]
#[verifier::external_body]
#[verifier::reject_recursive_types(R)]
pub struct ExZipArchive<R>(zip::ZipArchive<R>);

/// A gzip-compressed tar archive over the bytes of an asset: a
/// `tar::Archive` that reads through a `flate2::read::GzDecoder`.
#[verifier::external_body]
pub struct TarGzArchive<'a> {
    inner: tar::Archive<flate2::read::GzDecoder<&'a [u8]>>,
}

/// The entries of a tar archive that have not been handed out yet: a
/// `tar::Entries`.
#[verifier::external_body]
pub struct TarGzEntries<'e, 'a> {
    inner: tar::Entries<'e, flate2::read::GzDecoder<&'a [u8]>>,
}

/// One entry of a tar archive: a `tar::Entry`. It holds the borrow of the
/// iterator that handed it out, so that it is done with before the next entry
/// is asked for: the archive is one stream, and an entry is read where the
/// stream stands.
#[verifier::external_body]
pub struct TarGzEntry<'x, 'e, 'a> {
    inner: tar::Entry<'e, flate2::read::GzDecoder<&'a [u8]>>,
    turn: std::marker::PhantomData<&'x mut ()>,
}

/// One file of a zip archive: a `zip::read::ZipFile`.
#[verifier::external_body]
pub struct ZipEntry<'e, 'a> {
    inner: zip::read::ZipFile<'e, std::io::Cursor<&'a [u8]>>,
}

/// What `zstd::decode_all` makes of the bytes: the decompressed stream, or
/// nothing where it reports an error.
pub uninterp spec fn zstd_decoded(bytes: Seq<u8>) -> Option<Seq<u8>>;

/// What a scan of the bytes as a gzip-compressed tar archive meets, place by
/// place, going through `tar::Archive::entries`. An entry's name is its path
/// as `tar::Entry::path_bytes` gives it. A place where the iterator reports
/// an error is damaged; where the entries cannot be gone through at all, the
/// listing is one damaged place.
pub uninterp spec fn tar_gz_items(bytes: Seq<u8>) -> Seq<Scanned>;

/// What a scan of this archive meets.
pub uninterp spec fn archive_items(archive: &TarGzArchive<'_>) -> Seq<Scanned>;

/// What a scan has still to meet.
pub uninterp spec fn pending_items(entries: &TarGzEntries<'_, '_>) -> Seq<Scanned>;

/// What the scan met where it was handed this entry.
pub uninterp spec fn entry_item(entry: &TarGzEntry<'_, '_, '_>) -> Scanned;

/// What a scan of the bytes as a zip archive meets, file by file in the
/// order of `zip::ZipArchive::by_index`. An entry's name is the file's name
/// as `zip::read::ZipFile::name` gives it. A file that `by_index` reports an
/// error for is a damaged place; where `zip::ZipArchive::new` does not accept
/// the bytes, the listing is one damaged place.
pub uninterp spec fn zip_items(bytes: Seq<u8>) -> Seq<Scanned>;

/// What a scan of this archive meets.
pub uninterp spec fn zip_contents(archive: &zip::ZipArchive<std::io::Cursor<&[u8]>>) -> Seq<
    Scanned,
>;

/// What the scan met where it was handed this file.
pub uninterp spec fn zip_entry_item(entry: &ZipEntry<'_, '_>) -> Scanned;

/// Decompresses with `zstd::decode_all`. The contract names the outcome.
#[verifier::external_body]
pub(crate) fn zstd_decode(bytes: &[u8]) -> (decoded: Result<Vec<u8>, std::io::Error>)
    ensures
        match decoded {
            Ok(data) => zstd_decoded(bytes@) == Some(data@),
            Err(_) => zstd_decoded(bytes@) is None,
        },
{
    zstd::decode_all(bytes)
}

/// Sets up `tar::Archive::new` over `flate2::read::GzDecoder::new`. The
/// contract names what a scan of the archive will meet.
#[verifier::external_body]
pub(crate) fn open_tar_gz<'a>(bytes: &'a [u8]) -> (archive: TarGzArchive<'a>)
    ensures
        archive_items(&archive) == tar_gz_items(bytes@),
{
    TarGzArchive { inner: tar::Archive::new(flate2::read::GzDecoder::new(bytes)) }
}

/// Calls `tar::Archive::entries`. What is pending at the start is the whole
/// listing; an error here is the listing's one damaged place.
#[verifier::external_body]
pub(crate) fn tar_entries<'e, 'a>(archive: &'e mut TarGzArchive<'a>) -> (opened: Result<
    TarGzEntries<'e, 'a>,
    std::io::Error,
>)
    ensures
        match opened {
            Ok(entries) => pending_items(&entries) == archive_items(old(archive)),
            Err(_) => archive_items(old(archive)) == seq![Scanned::Damaged],
        },
{
    Ok(TarGzEntries { inner: archive.inner.entries()? })
}

/// Calls `next` on `tar::Entries`. It ends where nothing is pending; else it
/// hands out the first pending place, an error where that place is damaged,
/// and the rest stays pending.
#[verifier::external_body]
pub(crate) fn next_entry<'x, 'e, 'a>(entries: &'x mut TarGzEntries<'e, 'a>) -> (step: Option<
    Result<TarGzEntry<'x, 'e, 'a>, std::io::Error>,
>)
    ensures
        match step {
            None => pending_items(old(entries)).len() == 0,
            Some(met) => pending_items(old(entries)).len() > 0 && pending_items(final(entries))
                == pending_items(old(entries)).skip(1) && match met {
                Ok(entry) => entry_item(&entry) == pending_items(old(entries))[0],
                Err(_) => pending_items(old(entries))[0] is Damaged,
            },
        },
{
    match entries.inner.next() {
        Some(Ok(inner)) => Some(Ok(TarGzEntry { inner, turn: std::marker::PhantomData })),
        Some(Err(e)) => Some(Err(e)),
        None => None,
    }
}

/// Calls `tar::Entry::path_bytes`: an entry that was handed out is an entry
/// with this path.
#[verifier::external_body]
pub(crate) fn entry_path(entry: &TarGzEntry<'_, '_, '_>) -> (path: Vec<u8>)
    ensures
        (match entry_item(entry) {
            Scanned::Entry { name, .. } => name == EntryName::Path(path@),
            Scanned::Damaged => false,
        }),
{
    entry.inner.path_bytes().into_owned()
}

/// Reads bytes as text with `std::str::from_utf8`, which accepts them
/// exactly where they are UTF-8.
#[verifier::external_body]
pub(crate) fn utf8_text(bytes: &[u8]) -> (text: Option<&str>)
    ensures
        text is Some <==> valid_utf8(bytes@),
        text matches Some(read) ==> read@ == decode_utf8(bytes@),
{
    std::str::from_utf8(bytes).ok()
}

/// Reads an entry to its end with `std::io::Read::read_to_end`, which
/// `tar::Entry` implements. What comes is the entry's content; an error means
/// that the content cannot be read.
#[verifier::external_body]
pub(crate) fn read_entry(entry: &mut TarGzEntry<'_, '_, '_>) -> (read: Result<
    Vec<u8>,
    std::io::Error,
>)
    ensures
        entry_item(old(entry)) matches Scanned::Entry { content, .. } ==> match read {
            Ok(data) => content == Some(data@),
            Err(_) => content is None,
        },
{
    let mut data = Vec::new();
    std::io::Read::read_to_end(&mut entry.inner, &mut data)?;
    Ok(data)
}

/// Calls `zip::ZipArchive::new` on a `std::io::Cursor` over the bytes. An
/// error is the listing's one damaged place.
#[verifier::external_body]
pub(crate) fn open_zip<'a>(bytes: &'a [u8]) -> (opened: Result<
    zip::ZipArchive<std::io::Cursor<&'a [u8]>>,
    zip::result::ZipError,
>)
    ensures
        match opened {
            Ok(archive) => zip_contents(&archive) == zip_items(bytes@),
            Err(_) => zip_items(bytes@) == seq![Scanned::Damaged],
        },
{
    zip::ZipArchive::new(std::io::Cursor::new(bytes))
}

/// Calls `zip::ZipArchive::len`: the number of files.
#[verifier::external_body]
pub(crate) fn zip_len(archive: &zip::ZipArchive<std::io::Cursor<&[u8]>>) -> (count: usize)
    ensures
        count == zip_contents(archive).len(),
{
    archive.len()
}

/// Calls `zip::ZipArchive::by_index`. For a file of the archive it hands out
/// what the scan meets at that place, an error where the place is damaged.
/// The archive's listing stays as it is.
#[verifier::external_body]
pub(crate) fn zip_by_index<'e, 'a>(
    archive: &'e mut zip::ZipArchive<std::io::Cursor<&'a [u8]>>,
    index: usize,
) -> (opened: Result<ZipEntry<'e, 'a>, zip::result::ZipError>)
    ensures
        zip_contents(final(archive)) == zip_contents(old(archive)),
        index < zip_contents(old(archive)).len() ==> match opened {
            Ok(entry) => zip_entry_item(&entry) == zip_contents(old(archive))[index as int],
            Err(_) => zip_contents(old(archive))[index as int] is Damaged,
        },
{
    Ok(ZipEntry { inner: archive.by_index(index)? })
}

/// Calls `zip::read::ZipFile::name`: a file that was handed out is an entry
/// with this name.
#[verifier::external_body]
pub(crate) fn zip_entry_name(entry: &ZipEntry<'_, '_>) -> (entry_name: String)
    ensures
        (match zip_entry_item(entry) {
            Scanned::Entry { name, .. } => name == EntryName::Text(entry_name@),
            Scanned::Damaged => false,
        }),
{
    entry.inner.name().to_string()
}

/// Reads a file to its end with `std::io::Read::read_to_end`, which
/// `zip::read::ZipFile` implements. What comes is the entry's content; an
/// error means that the content cannot be read.
#[verifier::external_body]
pub(crate) fn read_zip_entry(entry: &mut ZipEntry<'_, '_>) -> (read: Result<
    Vec<u8>,
    std::io::Error,
>)
    ensures
        zip_entry_item(old(entry)) matches Scanned::Entry { content, .. } ==> match read {
            Ok(data) => content == Some(data@),
            Err(_) => content is None,
        },
{
    let mut data = Vec::new();
    std::io::Read::read_to_end(&mut entry.inner, &mut data)?;
    Ok(data)
}

} // verus!
