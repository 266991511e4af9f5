//! Taking the executable out of a downloaded asset. The asset's name tells
//! its format: a bare zstd stream, a gzip-compressed tar archive, or a zip
//! archive. The formats themselves are read by the crates `zstd`, `flate2`,
//! `tar` and `zip`; what is decided here is which entry of an archive is
//! the executable and what a failure along the way means.

use vstd::prelude::*;
use vstd::utf8::decode_utf8;
use vstd::utf8::valid_utf8;
use crate::archive::readers::entry_path;
use crate::archive::readers::next_entry;
use crate::archive::readers::open_tar_gz;
use crate::archive::readers::open_zip;
use crate::archive::readers::pending_items;
use crate::archive::readers::read_entry;
use crate::archive::readers::read_zip_entry;
use crate::archive::readers::tar_entries;
use crate::archive::readers::tar_gz_items;
use crate::archive::readers::utf8_text;
use crate::archive::readers::zip_by_index;
use crate::archive::readers::zip_contents;
use crate::archive::readers::zip_entry_name;
use crate::archive::readers::zip_items;
use crate::archive::readers::zip_len;
use crate::archive::readers::zstd_decode;
use crate::archive::readers::zstd_decoded;
use crate::error::UpdateError;

pub mod readers;
use crate::text::chars_of;
use crate::text::ends_with;
use crate::text::same_text;
use crate::text::starts_with;

verus! {

/// Name of the executable.
pub const BINARY_NAME: &'static str = "codex";

/// How the name of an executable built for one platform begins.
pub const BINARY_NAME_STEM: &'static str = "codex-";

/// Name of the executable in a zip archive.
pub const ZIPPED_BINARY_NAME: &'static str = "codex.exe";

/// Suffix of an asset that is a bare zstd stream.
pub const ZSTD_SUFFIX: &'static str = ".zst";

/// Suffix of an asset that is a gzip-compressed tar archive.
pub const TAR_GZ_SUFFIX: &'static str = ".tar.gz";

/// Suffix of an asset that is a zip archive.
pub const ZIP_SUFFIX: &'static str = ".zip";

/// The byte that parts the components of a path.
pub const SLASH: u8 = 0x2f;

/// The byte of a dot.
pub const DOT: u8 = 0x2e;

/// The name that an entry of an archive is judged by.
pub enum EntryName {
    /// The path of an entry of a tar archive, as the bytes that the archive
    /// holds.
    Path(Seq<u8>),
    /// The name of a file of a zip archive.
    Text(Seq<char>),
}

/// What a scan meets at one place of an archive.
pub enum Scanned {
    /// The archive cannot be read here.
    Damaged,
    /// An entry with its name. `content` is what the entry holds, where that
    /// can be read.
    Entry { name: EntryName, content: Option<Seq<u8>> },
}

/// Where the component of a path that ends before `end` begins: behind the
/// last slash before `end`, or at the start.
pub open spec fn part_start(path: Seq<u8>, end: int) -> int
    decreases end,
{
    if end <= 0 {
        0
    } else if path[end - 1] == SLASH {
        end
    } else {
        part_start(path, end - 1)
    }
}

/// A component of a path begins within the path and before its end.
pub proof fn lemma_part_start_bounds(path: Seq<u8>, end: int)
    requires
        0 <= end,
    ensures
        0 <= part_start(path, end) <= end,
    decreases end,
{
    if end > 0 && path[end - 1] != SLASH {
        lemma_part_start_bounds(path, end - 1);
    }
}

/// The file name of the part of a path before `end`: the last component
/// that is neither empty nor a single dot. There is none where that
/// component is `..`, and none where there is no such component.
pub open spec fn file_name_before(path: Seq<u8>, end: int) -> Option<Seq<u8>>
    recommends
        0 <= end <= path.len(),
    decreases end,
{
    if end <= 0 {
        None
    } else {
        let start = part_start(path, end);
        let part = path.subrange(start, end);
        if part.len() == 0 || part == seq![DOT] {
            if start <= 0 {
                None
            } else {
                proof {
                    lemma_part_start_bounds(path, end);
                }
                file_name_before(path, start - 1)
            }
        } else if part == seq![DOT, DOT] {
            None
        } else {
            Some(part)
        }
    }
}

/// No slash stands in a component of a path.
pub proof fn lemma_part_has_no_slash(path: Seq<u8>, end: int)
    requires
        0 <= end <= path.len(),
    ensures
        !path.subrange(part_start(path, end), end).contains(SLASH),
    decreases end,
{
    lemma_part_start_bounds(path, end);
    if end > 0 && path[end - 1] != SLASH {
        lemma_part_has_no_slash(path, end - 1);
        lemma_part_start_bounds(path, end - 1);
    }
}

/// A file name is a component of its path: it is not empty, holds no slash,
/// and is neither `.` nor `..`.
pub proof fn lemma_file_name_is_a_component(path: Seq<u8>, end: int)
    requires
        0 <= end <= path.len(),
    ensures
        file_name_before(path, end) matches Some(file_name) ==> file_name.len() > 0
            && !file_name.contains(SLASH) && file_name != seq![DOT] && file_name != seq![
            DOT,
            DOT,
        ],
    decreases end,
{
    if end > 0 {
        lemma_part_start_bounds(path, end);
        lemma_part_has_no_slash(path, end);
        let start = part_start(path, end);
        let part = path.subrange(start, end);
        if (part.len() == 0 || part == seq![DOT]) && start > 0 {
            lemma_file_name_is_a_component(path, start - 1);
        }
    }
}

/// The file name of a path, as paths are read on POSIX: `bin/codex` and
/// `bin/codex/` and `bin/codex/.` are all named `codex`; `bin/..`, `/` and
/// the empty path have no name.
pub open spec fn file_name_of(path: Seq<u8>) -> Option<Seq<u8>> {
    file_name_before(path, path.len() as int)
}

/// Where the last part of a name begins: behind the last slash before `end`,
/// or at the start.
pub open spec fn base_start(name: Seq<char>, end: int) -> int
    decreases end,
{
    if end <= 0 {
        0
    } else if name[end - 1] == '/' {
        end
    } else {
        base_start(name, end - 1)
    }
}

/// The last part of a name: what follows its last slash, or all of it.
pub open spec fn base_name(name: Seq<char>) -> Seq<char> {
    name.skip(base_start(name, name.len() as int))
}

/// The last part of a name ends the name, holds no slash, and has a slash
/// before it unless it is the whole name.
pub proof fn lemma_base_name_follows_last_slash(name: Seq<char>, end: int)
    requires
        0 <= end <= name.len(),
    ensures
        0 <= base_start(name, end) <= end,
        !name.subrange(base_start(name, end), end).contains('/'),
        base_start(name, end) > 0 ==> name[base_start(name, end) - 1] == '/',
    decreases end,
{
    if end > 0 && name[end - 1] != '/' {
        lemma_base_name_follows_last_slash(name, end - 1);
    }
}

/// Whether a file of this name in a tar archive is the executable: the name
/// is `codex` or begins with `codex-`.
pub open spec fn is_binary_file_name(file_name: Seq<char>) -> bool {
    file_name == BINARY_NAME@ || BINARY_NAME_STEM@.is_prefix_of(file_name)
}

/// Whether a file of this name in a zip archive is the executable: the last
/// part of the name is `codex.exe` or begins with `codex-`.
pub open spec fn is_zipped_binary_name(name: Seq<char>) -> bool {
    base_name(name) == ZIPPED_BINARY_NAME@ || BINARY_NAME_STEM@.is_prefix_of(base_name(name))
}

/// Whether an entry with this name is the executable. An entry of a tar
/// archive is judged by the file name of its path, which has to be UTF-8; a
/// file of a zip archive by the last part of its name.
pub open spec fn names_binary(name: EntryName) -> bool {
    match name {
        EntryName::Path(path) => match file_name_of(path) {
            Some(file_name) => valid_utf8(file_name) && is_binary_file_name(
                decode_utf8(file_name),
            ),
            None => false,
        },
        EntryName::Text(text) => is_zipped_binary_name(text),
    }
}

/// What a scan from place `from` on gives: the content of the first entry
/// that is named like the executable. The scan fails where it meets damage
/// before such an entry, where that entry cannot be read, and where the
/// archive ends without one.
pub open spec fn scan_from(items: Seq<Scanned>, from: int) -> Result<Seq<u8>, UpdateError>
    decreases items.len() - from,
{
    if from < 0 || from >= items.len() {
        Err(UpdateError::BinaryNotFoundInArchive)
    } else {
        match items[from] {
            Scanned::Damaged => Err(UpdateError::CorruptArchive),
            Scanned::Entry { name, content } => if names_binary(name) {
                match content {
                    Some(bytes) => Ok(bytes),
                    None => Err(UpdateError::CorruptArchive),
                }
            } else {
                scan_from(items, from + 1)
            },
        }
    }
}

/// What an extraction gave, as a sequence of bytes.
pub open spec fn extracted_view(extracted: Result<Vec<u8>, UpdateError>) -> Result<
    Seq<u8>,
    UpdateError,
> {
    match extracted {
        Ok(bytes) => Ok(bytes@),
        Err(e) => Err(e),
    }
}

/// What a slice that may be absent holds.
pub open spec fn bytes_of(bytes: Option<&[u8]>) -> Option<Seq<u8>> {
    match bytes {
        Some(bytes) => Some(bytes@),
        None => None,
    }
}

/// Takes the file name out of a path.
pub fn path_file_name(path: &[u8]) -> (file_name: Option<&[u8]>)
    ensures
        bytes_of(file_name) == file_name_of(path@),
{
    let mut end: usize = path.len();
    while end > 0
        invariant
            end <= path.len(),
            file_name_of(path@) == file_name_before(path@, end as int),
        decreases end,
    {
        let mut start: usize = end;
        while start > 0 && path[start - 1] != SLASH
            invariant
                start <= end <= path.len(),
                part_start(path@, end as int) == part_start(path@, start as int),
            decreases start,
        {
            start = start - 1;
        }
        let part = &path[start..end];
        let empty = part.len() == 0;
        let dot = part.len() == 1 && part[0] == DOT;
        let dots = part.len() == 2 && part[0] == DOT && part[1] == DOT;
        assert(dot == (part@ == seq![DOT])) by {
            if dot {
                assert(part@ =~= seq![DOT]);
            }
        }
        assert(dots == (part@ == seq![DOT, DOT])) by {
            if dots {
                assert(part@ =~= seq![DOT, DOT]);
            }
        }
        if dots {
            return None;
        }
        if !empty && !dot {
            return Some(part);
        }
        if start == 0 {
            return None;
        }
        end = start - 1;
    }
    None
}

/// Whether a file of this name in a tar archive is the executable.
pub fn is_tar_binary_name(file_name: &str) -> (wanted: bool)
    ensures
        wanted == is_binary_file_name(file_name@),
{
    let name = chars_of(file_name);
    let exact = chars_of(BINARY_NAME);
    let stem = chars_of(BINARY_NAME_STEM);
    same_text(name.as_slice(), exact.as_slice()) || starts_with(name.as_slice(), stem.as_slice())
}

/// Whether an entry of a tar archive with this path is the executable.
pub fn is_tar_binary_path(path: &[u8]) -> (wanted: bool)
    ensures
        wanted == names_binary(EntryName::Path(path@)),
{
    match path_file_name(path) {
        Some(file_name) => match utf8_text(file_name) {
            Some(text) => is_tar_binary_name(text),
            None => false,
        },
        None => false,
    }
}

/// Whether a file of a zip archive with this name is the executable.
pub fn is_zip_binary_name(entry_name: &str) -> (wanted: bool)
    ensures
        wanted == names_binary(EntryName::Text(entry_name@)),
{
    let name = chars_of(entry_name);
    let mut start: usize = name.len();
    while start > 0 && name[start - 1] != '/'
        invariant
            start <= name.len(),
            base_start(name@, name.len() as int) == base_start(name@, start as int),
        decreases start,
    {
        start = start - 1;
    }
    let base = &name.as_slice()[start..name.len()];
    let exact = chars_of(ZIPPED_BINARY_NAME);
    let stem = chars_of(BINARY_NAME_STEM);
    same_text(base, exact.as_slice()) || starts_with(base, stem.as_slice())
}

/// Takes the executable out of a gzip-compressed tar archive: the content of
/// the first entry whose file name is `codex` or begins with `codex-`.
pub fn extract_tar_gz(bytes: &[u8]) -> (extracted: Result<Vec<u8>, UpdateError>)
    ensures
        extracted_view(extracted) == scan_from(tar_gz_items(bytes@), 0),
{
    let ghost items = tar_gz_items(bytes@);
    let mut archive = open_tar_gz(bytes);
    let mut entries = match tar_entries(&mut archive) {
        Ok(entries) => entries,
        Err(_) => {
            return Err(UpdateError::CorruptArchive);
        },
    };
    let ghost mut met: int = 0;
    loop
        invariant
            items == tar_gz_items(bytes@),
            0 <= met <= items.len(),
            pending_items(&entries) == items.skip(met),
            scan_from(items, 0) == scan_from(items, met),
        decreases pending_items(&entries).len(),
    {
        match next_entry(&mut entries) {
            None => {
                return Err(UpdateError::BinaryNotFoundInArchive);
            },
            Some(Err(_)) => {
                return Err(UpdateError::CorruptArchive);
            },
            Some(Ok(mut entry)) => {
                let path = entry_path(&entry);
                if is_tar_binary_path(path.as_slice()) {
                    return match read_entry(&mut entry) {
                        Ok(data) => Ok(data),
                        Err(_) => Err(UpdateError::CorruptArchive),
                    };
                }
            },
        }
        proof {
            met = met + 1;
        }
    }
}

/// Takes the executable out of a zip archive: the content of the first file
/// whose name, after its last slash, is `codex.exe` or begins with `codex-`.
pub fn extract_zip(bytes: &[u8]) -> (extracted: Result<Vec<u8>, UpdateError>)
    ensures
        extracted_view(extracted) == scan_from(zip_items(bytes@), 0),
{
    let ghost items = zip_items(bytes@);
    let mut archive = match open_zip(bytes) {
        Ok(archive) => archive,
        Err(_) => {
            return Err(UpdateError::CorruptArchive);
        },
    };
    let count = zip_len(&archive);
    let mut index: usize = 0;
    while index < count
        invariant
            items == zip_items(bytes@),
            index <= count,
            count == items.len(),
            zip_contents(&archive) == items,
            scan_from(items, 0) == scan_from(items, index as int),
        decreases count - index,
    {
        let mut entry = match zip_by_index(&mut archive, index) {
            Ok(entry) => entry,
            Err(_) => {
                return Err(UpdateError::CorruptArchive);
            },
        };
        let entry_name = zip_entry_name(&entry);
        if is_zip_binary_name(entry_name.as_str()) {
            return match read_zip_entry(&mut entry) {
                Ok(data) => Ok(data),
                Err(_) => Err(UpdateError::CorruptArchive),
            };
        }
        index = index + 1;
    }
    Err(UpdateError::BinaryNotFoundInArchive)
}

/// What taking the executable out of an asset gives, by the asset's name:
/// a name that ends in `.zst` has the bytes decompressed as one zstd stream,
/// which is the executable; one that ends in `.tar.gz` or in `.zip` has the
/// archive scanned for the executable; any other name is refused.
pub open spec fn extraction_of(bytes: Seq<u8>, asset_name: Seq<char>) -> Result<
    Seq<u8>,
    UpdateError,
> {
    if ZSTD_SUFFIX@.is_suffix_of(asset_name) {
        match zstd_decoded(bytes) {
            Some(data) => Ok(data),
            None => Err(UpdateError::CorruptArchive),
        }
    } else if TAR_GZ_SUFFIX@.is_suffix_of(asset_name) {
        scan_from(tar_gz_items(bytes), 0)
    } else if ZIP_SUFFIX@.is_suffix_of(asset_name) {
        scan_from(zip_items(bytes), 0)
    } else {
        Err(UpdateError::UnsupportedAssetFormat)
    }
}

/// Takes the executable out of the bytes of an asset.
pub fn extract_binary(bytes: &[u8], asset_name: &str) -> (extracted: Result<Vec<u8>, UpdateError>)
    ensures
        extracted_view(extracted) == extraction_of(bytes@, asset_name@),
{
    let name = chars_of(asset_name);
    let zstd_suffix = chars_of(ZSTD_SUFFIX);
    let tar_gz_suffix = chars_of(TAR_GZ_SUFFIX);
    let zip_suffix = chars_of(ZIP_SUFFIX);
    if ends_with(name.as_slice(), zstd_suffix.as_slice()) {
        match zstd_decode(bytes) {
            Ok(data) => Ok(data),
            Err(_) => Err(UpdateError::CorruptArchive),
        }
    } else if ends_with(name.as_slice(), tar_gz_suffix.as_slice()) {
        extract_tar_gz(bytes)
    } else if ends_with(name.as_slice(), zip_suffix.as_slice()) {
        extract_zip(bytes)
    } else {
        Err(UpdateError::UnsupportedAssetFormat)
    }
}

/// An archive in which no place is damaged and no entry is named like the
/// executable does not yield one: the scan ends at the end of the archive.
pub proof fn lemma_scan_without_match(items: Seq<Scanned>, from: int)
    requires
        0 <= from,
        forall|k: int|
            from <= k < items.len() ==> (#[trigger] items[k] matches Scanned::Entry { name, .. }
                && !names_binary(name)),
    ensures
        scan_from(items, from) == Err::<Seq<u8>, UpdateError>(UpdateError::BinaryNotFoundInArchive),
    decreases items.len() - from,
{
    if from < items.len() {
        lemma_scan_without_match(items, from + 1);
    }
}

/// The scan yields the content of the first entry that is named like the
/// executable, where nothing before it is damaged and its content can be
/// read.
pub proof fn lemma_scan_first_match(items: Seq<Scanned>, from: int, at: int)
    requires
        0 <= from <= at < items.len(),
        forall|k: int|
            from <= k < at ==> (#[trigger] items[k] matches Scanned::Entry { name, .. }
                && !names_binary(name)),
        items[at] matches Scanned::Entry { name, content } && names_binary(name) && content
            is Some,
    ensures
        scan_from(items, from) == Ok::<Seq<u8>, UpdateError>(items[at]->content.unwrap()),
    decreases at - from,
{
    if from < at {
        lemma_scan_first_match(items, from + 1, at);
    }
}

} // verus!
