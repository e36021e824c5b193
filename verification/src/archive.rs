//! ZIP archives, read through the `zip` crate. The crate's types are carried
//! through as they are; what they hold is named here, and every contract in
//! this file is a statement about the crate that is believed, not proved.

use vstd::prelude::*;

verus! {

/// `zip::ZipArchive`, an open archive. Nothing of its inside is known here.
#[verifier::external_type_specification]
#[verifier::external_body]
#[verifier::reject_recursive_types(R)]
pub struct ExZipArchive<R>(zip::ZipArchive<R>);

/// `std::io::Cursor`, over which an archive reads its bytes.
#[verifier::external_type_specification]
#[verifier::external_body]
#[verifier::reject_recursive_types(T)]
pub struct ExCursor<T>(std::io::Cursor<T>);

/// `zip::read::ZipFile`, an open entry of an archive.
#[verifier::external_type_specification]
#[verifier::external_body]
pub struct ExZipFile<'a>(zip::read::ZipFile<'a>);

/// The bytes that an open archive reads.
pub uninterp spec fn archive_source(archive: zip::ZipArchive<std::io::Cursor<&[u8]>>) -> Seq<u8>;

/// The error with which `ZipArchive::new` refuses `bytes`, in its `Debug`
/// form; none where it opens them.
pub uninterp spec fn archive_error(bytes: Seq<u8>) -> Option<Seq<char>>;

/// The number of entries that `ZipArchive::len` reports of the archive in `bytes`.
pub uninterp spec fn entry_count(bytes: Seq<u8>) -> nat;

/// The error with which `ZipArchive::by_name` refuses `name` in the archive
/// in `bytes`, in its `Debug` form; none where it finds and opens the entry.
pub uninterp spec fn entry_error(bytes: Seq<u8>, name: Seq<char>) -> Option<Seq<char>>;

/// What reading the entry `name` of the archive in `bytes` to a string
/// gives: its text, or the error in its `Debug` form.
pub uninterp spec fn entry_text(bytes: Seq<u8>, name: Seq<char>) -> Result<Seq<char>, Seq<char>>;

/// The name of entry `index` of the archive in `bytes`, where
/// `ZipArchive::by_index` opens that entry.
pub uninterp spec fn entry_name_at(bytes: Seq<u8>, index: int) -> Option<Seq<char>>;

/// What reading an open entry to a string gives.
pub uninterp spec fn file_text(file: zip::read::ZipFile) -> Result<Seq<char>, Seq<char>>;

/// The view of a text that was read, or of the error that came instead.
pub open spec fn text_view(read: Result<String, String>) -> Result<Seq<char>, Seq<char>> {
    match read {
        Ok(text) => Ok(text@),
        Err(error) => Err(error@),
    }
}

/// The view of a name that may be absent.
pub open spec fn name_view(name: Option<String>) -> Option<Seq<char>> {
    match name {
        Some(text) => Some(text@),
        None => None,
    }
}

/// Opens `bytes` as an archive with `zip::ZipArchive::new`, on a cursor over
/// them. The contract claims that the outcome depends on the bytes alone: the
/// archive reads these bytes, or the error is the one named for them.
#[verifier::external_body]
pub(crate) fn open_archive(bytes: &[u8]) -> (r: Result<
    zip::ZipArchive<std::io::Cursor<&[u8]>>,
    String,
>)
    ensures
        match r {
            Ok(archive) => archive_error(bytes@) is None && archive_source(archive) == bytes@,
            Err(error) => archive_error(bytes@) == Some(error@),
        },
{
    zip::ZipArchive::new(std::io::Cursor::new(bytes)).map_err(|e| format!("{:?}", e))
}

/// The number of entries, by `zip::ZipArchive::len`. The contract claims that
/// it depends on the bytes of the archive alone.
#[verifier::external_body]
pub(crate) fn archive_len(archive: &zip::ZipArchive<std::io::Cursor<&[u8]>>) -> (r: usize)
    ensures
        r == entry_count(archive_source(*archive)),
{
    archive.len()
}

/// Opens the entry `name` with `zip::ZipArchive::by_name`. The contract
/// claims that the archive still reads the same bytes afterwards, and that
/// the outcome depends on those bytes and the name alone: the entry, whose
/// text is the one named for them, or the error named for them.
#[verifier::external_body]
pub(crate) fn entry_by_name<'a>(
    archive: &'a mut zip::ZipArchive<std::io::Cursor<&[u8]>>,
    name: &str,
) -> (r: Result<zip::read::ZipFile<'a>, String>)
    ensures
        archive_source(*final(archive)) == archive_source(*old(archive)),
        match r {
            Ok(file) => entry_error(archive_source(*old(archive)), name@) is None && file_text(file)
                == entry_text(archive_source(*old(archive)), name@),
            Err(error) => entry_error(archive_source(*old(archive)), name@) == Some(error@),
        },
{
    archive.by_name(name).map_err(|e| format!("{:?}", e))
}

/// The name of entry `index`, by `zip::ZipArchive::by_index` and
/// `ZipFile::name`; none where the entry cannot be opened. The contract
/// claims that the archive still reads the same bytes afterwards and that
/// the outcome depends on those bytes and the index alone.
#[verifier::external_body]
pub(crate) fn entry_name_by_index(
    archive: &mut zip::ZipArchive<std::io::Cursor<&[u8]>>,
    index: usize,
) -> (r: Option<String>)
    ensures
        archive_source(*final(archive)) == archive_source(*old(archive)),
        name_view(r) == entry_name_at(archive_source(*old(archive)), index as int),
{
    archive.by_index(index).ok().map(|file| file.name().to_owned())
}

/// Reads an open entry to its end with `std::io::Read::read_to_string`, which
/// for this type inflates the entry and checks that it is UTF-8. The contract
/// claims that the outcome is the one named for the entry: its text, or the
/// error in its `Debug` form.
#[verifier::external_body]
pub(crate) fn read_text(file: &mut zip::read::ZipFile) -> (r: Result<String, String>)
    ensures
        text_view(r) == file_text(*old(file)),
{
    let mut text = String::new();
    match std::io::Read::read_to_string(file, &mut text) {
        Ok(_) => Ok(text),
        Err(e) => Err(format!("{:?}", e)),
    }
}

} // verus!
