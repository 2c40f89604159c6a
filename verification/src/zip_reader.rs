//! The boundary to the `zip` crate. What stands here is believed, not proved:
//! the two names say what an archive holds, and each function says over them
//! what one call into the crate gives.

use vstd::prelude::*;

verus! {

/// `std::io::Cursor`, the reader over bytes in memory that an archive is
/// opened on. Nothing is known of what is inside it.
#[verifier::external_type_specification]
#[verifier::external_body]
#[verifier::reject_recursive_types(T)]
pub struct ExCursor<T>(std::io::Cursor<T>);

/// `zip::ZipArchive`, an open archive. What it holds is known only through
/// [`archive_entries`].
#[verifier::external_type_specification]
#[verifier::external_body]
#[verifier::reject_recursive_types(R)]
pub struct ExZipArchive<R>(zip::ZipArchive<R>);

/// What an archive holds at one position: what opening the entry there and
/// reading it to its end give.
pub struct Entry {
    /// The entry's name, or what was reported when the entry could not be opened.
    pub name: Result<Seq<char>, Seq<char>>,
    /// The entry's decompressed bytes, or what was reported when they could not be read.
    pub data: Result<Seq<u8>, Seq<char>>,
}

/// The entries of an open archive, in the order in which the archive
/// enumerates them. Reading from the archive does not change them.
pub uninterp spec fn archive_entries(archive: zip::ZipArchive<std::io::Cursor<Vec<u8>>>) -> Seq<Entry>;

/// What listing `bytes` as a zip archive gives: its entries, or the report of
/// why it cannot be listed. The same bytes always list the same.
pub uninterp spec fn zip_listing(bytes: Seq<u8>) -> Result<Seq<Entry>, Seq<char>>;

/// Opens `bytes` as a zip archive with `zip::ZipArchive::new`, over a cursor.
///
/// Trusted: the archive opens exactly when `zip_listing` has entries for
/// `bytes`, and then holds those entries; otherwise the text of the error
/// that came back is the listing's report.
#[verifier::external_body]
pub(crate) fn open_archive(bytes: Vec<u8>) -> (out: Result<zip::ZipArchive<std::io::Cursor<Vec<u8>>>, String>)
    ensures
        match out {
            Ok(archive) => zip_listing(bytes@) == Ok::<Seq<Entry>, Seq<char>>(
                archive_entries(archive),
            ),
            Err(why) => zip_listing(bytes@) == Err::<Seq<Entry>, Seq<char>>(why@),
        },
{
    match zip::ZipArchive::new(std::io::Cursor::new(bytes)) {
        Ok(archive) => Ok(archive),
        Err(e) => Err(e.to_string()),
    }
}

/// The number of entries, from `zip::ZipArchive::len`.
///
/// Trusted: it is the number of entries that the archive holds.
#[verifier::external_body]
pub(crate) fn entry_count(archive: &zip::ZipArchive<std::io::Cursor<Vec<u8>>>) -> (out: usize)
    ensures
        out == archive_entries(*archive).len(),
{
    archive.len()
}

/// Opens the entry at `index` with `zip::ZipArchive::by_index` and asks its
/// name with `zip::read::ZipFile::name`.
///
/// Trusted: what comes back is the `name` of that entry, the text of the
/// error standing for a failure of either call; the archive holds what it held.
#[verifier::external_body]
pub(crate) fn entry_name(archive: &mut zip::ZipArchive<std::io::Cursor<Vec<u8>>>, index: usize) -> (out:
    Result<String, String>)
    requires
        index < archive_entries(*old(archive)).len(),
    ensures
        archive_entries(*final(archive)) == archive_entries(*old(archive)),
        match out {
            Ok(name) => archive_entries(*old(archive))[index as int].name == Ok::<
                Seq<char>,
                Seq<char>,
            >(name@),
            Err(why) => archive_entries(*old(archive))[index as int].name == Err::<
                Seq<char>,
                Seq<char>,
            >(why@),
        },
{
    match archive.by_index(index) {
        Ok(entry) => match entry.name() {
            Ok(name) => Ok(name.into_owned()),
            Err(e) => Err(e.to_string()),
        },
        Err(e) => Err(e.to_string()),
    }
}

/// Opens the entry at `index` with `zip::ZipArchive::by_index` and reads it to
/// its end with `std::io::Read::read_to_end`.
///
/// Trusted: what comes back is the `data` of that entry, the text of the
/// error standing for a failure of either call, and never a part of the
/// bytes; the archive holds what it held.
#[verifier::external_body]
pub(crate) fn entry_data(archive: &mut zip::ZipArchive<std::io::Cursor<Vec<u8>>>, index: usize) -> (out:
    Result<Vec<u8>, String>)
    requires
        index < archive_entries(*old(archive)).len(),
    ensures
        archive_entries(*final(archive)) == archive_entries(*old(archive)),
        match out {
            Ok(bytes) => archive_entries(*old(archive))[index as int].data == Ok::<
                Seq<u8>,
                Seq<char>,
            >(bytes@),
            Err(why) => archive_entries(*old(archive))[index as int].data == Err::<
                Seq<u8>,
                Seq<char>,
            >(why@),
        },
{
    let mut bytes = Vec::new();
    match archive.by_index(index) {
        Ok(mut entry) => match std::io::Read::read_to_end(&mut entry, &mut bytes) {
            Ok(_) => Ok(bytes),
            Err(e) => Err(e.to_string()),
        },
        Err(e) => Err(e.to_string()),
    }
}

} // verus!
