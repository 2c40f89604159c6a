//! Reading the first `.fbx` entry out of a zip archive held in memory.

use crate::error::{result_view, LoadError, LoadErrorView};
use crate::zip_reader::{
    archive_entries, entry_count, entry_data, entry_name, open_archive, zip_listing, Entry,
};
use vstd::prelude::*;
use vstd::string::*;

verus! {

/// Whether `name` ends in `.fbx`, the letters in either case.
pub open spec fn has_fbx_extension(name: Seq<char>) -> bool {
    let n = name.len() as int;
    &&& n >= 4
    &&& name[n - 4] == '.'
    &&& (name[n - 3] == 'f' || name[n - 3] == 'F')
    &&& (name[n - 2] == 'b' || name[n - 2] == 'B')
    &&& (name[n - 1] == 'x' || name[n - 1] == 'X')
}

/// Whether the scan stops at `entry`: it cannot be opened, or it is an `.fbx` entry.
pub open spec fn settles(entry: Entry) -> bool {
    match entry.name {
        Ok(name) => has_fbx_extension(name),
        Err(_) => true,
    }
}

/// The first position at or after `from` at which the scan stops, or the
/// number of entries if it stops nowhere.
pub open spec fn first_settled_from(entries: Seq<Entry>, from: int) -> int
    decreases entries.len() - from,
{
    if from < 0 || from >= entries.len() {
        entries.len() as int
    } else if settles(entries[from]) {
        from
    } else {
        first_settled_from(entries, from + 1)
    }
}

/// The first position at which the scan stops, or the number of entries if it
/// stops nowhere.
pub open spec fn first_settled(entries: Seq<Entry>) -> int {
    first_settled_from(entries, 0)
}

/// What the scan gives when it stops at `entry`, found at `index`.
pub open spec fn verdict(entry: Entry, index: int, location: Seq<char>) -> Result<
    Seq<u8>,
    LoadErrorView,
> {
    match entry.name {
        Err(why) => Err(
            LoadErrorView::EntryUnreadable { index: index as nat, location, detail: why },
        ),
        Ok(name) => match entry.data {
            Ok(bytes) => Ok(bytes),
            Err(why) => Err(LoadErrorView::FbxUnreadable { name, location, detail: why }),
        },
    }
}

/// What scanning `entries` for the first `.fbx` entry gives.
pub open spec fn first_fbx(entries: Seq<Entry>, location: Seq<char>) -> Result<
    Seq<u8>,
    LoadErrorView,
> {
    let k = first_settled(entries);
    if k < entries.len() {
        verdict(entries[k], k, location)
    } else {
        Err(LoadErrorView::NoFbxEntry { location })
    }
}

/// What extracting the first `.fbx` entry gives, for a file that lists as `listing`.
pub open spec fn extraction(listing: Result<Seq<Entry>, Seq<char>>, location: Seq<char>) -> Result<
    Seq<u8>,
    LoadErrorView,
> {
    match listing {
        Ok(entries) => first_fbx(entries, location),
        Err(why) => Err(LoadErrorView::ArchiveUnreadable { location, detail: why }),
    }
}

/// Whether `name` ends in `.fbx`, the letters in either case.
pub fn is_fbx_name(name: &str) -> (out: bool)
    ensures
        out == has_fbx_extension(name@),
{
    let n: usize = name.unicode_len();
    if n < 4 {
        return false;
    }
    let dot: char = name.get_char(n - 4);
    let f: char = name.get_char(n - 3);
    let b: char = name.get_char(n - 2);
    let x: char = name.get_char(n - 1);
    dot == '.' && (f == 'f' || f == 'F') && (b == 'b' || b == 'B') && (x == 'x' || x == 'X')
}

/// Returns the decompressed bytes of the first entry of `archive` whose name
/// ends in `.fbx`. Entries are taken in archive order; the scan fails at the
/// first entry that cannot be opened, and when no entry matches.
pub fn first_fbx_entry(
    archive: &mut zip::ZipArchive<std::io::Cursor<Vec<u8>>>,
    location: &str,
) -> (out: Result<Vec<u8>, LoadError>)
    ensures
        archive_entries(*final(archive)) == archive_entries(*old(archive)),
        result_view(out) == first_fbx(archive_entries(*old(archive)), location@),
{
    let count: usize = entry_count(archive);
    let mut index: usize = 0;
    while index < count
        invariant
            archive_entries(*archive) == archive_entries(*old(archive)),
            count == archive_entries(*archive).len(),
            index <= count,
            first_settled_from(archive_entries(*archive), index as int) == first_settled(
                archive_entries(*archive),
            ),
        decreases count - index,
    {
        match entry_name(archive, index) {
            Err(why) => {
                return Err(
                    LoadError::EntryUnreadable {
                        index,
                        location: String::from_str(location),
                        detail: why,
                    },
                );
            },
            Ok(name) => {
                if is_fbx_name(name.as_str()) {
                    return match entry_data(archive, index) {
                        Ok(bytes) => Ok(bytes),
                        Err(why) => Err(
                            LoadError::FbxUnreadable {
                                name,
                                location: String::from_str(location),
                                detail: why,
                            },
                        ),
                    };
                }
            },
        }
        index += 1;
    }
    Err(LoadError::NoFbxEntry { location: String::from_str(location) })
}

/// Lists `bytes` as a zip archive and returns the decompressed bytes of its
/// first `.fbx` entry. `location` is how the messages name the file.
pub fn read_zip_entry(bytes: Vec<u8>, location: &str) -> (out: Result<Vec<u8>, LoadError>)
    ensures
        result_view(out) == extraction(zip_listing(bytes@), location@),
{
    match open_archive(bytes) {
        Ok(mut archive) => first_fbx_entry(&mut archive, location),
        Err(why) => Err(
            LoadError::ArchiveUnreadable { location: String::from_str(location), detail: why },
        ),
    }
}

/// Whether `entry` can be opened and has a name that ends in `.fbx`.
pub open spec fn is_fbx_entry(entry: Entry) -> bool {
    match entry.name {
        Ok(name) => has_fbx_extension(name),
        Err(_) => false,
    }
}

/// The scan stops at position `k` when it stops at no position ahead of `k`
/// and stops at `k`.
pub proof fn lemma_first_settled(entries: Seq<Entry>, from: int, k: int)
    requires
        0 <= from <= k < entries.len(),
        forall|j: int| from <= j < k ==> !settles(#[trigger] entries[j]),
        settles(entries[k]),
    ensures
        first_settled_from(entries, from) == k,
    decreases k - from,
{
    if from < k {
        lemma_first_settled(entries, from + 1, k);
    }
}

/// The scan stops nowhere when it stops at no position from `from` on.
pub proof fn lemma_never_settled(entries: Seq<Entry>, from: int)
    requires
        0 <= from,
        forall|j: int| from <= j < entries.len() ==> !settles(#[trigger] entries[j]),
    ensures
        first_settled_from(entries, from) == entries.len(),
    decreases entries.len() - from,
{
    if from < entries.len() {
        lemma_never_settled(entries, from + 1);
    }
}

/// Where the scan stops from `from` on: at a position that settles it, with
/// none ahead that does, or nowhere.
pub proof fn lemma_first_settled_bounds(entries: Seq<Entry>, from: int)
    requires
        0 <= from <= entries.len(),
    ensures
        from <= first_settled_from(entries, from) <= entries.len(),
        first_settled_from(entries, from) < entries.len() ==> settles(
            entries[first_settled_from(entries, from)],
        ),
        forall|j: int|
            from <= j < first_settled_from(entries, from) ==> !settles(#[trigger] entries[j]),
    decreases entries.len() - from,
{
    if from < entries.len() && !settles(entries[from]) {
        lemma_first_settled_bounds(entries, from + 1);
    }
}

/// Bytes that the scan gives are the decompressed bytes of an `.fbx` entry of
/// the archive, and no entry ahead of that one is an `.fbx` entry.
pub proof fn lemma_bytes_are_first_fbx_entry(
    entries: Seq<Entry>,
    location: Seq<char>,
    bytes: Seq<u8>,
)
    requires
        first_fbx(entries, location) == Ok::<Seq<u8>, LoadErrorView>(bytes),
    ensures
        0 <= first_settled(entries) < entries.len(),
        is_fbx_entry(entries[first_settled(entries)]),
        entries[first_settled(entries)].data == Ok::<Seq<u8>, Seq<char>>(bytes),
        forall|j: int| 0 <= j < first_settled(entries) ==> !is_fbx_entry(#[trigger] entries[j]),
{
    lemma_first_settled_bounds(entries, 0);
}

/// Among several `.fbx` entries the first in archive order is the one taken:
/// when every entry ahead of it can be opened, the scan gives what reading
/// that entry alone gives, whatever follows it.
pub proof fn lemma_first_fbx_entry_wins(entries: Seq<Entry>, location: Seq<char>, k: int)
    requires
        0 <= k < entries.len(),
        is_fbx_entry(entries[k]),
        forall|j: int| 0 <= j < k ==> (#[trigger] entries[j]).name is Ok && !is_fbx_entry(entries[j]),
    ensures
        first_fbx(entries, location) == verdict(entries[k], k, location),
        entries[k].data is Ok ==> first_fbx(entries, location) == Ok::<Seq<u8>, LoadErrorView>(
            entries[k].data->Ok_0,
        ),
{
    lemma_first_settled(entries, 0, k);
}

/// With exactly one `.fbx` entry the scan gives that entry's decompressed
/// bytes, the same as reading it alone, provided that the entries ahead of it
/// can be opened and that it can be decompressed.
pub proof fn lemma_single_fbx_entry(entries: Seq<Entry>, location: Seq<char>, k: int)
    requires
        0 <= k < entries.len(),
        forall|j: int| 0 <= j < entries.len() ==> (is_fbx_entry(#[trigger] entries[j]) <==> j == k),
        forall|j: int| 0 <= j < k ==> (#[trigger] entries[j]).name is Ok,
        entries[k].data is Ok,
    ensures
        first_fbx(entries, location) == Ok::<Seq<u8>, LoadErrorView>(entries[k].data->Ok_0),
{
    lemma_first_fbx_entry_wins(entries, location, k);
}

/// Without any `.fbx` entry the scan fails for want of one, provided that
/// every entry can be opened; the message says so and names the file.
pub proof fn lemma_no_fbx_entry(entries: Seq<Entry>, location: Seq<char>)
    requires
        forall|j: int|
            0 <= j < entries.len() ==> (#[trigger] entries[j]).name is Ok && !is_fbx_entry(
                entries[j],
            ),
    ensures
        first_fbx(entries, location) is Err,
        first_fbx(entries, location)->Err_0 == (LoadErrorView::NoFbxEntry { location }),
        (LoadErrorView::NoFbxEntry { location }).message() == "No .fbx entry found in zip "@
            + location,
{
    lemma_never_settled(entries, 0);
}

/// A file that does not list as a zip archive gives the archive error with the
/// listing's report, and never any bytes.
pub proof fn lemma_unlistable_file(listing: Result<Seq<Entry>, Seq<char>>, location: Seq<char>)
    requires
        listing is Err,
    ensures
        extraction(listing, location) is Err,
        extraction(listing, location)->Err_0 == (LoadErrorView::ArchiveUnreadable {
            location,
            detail: listing->Err_0,
        }),
{
}

} // verus!
