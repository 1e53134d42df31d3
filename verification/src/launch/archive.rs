//! Jars as zip archives: what they hold, as the `zip` crate reads it.

use std::io::{Cursor, Read};

use vstd::prelude::*;
use zip::result::ZipError;
use zip::ZipArchive;

verus! {

/// An archive of the `zip` crate, over whatever its bytes are read from.
#[verifier::external_type_specification]
#[verifier::external_body]
#[verifier::reject_recursive_types(R)]
pub struct ExZipArchive<R>(zip::ZipArchive<R>);

/// What the `zip` crate reports of an archive that it cannot read.
#[verifier::external_type_specification]
#[verifier::external_body]
pub struct ExZipError(zip::result::ZipError);

/// Bytes in memory, read like a file.
#[verifier::external_type_specification]
#[verifier::external_body]
#[verifier::reject_recursive_types(T)]
pub struct ExCursor<T>(std::io::Cursor<T>);

/// What a reader reports of bytes that it cannot read.
#[verifier::external_type_specification]
#[verifier::external_body]
pub struct ExIoError(std::io::Error);

/// One entry of a jar. Its bytes are an error where they could not be unpacked.
pub struct Entry {
    pub name: String,
    pub is_dir: bool,
    pub data: Result<Vec<u8>, std::io::Error>,
}

/// What an [`Entry`] says.
pub struct EntryText {
    pub name: Seq<char>,
    pub is_dir: bool,
    pub data: Option<Seq<u8>>,
}

/// What an entry says; nothing where the entry could not be opened.
pub open spec fn entry_text(e: Result<Entry, ZipError>) -> Option<EntryText> {
    match e {
        Ok(e) => Some(
            EntryText {
                name: e.name@,
                is_dir: e.is_dir,
                data: match e.data {
                    Ok(d) => Some(d@),
                    Err(_) => None,
                },
            },
        ),
        Err(_) => None,
    }
}

/// What a row of entries says.
pub open spec fn entry_texts(entries: Seq<Result<Entry, ZipError>>) -> Seq<Option<EntryText>> {
    entries.map_values(|e: Result<Entry, ZipError>| entry_text(e))
}

/// Whether a name in an archive is that of a directory: it ends in a slash of either kind.
pub open spec fn names_directory(name: Seq<char>) -> bool {
    name.len() > 0 && (name.last() == '/' || name.last() == '\\')
}

/// An entry by its name and its unpacked bytes.
pub open spec fn stored_text(e: Option<(Seq<char>, Option<Seq<u8>>)>) -> Option<EntryText> {
    match e {
        Some((name, data)) => Some(
            EntryText { name, is_dir: names_directory(name), data },
        ),
        None => None,
    }
}

/// The entries of an open archive in the order of its directory, each by its name and its
/// unpacked bytes. An entry that cannot be opened is nothing, and so are bytes that cannot be
/// unpacked.
pub uninterp spec fn archive_entries(archive: ZipArchive<Cursor<Vec<u8>>>) -> Seq<
    Option<(Seq<char>, Option<Seq<u8>>)>,
>;

/// The entries of the archive that the given bytes are; nothing where they are no archive.
pub uninterp spec fn zip_entries(jar: Seq<u8>) -> Option<
    Seq<Option<(Seq<char>, Option<Seq<u8>>)>>,
>;

/// Calls `zip::ZipArchive::new` on bytes in memory. Whether they open as an archive, and what
/// it then holds, is taken to depend on the bytes alone.
#[verifier::external_body]
fn open_archive(jar: Vec<u8>) -> (r: Result<ZipArchive<Cursor<Vec<u8>>>, ZipError>)
    ensures
        match r {
            Ok(a) => zip_entries(jar@) == Some(archive_entries(a)),
            Err(_) => zip_entries(jar@) is None,
        },
{
    ZipArchive::new(Cursor::new(jar))
}

/// Calls `zip::ZipArchive::len`, the number of the archive's entries.
#[verifier::external_body]
fn entry_count(archive: &ZipArchive<Cursor<Vec<u8>>>) -> (n: usize)
    ensures
        n == archive_entries(*archive).len(),
{
    archive.len()
}

/// Calls `zip::ZipArchive::by_index`, and of the entry that it opens takes the name, whether it
/// is a directory (which goes by the name) and all of the bytes. Reading an entry is taken to
/// leave the archive's entries as they are.
#[verifier::external_body]
fn read_entry(archive: &mut ZipArchive<Cursor<Vec<u8>>>, index: usize) -> (r: Result<
    Entry,
    ZipError,
>)
    requires
        index < archive_entries(*old(archive)).len(),
    ensures
        archive_entries(*final(archive)) == archive_entries(*old(archive)),
        entry_text(r) == stored_text(archive_entries(*old(archive))[index as int]),
{
    let mut file = archive.by_index(index)?;
    let name = file.name().to_string();
    let is_dir = file.is_dir();
    let mut bytes = Vec::new();
    let data = match file.read_to_end(&mut bytes) {
        Ok(_) => Ok(bytes),
        Err(e) => Err(e),
    };
    Ok(Entry { name, is_dir, data })
}

/// Every entry of a jar, in the order of its directory.
pub fn read_archive(jar: Vec<u8>) -> (r: Result<Vec<Result<Entry, ZipError>>, ZipError>)
    ensures
        match r {
            Ok(entries) => zip_entries(jar@) matches Some(stored) && entry_texts(entries@)
                == stored.map_values(|e: Option<(Seq<char>, Option<Seq<u8>>)>| stored_text(e)),
            Err(_) => zip_entries(jar@) is None,
        },
{
    let mut archive = match open_archive(jar) {
        Ok(a) => a,
        Err(e) => return Err(e),
    };
    let ghost stored = archive_entries(archive);
    let count = entry_count(&archive);
    let mut entries: Vec<Result<Entry, ZipError>> = Vec::new();
    let mut i: usize = 0;
    while i < count
        invariant
            i <= count,
            count == stored.len(),
            archive_entries(archive) == stored,
            entries@.len() == i,
            forall|j: int| 0 <= j < i ==> entry_text(#[trigger] entries@[j]) == stored_text(stored[j]),
        decreases count - i,
    {
        entries.push(read_entry(&mut archive, i));
        i += 1;
    }
    Ok(entries)
}

/// An entry of an archive is a directory exactly where its name ends in a slash of either kind.
pub proof fn law_directories_end_in_a_slash(name: Seq<char>, data: Option<Seq<u8>>)
    ensures
        stored_text(Some((name, data))) matches Some(e) && {
            &&& e.name == name
            &&& e.data == data
            &&& e.is_dir <==> name.len() > 0 && (name[name.len() - 1] == '/' || name[name.len() - 1]
                == '\\')
        },
        stored_text(None) is None,
{
}

/// What is said of the entries is what they hold; an entry that failed says nothing.
pub proof fn law_entries_are_as_they_read(entries: Seq<Result<Entry, ZipError>>, i: int)
    requires
        0 <= i < entries.len(),
    ensures
        entry_texts(entries).len() == entries.len(),
        entries[i] is Err <==> entry_texts(entries)[i] is None,
        entries[i] matches Ok(e) ==> {
            &&& entry_texts(entries)[i] matches Some(t)
            &&& t.name == e.name@
            &&& t.is_dir == e.is_dir
            &&& e.data matches Ok(d) ==> t.data == Some(d@)
            &&& e.data is Err ==> t.data is None
        },
{
}

} // verus!
