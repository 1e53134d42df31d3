//! Old-style natives: which entries of a jar are extracted, and where to.

use vstd::prelude::*;
use vstd::string::*;

use zip::result::ZipError;

use crate::launch::archive::{
    entry_text, entry_texts, read_archive, stored_text, zip_entries, Entry, EntryText,
};
use crate::store::{join, path_join};
use crate::text::{pieces, same_text, split, starts_with, texts};

verus! {

broadcast use vstd::seq::group_seq_axioms;

/// The last of the parts of a path that is neither empty nor `.`; none where that is `..`.
pub open spec fn last_part(parts: Seq<Seq<char>>) -> Option<Seq<char>>
    decreases parts.len(),
{
    if parts.len() == 0 {
        None
    } else if parts.last() == Seq::<char>::empty() || parts.last() == seq!['.'] {
        last_part(parts.drop_last())
    } else if parts.last() == seq!['.', '.'] {
        None
    } else {
        Some(parts.last())
    }
}

/// The file name at the end of a Unix path.
pub open spec fn file_name_text(path: Seq<char>) -> Option<Seq<char>> {
    last_part(pieces(path, '/'))
}

/// Whether an entry of a natives jar is extracted: a file outside `META-INF/` that begins with
/// none of the excluded prefixes.
pub open spec fn is_extracted(name: Seq<char>, is_dir: bool, exclude: Seq<Seq<char>>) -> bool {
    &&& !is_dir
    &&& !"META-INF/"@.is_prefix_of(name)
    &&& forall|i: int| 0 <= i < exclude.len() ==> !(#[trigger] exclude[i]).is_prefix_of(name)
}

/// Where an entry goes: its bare file name in `dest`.
pub open spec fn extracted_to(name: Seq<char>, dest: Seq<char>) -> Seq<char> {
    path_join(
        dest,
        match file_name_text(name) {
            Some(f) => f,
            None => Seq::empty(),
        },
    )
}

/// Where an entry is written, if it is extracted at all.
pub open spec fn native_path_text(
    name: Seq<char>,
    is_dir: bool,
    exclude: Seq<Seq<char>>,
    dest: Seq<char>,
) -> Option<Seq<char>> {
    if is_extracted(name, is_dir, exclude) {
        Some(extracted_to(name, dest))
    } else {
        None
    }
}

/// The file name at the end of a Unix path.
pub fn file_name(path: &str) -> (r: Option<String>)
    ensures
        match r {
            Some(f) => file_name_text(path@) == Some(f@),
            None => file_name_text(path@) is None,
        },
{
    let parts = split(path, '/');
    let ghost p = texts(parts@);
    let mut i: usize = parts.len();
    proof {
        reveal_strlit("");
        reveal_strlit(".");
        reveal_strlit("..");
        assert(""@ =~= Seq::<char>::empty());
        assert("."@ =~= seq!['.']);
        assert(".."@ =~= seq!['.', '.']);
        assert(p.take(i as int) =~= p);
    }
    while i > 0
        invariant
            i <= parts@.len(),
            p == texts(parts@),
            p == pieces(path@, '/'),
            ""@ == Seq::<char>::empty(),
            "."@ == seq!['.'],
            ".."@ == seq!['.', '.'],
            last_part(p) == last_part(p.take(i as int)),
        decreases i,
    {
        let part = parts[i - 1].as_str();
        proof {
            assert(p.take(i as int).last() == parts@[i - 1]@);
            assert(p.take(i as int).drop_last() =~= p.take(i - 1));
        }
        if !same_text(part, "") && !same_text(part, ".") {
            if same_text(part, "..") {
                return None;
            }
            return Some(part.to_string());
        }
        i -= 1;
    }
    None
}

/// Where an entry of a natives jar is written, if it is extracted at all.
pub fn native_path(name: &str, is_dir: bool, exclude: &Vec<String>, dest: &str) -> (r: Option<
    String,
>)
    ensures
        r is Some <==> is_extracted(name@, is_dir, texts(exclude@)),
        r matches Some(out) ==> out@ == extracted_to(name@, dest@),
        crate::text::opt_text(r) == native_path_text(name@, is_dir, texts(exclude@), dest@),
{
    if is_dir || starts_with(name, "META-INF/") {
        return None;
    }
    let mut i: usize = 0;
    while i < exclude.len()
        invariant
            i <= exclude@.len(),
            forall|j: int| 0 <= j < i ==> !(#[trigger] texts(exclude@)[j]).is_prefix_of(name@),
        decreases exclude@.len() - i,
    {
        if starts_with(name, exclude[i].as_str()) {
            assert(texts(exclude@)[i as int].is_prefix_of(name@));
            return None;
        }
        i += 1;
    }
    let file = match file_name(name) {
        Some(f) => f,
        None => String::new(),
    };
    Some(join(dest, file.as_str()))
}

/// A file to be written.
pub struct NativeFile {
    pub path: String,
    pub data: Vec<u8>,
}

/// Why the entries of a jar could not all be extracted.
pub enum ExtractError {
    /// The jar is no archive, or an entry of it cannot be opened.
    Archive(ZipError),
    /// The bytes of an entry cannot be unpacked.
    Read(std::io::Error),
}

/// The files of a jar in the order in which they are written, and whether that is all of them.
pub struct Extraction {
    pub files: Vec<NativeFile>,
    pub outcome: Result<(), ExtractError>,
}

/// The paths and bytes of the files.
pub open spec fn file_texts(files: Seq<NativeFile>) -> Seq<(Seq<char>, Seq<u8>)> {
    files.map_values(|f: NativeFile| (f.path@, f.data@))
}

/// Where an extraction stopped.
pub enum Stop {
    /// At an entry that cannot be opened.
    Unopened(int),
    /// At an entry whose bytes cannot be unpacked.
    Unread(int),
}

/// The files that are written of the entries at `from` and after, and the first entry that
/// failed, if one did. Only the bytes of entries that are extracted count.
pub open spec fn extraction(
    entries: Seq<Option<EntryText>>,
    from: int,
    exclude: Seq<Seq<char>>,
    dest: Seq<char>,
) -> (Seq<(Seq<char>, Seq<u8>)>, Option<Stop>)
    decreases entries.len() - from,
{
    if from >= entries.len() {
        (Seq::empty(), None)
    } else {
        match entries[from] {
            None => (Seq::empty(), Some(Stop::Unopened(from))),
            Some(e) => if !is_extracted(e.name, e.is_dir, exclude) {
                extraction(entries, from + 1, exclude, dest)
            } else {
                match e.data {
                    None => (Seq::empty(), Some(Stop::Unread(from))),
                    Some(data) => {
                        let rest = extraction(entries, from + 1, exclude, dest);
                        (seq![(extracted_to(e.name, dest), data)] + rest.0, rest.1)
                    },
                }
            },
        }
    }
}

/// Whether an extraction ended the way it should.
pub open spec fn ends_with(
    outcome: Result<(), ExtractError>,
    stop: Option<Stop>,
    entries: Seq<Result<Entry, ZipError>>,
) -> bool {
    match stop {
        None => outcome is Ok,
        Some(Stop::Unopened(i)) => outcome matches Err(ExtractError::Archive(e)) && entries[i]
            == Err::<Entry, ZipError>(e),
        Some(Stop::Unread(i)) => outcome matches Err(ExtractError::Read(e)) && entries[i] matches Ok(
            entry,
        ) && entry.data == Err::<Vec<u8>, std::io::Error>(e),
    }
}

/// The files to write of the entries of a jar.
pub fn extract_entries(
    entries: Vec<Result<Entry, ZipError>>,
    dest: &str,
    exclude: &Vec<String>,
) -> (r: Extraction)
    ensures
        ({
            let e = extraction(entry_texts(entries@), 0, texts(exclude@), dest@);
            &&& file_texts(r.files@) == e.0
            &&& ends_with(r.outcome, e.1, entries@)
        }),
{
    let ghost all = entries@;
    let ghost said = entry_texts(entries@);
    let ghost whole = extraction(said, 0, texts(exclude@), dest@);
    let mut files: Vec<NativeFile> = Vec::new();
    for entry in iter: entries
        invariant
            iter.seq() == all,
            said == entry_texts(all),
            whole.0 == file_texts(files@) + extraction(
                said,
                iter.index() as int,
                texts(exclude@),
                dest@,
            ).0,
            whole.1 == extraction(said, iter.index() as int, texts(exclude@), dest@).1,
            whole == extraction(said, 0, texts(exclude@), dest@),
    {
        let ghost i = iter.index() as int;
        assert(said[i] == entry_text(all[i]));
        let ghost written = file_texts(files@);
        match entry {
            Err(e) => {
                assert(whole.0 =~= written);
                return Extraction { files, outcome: Err(ExtractError::Archive(e)) };
            },
            Ok(entry) => {
                if let Some(path) = native_path(entry.name.as_str(), entry.is_dir, exclude, dest) {
                    match entry.data {
                        Err(e) => {
                            assert(whole.0 =~= written);
                            return Extraction { files, outcome: Err(ExtractError::Read(e)) };
                        },
                        Ok(data) => {
                            files.push(NativeFile { path, data });
                            proof {
                                let rest = extraction(said, i + 1, texts(exclude@), dest@).0;
                                assert(file_texts(files@) =~= written.push((path@, data@)));
                                assert(file_texts(files@) + rest =~= written + (seq![
                                    (path@, data@),
                                ] + rest));
                            }
                        },
                    }
                }
            },
        }
    }
    assert(whole.0 =~= file_texts(files@));
    Extraction { files, outcome: Ok(()) }
}

/// The files to write of the bytes of a natives jar. The error is the very one of the entry at
/// which the extraction stopped.
pub fn extract_natives(jar: Vec<u8>, dest: &str, exclude: &Vec<String>) -> (r: Extraction)
    ensures
        match zip_entries(jar@) {
            None => r.files@.len() == 0 && r.outcome matches Err(ExtractError::Archive(_)),
            Some(stored) => {
                let e = extraction(
                    stored.map_values(|s: Option<(Seq<char>, Option<Seq<u8>>)>| stored_text(s)),
                    0,
                    texts(exclude@),
                    dest@,
                );
                &&& file_texts(r.files@) == e.0
                &&& exists|entries: Seq<Result<Entry, ZipError>>|
                    {
                        &&& #[trigger] entry_texts(entries) == stored.map_values(
                            |s: Option<(Seq<char>, Option<Seq<u8>>)>| stored_text(s),
                        )
                        &&& ends_with(r.outcome, e.1, entries)
                    }
            },
        },
{
    match read_archive(jar) {
        Ok(entries) => extract_entries(entries, dest, exclude),
        Err(e) => Extraction { files: Vec::new(), outcome: Err(ExtractError::Archive(e)) },
    }
}

proof fn lemma_pieces_free(s: Seq<char>, sep: char)
    ensures
        pieces(s, sep).len() >= 1,
        forall|i: int| 0 <= i < pieces(s, sep).len() ==> !(#[trigger] pieces(s, sep)[i]).contains(sep),
    decreases s.len(),
{
    if s.len() > 0 {
        let before = pieces(s.drop_last(), sep);
        lemma_pieces_free(s.drop_last(), sep);
        let all = pieces(s, sep);
        assert forall|i: int| 0 <= i < all.len() implies !(#[trigger] all[i]).contains(sep) by {
            if i < before.len() - 1 {
                assert(all[i] == before[i]);
            } else if s.last() == sep {
                if i == before.len() - 1 {
                    assert(all[i] == before[i]);
                }
            } else {
                assert(!before[before.len() - 1].contains(sep));
                assert forall|k: int| 0 <= k < all[i].len() implies all[i][k] != sep by {
                    if k < before.last().len() {
                        assert(before.last().contains(before.last()[k]));
                    }
                }
            }
        }
    }
}

proof fn lemma_last_part(parts: Seq<Seq<char>>)
    requires
        forall|i: int| 0 <= i < parts.len() ==> !(#[trigger] parts[i]).contains('/'),
    ensures
        last_part(parts) matches Some(f) ==> {
            &&& !f.contains('/')
            &&& f.len() > 0
            &&& f != seq!['.']
            &&& f != seq!['.', '.']
        },
    decreases parts.len(),
{
    if parts.len() > 0 {
        assert(!parts[parts.len() - 1].contains('/'));
        if parts.last() == Seq::<char>::empty() || parts.last() == seq!['.'] {
            let front = parts.drop_last();
            assert forall|i: int| 0 <= i < front.len() implies !(#[trigger] front[i]).contains('/') by {
                assert(front[i] == parts[i]);
            }
            lemma_last_part(front);
        } else {
            if parts.last().len() == 0 {
                assert(parts.last() =~= Seq::<char>::empty());
            }
        }
    }
}

/// Whatever an entry of a jar is called, it is written directly into the destination: the
/// written name has no slash in it and is neither `.` nor `..`. (An entry whose name ends in no
/// file name at all is written to the destination itself.)
pub proof fn law_natives_stay_in_their_directory(name: Seq<char>, dest: Seq<char>)
    ensures
        file_name_text(name) matches Some(f) ==> {
            &&& !f.contains('/')
            &&& f.len() > 0
            &&& f != seq!['.']
            &&& f != seq!['.', '.']
            &&& extracted_to(name, dest) == path_join(dest, f)
        },
        dest.is_prefix_of(extracted_to(name, dest)),
{
    lemma_pieces_free(name, '/');
    lemma_last_part(pieces(name, '/'));
    let f = match file_name_text(name) {
        Some(f) => f,
        None => Seq::empty(),
    };
    if f.len() > 0 {
        assert(f.contains(f[0]));
    }
    crate::store::law_join_keeps_both(dest, f);
}

/// Whatever a jar holds, every file that is written of it is the file of an entry that is
/// extracted, and lies directly in the destination.
pub proof fn law_extraction_stays_in_its_directory(
    entries: Seq<Option<EntryText>>,
    from: int,
    exclude: Seq<Seq<char>>,
    dest: Seq<char>,
    k: int,
)
    requires
        0 <= from,
        0 <= k < extraction(entries, from, exclude, dest).0.len(),
    ensures
        exists|i: int|
            {
                &&& from <= i < entries.len()
                &&& (#[trigger] entries[i]) matches Some(e) && {
                    &&& is_extracted(e.name, e.is_dir, exclude)
                    &&& extraction(entries, from, exclude, dest).0[k].0 == extracted_to(e.name, dest)
                    &&& e.data == Some(extraction(entries, from, exclude, dest).0[k].1)
                }
            },
        dest.is_prefix_of(extraction(entries, from, exclude, dest).0[k].0),
    decreases entries.len() - from,
{
    if from < entries.len() {
        match entries[from] {
            None => {},
            Some(e) => {
                if !is_extracted(e.name, e.is_dir, exclude) {
                    law_extraction_stays_in_its_directory(entries, from + 1, exclude, dest, k);
                } else if k == 0 {
                    law_natives_stay_in_their_directory(e.name, dest);
                    assert(entries[from] == Some(e));
                } else {
                    law_extraction_stays_in_its_directory(entries, from + 1, exclude, dest, k - 1);
                }
            },
        }
    }
}

/// An entry is extracted unless something speaks against it: it is a directory, it lies below
/// `META-INF/`, or it begins with a prefix that is excluded.
pub proof fn law_entry_is_extracted_unless_excluded(
    name: Seq<char>,
    is_dir: bool,
    exclude: Seq<Seq<char>>,
    k: int,
)
    ensures
        is_dir ==> !is_extracted(name, is_dir, exclude),
        "META-INF/"@.is_prefix_of(name) ==> !is_extracted(name, is_dir, exclude),
        0 <= k < exclude.len() && exclude[k].is_prefix_of(name) ==> !is_extracted(
            name,
            is_dir,
            exclude,
        ),
        !is_dir && !"META-INF/"@.is_prefix_of(name) && (forall|i: int|
            0 <= i < exclude.len() ==> !(#[trigger] exclude[i]).is_prefix_of(name)) ==> is_extracted(
            name,
            is_dir,
            exclude,
        ),
{
}

/// The file name is what follows the last slash, whatever directories stand before it.
pub proof fn law_file_name_follows_the_last_slash(dirs: Seq<char>, name: Seq<char>)
    requires
        name.len() > 0,
        !name.contains('/'),
        name != seq!['.'],
        name != seq!['.', '.'],
    ensures
        file_name_text(name) == Some(name),
        file_name_text(dirs + seq!['/'] + name) == Some(name),
        file_name_text(dirs + seq!['/'] + name + seq!['/']) == Some(name),
        file_name_text(dirs + seq!['/', '.', '.']) is None,
{
    lemma_name_alone(name);
    lemma_name_after_slash(dirs, name);
    let whole = dirs + seq!['/'] + name;
    assert(pieces(whole, '/').last() == name);
    lemma_name_after_slash(whole, Seq::empty());
    assert(whole + seq!['/'] + Seq::<char>::empty() =~= whole + seq!['/']);
    assert(pieces(whole + seq!['/'], '/').drop_last() =~= pieces(whole, '/'));
    let up = seq!['.', '.'];
    assert forall|i: int| 0 <= i < up.len() implies up[i] != '/' by {}
    lemma_name_after_slash(dirs, up);
    assert(dirs + seq!['/', '.', '.'] =~= dirs + seq!['/'] + up);
}

proof fn lemma_name_alone(name: Seq<char>)
    requires
        !name.contains('/'),
    ensures
        pieces(name, '/') == seq![name],
    decreases name.len(),
{
    if name.len() > 0 {
        let front = name.drop_last();
        assert forall|i: int| 0 <= i < front.len() implies front[i] != '/' by {
            assert(name.contains(name[i]));
        }
        assert(name.contains(name.last()));
        lemma_name_alone(front);
        assert(front.push(name.last()) =~= name);
        assert(pieces(name, '/') =~= seq![name]);
    } else {
        assert(name =~= Seq::empty());
    }
}

proof fn lemma_name_after_slash(dirs: Seq<char>, name: Seq<char>)
    requires
        !name.contains('/'),
    ensures
        pieces(dirs + seq!['/'] + name, '/') == pieces(dirs, '/').push(name),
    decreases name.len(),
{
    let whole = dirs + seq!['/'] + name;
    if name.len() == 0 {
        assert(whole.drop_last() =~= dirs);
        assert(name =~= Seq::empty());
    } else {
        let front = name.drop_last();
        assert(name.contains(name.last()));
        assert forall|i: int| 0 <= i < front.len() implies front[i] != '/' by {
            assert(name.contains(name[i]));
        }
        lemma_name_after_slash(dirs, front);
        assert(whole.drop_last() =~= dirs + seq!['/'] + front);
        assert(pieces(dirs, '/').push(front).drop_last() =~= pieces(dirs, '/'));
        assert(front.push(name.last()) =~= name);
    }
}

/// An extraction that did not stop has written every entry that is to be extracted, with its
/// bytes.
pub proof fn law_extraction_leaves_nothing_out(
    entries: Seq<Option<EntryText>>,
    from: int,
    exclude: Seq<Seq<char>>,
    dest: Seq<char>,
    i: int,
)
    requires
        0 <= from <= i < entries.len(),
        extraction(entries, from, exclude, dest).1 is None,
    ensures
        entries[i] matches Some(e) && (is_extracted(e.name, e.is_dir, exclude) ==> e.data is Some
            && extraction(entries, from, exclude, dest).0.contains(
            (extracted_to(e.name, dest), e.data->Some_0),
        )),
    decreases entries.len() - from,
{
    let files = extraction(entries, from, exclude, dest).0;
    let rest = extraction(entries, from + 1, exclude, dest).0;
    let first = entries[from]->Some_0;
    if i == from {
        if is_extracted(first.name, first.is_dir, exclude) {
            assert(files[0] == (extracted_to(first.name, dest), first.data->Some_0));
        }
    } else {
        law_extraction_leaves_nothing_out(entries, from + 1, exclude, dest, i);
        let e = entries[i]->Some_0;
        if is_extracted(e.name, e.is_dir, exclude) && is_extracted(
            first.name,
            first.is_dir,
            exclude,
        ) {
            let file = (extracted_to(e.name, dest), e.data->Some_0);
            let k = choose|k: int| 0 <= k < rest.len() && rest[k] == file;
            assert(files[k + 1] == file);
        }
    }
}

/// An extraction stops at the first entry that fails, and only there: at one that cannot be
/// opened, or at one that is to be extracted and whose bytes cannot be unpacked.
pub proof fn law_extraction_stops_at_the_first_failure(
    entries: Seq<Option<EntryText>>,
    from: int,
    exclude: Seq<Seq<char>>,
    dest: Seq<char>,
)
    requires
        0 <= from,
    ensures
        match extraction(entries, from, exclude, dest).1 {
            None => forall|i: int| from <= i < entries.len() ==> works(#[trigger] entries[i], exclude),
            Some(Stop::Unopened(at)) => from <= at < entries.len() && entries[at] is None && forall|
                i: int,
            |
                from <= i < at ==> works(#[trigger] entries[i], exclude),
            Some(Stop::Unread(at)) => from <= at < entries.len() && entries[at] is Some && !works(
                entries[at],
                exclude,
            ) && forall|i: int| from <= i < at ==> works(#[trigger] entries[i], exclude),
        },
    decreases entries.len() - from,
{
    if from < entries.len() {
        law_extraction_stops_at_the_first_failure(entries, from + 1, exclude, dest);
    }
}

/// Whether an entry can be opened and, where it is to be extracted, unpacked.
pub open spec fn works(entry: Option<EntryText>, exclude: Seq<Seq<char>>) -> bool {
    entry matches Some(e) && (is_extracted(e.name, e.is_dir, exclude) ==> e.data is Some)
}

/// The files of the front of a row of entries come first, and those of the rest after them: what
/// is written keeps the order of the jar.
pub proof fn law_extraction_keeps_the_order(
    first: Option<EntryText>,
    rest: Seq<Option<EntryText>>,
    exclude: Seq<Seq<char>>,
    dest: Seq<char>,
)
    requires
        works(first, exclude),
    ensures
        ({
            let e = first->Some_0;
            let all = extraction(seq![first] + rest, 0, exclude, dest).0;
            let others = extraction(rest, 0, exclude, dest).0;
            &&& is_extracted(e.name, e.is_dir, exclude) ==> all == seq![
                (extracted_to(e.name, dest), e.data->Some_0),
            ] + others
            &&& !is_extracted(e.name, e.is_dir, exclude) ==> all == others
        }),
{
    lemma_shifted(first, rest, 0, exclude, dest);
}

proof fn lemma_shifted(
    first: Option<EntryText>,
    rest: Seq<Option<EntryText>>,
    from: int,
    exclude: Seq<Seq<char>>,
    dest: Seq<char>,
)
    requires
        0 <= from,
    ensures
        extraction(seq![first] + rest, from + 1, exclude, dest).0 == extraction(
            rest,
            from,
            exclude,
            dest,
        ).0,
    decreases rest.len() - from,
{
    if from < rest.len() {
        lemma_shifted(first, rest, from + 1, exclude, dest);
        assert((seq![first] + rest)[from + 1] == rest[from]);
    }
}

/// A slash at the end of a path, and a dot behind one, do not count.
pub proof fn law_slash_at_the_end_does_not_count(path: Seq<char>)
    ensures
        file_name_text(path + seq!['/']) == file_name_text(path),
        file_name_text(path + seq!['/', '.']) == file_name_text(path),
        file_name_text(Seq::empty()) is None,
        file_name_text(seq!['.']) is None,
        file_name_text(seq!['.', '.']) is None,
{
    lemma_name_after_slash(path, Seq::empty());
    assert(path + seq!['/'] + Seq::<char>::empty() =~= path + seq!['/']);
    assert(pieces(path, '/').push(Seq::<char>::empty()).drop_last() =~= pieces(path, '/'));
    let dot = seq!['.'];
    assert forall|i: int| 0 <= i < dot.len() implies dot[i] != '/' by {}
    lemma_name_after_slash(path, dot);
    assert(path + seq!['/', '.'] =~= path + seq!['/'] + dot);
    assert(pieces(path, '/').push(dot).drop_last() =~= pieces(path, '/'));
    lemma_name_alone(Seq::empty());
    lemma_name_alone(dot);
    let up = seq!['.', '.'];
    assert forall|i: int| 0 <= i < up.len() implies up[i] != '/' by {}
    lemma_name_alone(up);
    assert(seq![Seq::<char>::empty()].drop_last() =~= Seq::empty());
    assert(seq![dot].drop_last() =~= Seq::empty());
    assert(last_part(Seq::empty()) is None);
}

/// An extraction reports success exactly where it did not stop, and else the very error of the
/// entry at which it stopped.
pub proof fn law_extraction_reports_its_end(
    outcome: Result<(), ExtractError>,
    stop: Option<Stop>,
    entries: Seq<Result<Entry, ZipError>>,
)
    requires
        ends_with(outcome, stop, entries),
    ensures
        outcome is Ok <==> stop is None,
        stop matches Some(Stop::Unopened(i)) ==> entries[i] is Err && outcome == Err::<
            (),
            ExtractError,
        >(ExtractError::Archive(entries[i]->Err_0)),
        stop matches Some(Stop::Unread(i)) ==> entries[i] is Ok && entries[i]->Ok_0.data is Err
            && outcome == Err::<(), ExtractError>(
            ExtractError::Read(entries[i]->Ok_0.data->Err_0),
        ),
{
}

/// What is said of the files is what they hold.
pub proof fn law_files_are_as_they_read(files: Seq<NativeFile>, i: int)
    requires
        0 <= i < files.len(),
    ensures
        file_texts(files).len() == files.len(),
        file_texts(files)[i] == (files[i].path@, files[i].data@),
{
}

/// A file of a jar that nothing excludes is written under its bare name, whatever directories it
/// has in the jar.
pub proof fn law_native_is_written_under_its_bare_name(
    dirs: Seq<char>,
    name: Seq<char>,
    exclude: Seq<Seq<char>>,
    dest: Seq<char>,
)
    requires
        name.len() > 0,
        !name.contains('/'),
        name != seq!['.'],
        name != seq!['.', '.'],
        is_extracted(dirs + seq!['/'] + name, false, exclude),
    ensures
        native_path_text(dirs + seq!['/'] + name, false, exclude, dest) == Some(
            path_join(dest, name),
        ),
        native_path_text(dirs + seq!['/'] + name, true, exclude, dest) is None,
{
    law_file_name_follows_the_last_slash(dirs, name);
}

} // verus!
