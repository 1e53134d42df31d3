//! Maven coordinates.

use vstd::prelude::*;
use vstd::string::*;

use crate::launch::error::{LaunchError, LaunchFault};
use crate::text::{char_swapped, pieces, split, swap_char, texts};

verus! {

broadcast use vstd::seq::group_seq_axioms;

/// The path of the jar with the given coordinates:
/// `group/path/artifact/version/artifact-version[-classifier].jar`.
pub open spec fn jar_path(
    group: Seq<char>,
    artifact: Seq<char>,
    version: Seq<char>,
    classifier: Option<Seq<char>>,
) -> Seq<char> {
    char_swapped(group, '.', '/') + "/"@ + artifact + "/"@ + version + "/"@ + artifact + "-"@
        + version + (match classifier {
        Some(c) => "-"@ + c,
        None => Seq::empty(),
    }) + ".jar"@
}

/// The path for a library name `group:artifact:version[:classifier]`. What follows a fourth
/// colon is not read.
pub open spec fn maven_path_text(name: Seq<char>) -> Result<Seq<char>, LaunchFault> {
    let parts = pieces(name, ':');
    if parts.len() < 3 {
        Err(LaunchFault::BadLibraryName(name))
    } else {
        Ok(
            jar_path(
                parts[0],
                parts[1],
                parts[2],
                if parts.len() > 3 {
                    Some(parts[3])
                } else {
                    None
                },
            ),
        )
    }
}

/// The path of a library below the libraries directory or a Maven base URL.
pub fn maven_path(name: &str) -> (r: Result<String, LaunchError>)
    ensures
        match r {
            Ok(path) => maven_path_text(name@) == Ok::<Seq<char>, LaunchFault>(path@),
            Err(e) => maven_path_text(name@) == Err::<Seq<char>, LaunchFault>(e@),
        },
{
    let parts = split(name, ':');
    let ghost p = texts(parts@);
    if parts.len() < 3 {
        return Err(LaunchError::BadLibraryName(name.to_string()));
    }
    assert(p[0] == parts@[0]@ && p[1] == parts@[1]@ && p[2] == parts@[2]@);
    let mut classifier = String::new();
    if parts.len() > 3 {
        assert(p[3] == parts@[3]@);
        classifier = "-".to_string().concat(parts[3].as_str());
    }
    let mut out = swap_char(parts[0].as_str(), '.', '/');
    out.append("/");
    out.append(parts[1].as_str());
    out.append("/");
    out.append(parts[2].as_str());
    out.append("/");
    out.append(parts[1].as_str());
    out.append("-");
    out.append(parts[2].as_str());
    out.append(classifier.as_str());
    out.append(".jar");
    Ok(out)
}

proof fn lemma_pieces_without(s: Seq<char>, sep: char)
    requires
        !s.contains(sep),
    ensures
        pieces(s, sep) == seq![s],
    decreases s.len(),
{
    if s.len() > 0 {
        assert forall|i: int| 0 <= i < s.drop_last().len() implies s.drop_last()[i] != sep by {
            assert(s.contains(s[i]));
        }
        assert(s.contains(s.last()));
        lemma_pieces_without(s.drop_last(), sep);
        let before = pieces(s.drop_last(), sep);
        assert(before.drop_last().push(before.last().push(s.last())) =~= seq![s]) by {
            assert(s.drop_last().push(s.last()) =~= s);
        }
    } else {
        assert(s =~= Seq::empty());
    }
}

proof fn lemma_pieces_append(s: Seq<char>, sep: char, last: Seq<char>)
    requires
        !last.contains(sep),
    ensures
        pieces(s + seq![sep] + last, sep) == pieces(s, sep).push(last),
    decreases last.len(),
{
    let t = s + seq![sep] + last;
    if last.len() == 0 {
        assert(t.drop_last() =~= s);
        assert(last =~= Seq::empty());
    } else {
        assert(last.contains(last.last()));
        let front = last.drop_last();
        assert forall|i: int| 0 <= i < front.len() implies front[i] != sep by {
            assert(last.contains(last[i]));
        }
        lemma_pieces_append(s, sep, front);
        assert(t.drop_last() =~= s + seq![sep] + front);
        let before = pieces(s, sep).push(front);
        assert(before.drop_last() =~= pieces(s, sep));
        assert(front.push(last.last()) =~= last);
    }
}

/// Three coordinates without colons give
/// `group/path/artifact/version/artifact-version.jar`.
pub proof fn law_maven_path_of_three(group: Seq<char>, artifact: Seq<char>, version: Seq<char>)
    requires
        !group.contains(':'),
        !artifact.contains(':'),
        !version.contains(':'),
    ensures
        maven_path_text(group + seq![':'] + artifact + seq![':'] + version) == Ok::<
            Seq<char>,
            LaunchFault,
        >(jar_path(group, artifact, version, None)),
{
    lemma_pieces_without(group, ':');
    lemma_pieces_append(group, ':', artifact);
    lemma_pieces_append(group + seq![':'] + artifact, ':', version);
}

/// Four coordinates without colons give
/// `group/path/artifact/version/artifact-version-classifier.jar`.
pub proof fn law_maven_path_of_four(
    group: Seq<char>,
    artifact: Seq<char>,
    version: Seq<char>,
    classifier: Seq<char>,
)
    requires
        !group.contains(':'),
        !artifact.contains(':'),
        !version.contains(':'),
        !classifier.contains(':'),
    ensures
        maven_path_text(
            group + seq![':'] + artifact + seq![':'] + version + seq![':'] + classifier,
        ) == Ok::<Seq<char>, LaunchFault>(jar_path(group, artifact, version, Some(classifier))),
{
    lemma_pieces_without(group, ':');
    lemma_pieces_append(group, ':', artifact);
    lemma_pieces_append(group + seq![':'] + artifact, ':', version);
    lemma_pieces_append(group + seq![':'] + artifact + seq![':'] + version, ':', classifier);
}

/// A name with fewer than two colons has no path.
pub proof fn law_maven_path_needs_three(group: Seq<char>, artifact: Seq<char>)
    requires
        !group.contains(':'),
        !artifact.contains(':'),
    ensures
        maven_path_text(group) == Err::<Seq<char>, LaunchFault>(
            LaunchFault::BadLibraryName(group),
        ),
        maven_path_text(group + seq![':'] + artifact) == Err::<Seq<char>, LaunchFault>(
            LaunchFault::BadLibraryName(group + seq![':'] + artifact),
        ),
{
    lemma_pieces_without(group, ':');
    lemma_pieces_append(group, ':', artifact);
}

/// The path of a jar: the group with its dots as directories, the artifact, the version, and a
/// file named after artifact, version and, where there is one, the classifier.
pub proof fn law_jar_lies_under_its_coordinates(
    group: Seq<char>,
    artifact: Seq<char>,
    version: Seq<char>,
    classifier: Seq<char>,
)
    ensures
        jar_path(group, artifact, version, None) == path_of_group(group) + seq!['/'] + artifact
            + seq!['/'] + version + seq!['/'] + artifact + seq!['-'] + version + seq![
            '.',
            'j',
            'a',
            'r',
        ],
        jar_path(group, artifact, version, Some(classifier)) == path_of_group(group) + seq!['/']
            + artifact + seq!['/'] + version + seq!['/'] + artifact + seq!['-'] + version + seq!['-']
            + classifier + seq!['.', 'j', 'a', 'r'],
        path_of_group(group).len() == group.len(),
        forall|i: int|
            0 <= i < group.len() ==> #[trigger] path_of_group(group)[i] == (if group[i] == '.' {
                '/'
            } else {
                group[i]
            }),
{
    reveal_strlit("/");
    reveal_strlit("-");
    reveal_strlit(".jar");
    assert("/"@ =~= seq!['/']);
    assert("-"@ =~= seq!['-']);
    assert(".jar"@ =~= seq!['.', 'j', 'a', 'r']);
    assert(jar_path(group, artifact, version, None) =~= path_of_group(group) + seq!['/'] + artifact
        + seq!['/'] + version + seq!['/'] + artifact + seq!['-'] + version + seq!['.', 'j', 'a', 'r']);
    assert(jar_path(group, artifact, version, Some(classifier)) =~= path_of_group(group) + seq!['/']
        + artifact + seq!['/'] + version + seq!['/'] + artifact + seq!['-'] + version + seq!['-']
        + classifier + seq!['.', 'j', 'a', 'r']);
}

/// A group as a path.
pub open spec fn path_of_group(group: Seq<char>) -> Seq<char> {
    char_swapped(group, '.', '/')
}

/// What follows a fourth colon does not count.
pub proof fn law_fifth_coordinate_is_not_read(
    group: Seq<char>,
    artifact: Seq<char>,
    version: Seq<char>,
    classifier: Seq<char>,
    more: Seq<char>,
)
    requires
        !group.contains(':'),
        !artifact.contains(':'),
        !version.contains(':'),
        !classifier.contains(':'),
        !more.contains(':'),
    ensures
        maven_path_text(
            group + seq![':'] + artifact + seq![':'] + version + seq![':'] + classifier + seq![':']
                + more,
        ) == maven_path_text(
            group + seq![':'] + artifact + seq![':'] + version + seq![':'] + classifier,
        ),
{
    let four = group + seq![':'] + artifact + seq![':'] + version + seq![':'] + classifier;
    lemma_pieces_without(group, ':');
    lemma_pieces_append(group, ':', artifact);
    lemma_pieces_append(group + seq![':'] + artifact, ':', version);
    lemma_pieces_append(group + seq![':'] + artifact + seq![':'] + version, ':', classifier);
    lemma_pieces_append(four, ':', more);
}

} // verus!
