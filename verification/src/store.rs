//! On-disk layout for the launcher (versions, libraries, assets, instances).
//!
//! Paths are Unix paths, held as text.

use vstd::prelude::*;
use vstd::string::*;

verus! {

broadcast use vstd::seq::group_seq_axioms;

/// Whether a path starts at the root of the file system.
pub open spec fn is_absolute(path: Seq<char>) -> bool {
    path.len() > 0 && path[0] == '/'
}

/// `part` seen from `base`: an absolute `part` stands alone, any other follows `base`, with a
/// slash between them unless `base` is empty or ends in one.
pub open spec fn path_join(base: Seq<char>, part: Seq<char>) -> Seq<char> {
    if is_absolute(part) {
        part
    } else if base.len() == 0 || base.last() == '/' {
        base + part
    } else {
        base + seq!['/'] + part
    }
}

/// `part` seen from `base`.
pub fn join(base: &str, part: &str) -> (r: String)
    ensures
        r@ == path_join(base@, part@),
{
    if part.unicode_len() > 0 && part.get_char(0) == '/' {
        return part.to_string();
    }
    let mut out = base.to_string();
    let n = base.unicode_len();
    if n > 0 && base.get_char(n - 1) != '/' {
        out.push('/');
    }
    out.append(part);
    assert(out@ =~= path_join(base@, part@));
    out
}

/// Where the launcher keeps its data.
pub struct Paths {
    pub root: String,
}

impl Clone for Paths {
    fn clone(&self) -> (r: Paths)
        ensures
            r == *self,
    {
        Paths {
            root: self.root.clone(),
        }
    }
}

/// The root of the launcher's data under the home directory, or under the current directory
/// where there is no home.
pub open spec fn root_text(home: Option<Seq<char>>) -> Seq<char> {
    path_join(
        match home {
            Some(h) => h,
            None => "."@,
        },
        "Library/Application Support/zenith-launcher"@,
    )
}

impl Paths {
    /// The directory that holds the libraries.
    pub open spec fn libraries_text(self) -> Seq<char> {
        path_join(self.root@, "libraries"@)
    }

    /// The directory that holds the assets.
    pub open spec fn assets_text(self) -> Seq<char> {
        path_join(self.root@, "assets"@)
    }

    /// The directory of the version `id`.
    pub open spec fn version_dir_text(self, id: Seq<char>) -> Seq<char> {
        path_join(path_join(self.root@, "versions"@), id)
    }

    /// The directory into which the natives of the version `id` are extracted.
    pub open spec fn natives_dir_text(self, id: Seq<char>) -> Seq<char> {
        path_join(self.version_dir_text(id), "natives"@)
    }

    /// The layout for the home directory `home`, the value of the environment variable `HOME`.
    pub fn new(home: Option<String>) -> (r: Paths)
        ensures
            r.root@ == root_text(crate::text::opt_text(home)),
    {
        let home = match home {
            Some(h) => h,
            None => ".".to_string(),
        };
        Paths { root: join(home.as_str(), "Library/Application Support/zenith-launcher") }
    }

    /// The directory that holds the libraries.
    pub fn libraries(&self) -> (r: String)
        ensures
            r@ == self.libraries_text(),
    {
        join(self.root.as_str(), "libraries")
    }

    /// The directory that holds the assets.
    pub fn assets(&self) -> (r: String)
        ensures
            r@ == self.assets_text(),
    {
        join(self.root.as_str(), "assets")
    }

    /// The directory of the version `id`.
    pub fn version_dir(&self, id: &str) -> (r: String)
        ensures
            r@ == self.version_dir_text(id@),
    {
        join(join(self.root.as_str(), "versions").as_str(), id)
    }

    /// The directory into which the natives of the version `id` are extracted.
    pub fn natives_dir(&self, id: &str) -> (r: String)
        ensures
            r@ == self.natives_dir_text(id@),
    {
        join(self.version_dir(id).as_str(), "natives")
    }
}

/// Joining a relative part keeps the base as a prefix and the part as a suffix.
pub proof fn law_join_keeps_both(base: Seq<char>, part: Seq<char>)
    requires
        !is_absolute(part),
    ensures
        base.is_prefix_of(path_join(base, part)),
        part.is_suffix_of(path_join(base, part)),
{
    let r = path_join(base, part);
    assert(r.subrange(0, base.len() as int) =~= base);
    assert(r.subrange(r.len() - part.len(), r.len() as int) =~= part);
}

/// Different relative parts of one base give different paths.
pub proof fn law_join_is_injective(base: Seq<char>, a: Seq<char>, b: Seq<char>)
    requires
        !is_absolute(a),
        !is_absolute(b),
    ensures
        path_join(base, a) == path_join(base, b) <==> a == b,
{
    let r = path_join(base, a);
    let q = path_join(base, b);
    if r == q {
        assert(r.subrange(r.len() - a.len(), r.len() as int) =~= a);
        assert(q.subrange(q.len() - b.len(), q.len() as int) =~= b);
    }
}

/// Everything the launcher keeps for a version lies below the root, and the natives of a version
/// below its own directory, for every version id that is not an absolute path.
pub proof fn law_layout_stays_below_root(paths: Paths, id: Seq<char>)
    requires
        !is_absolute(id),
    ensures
        paths.root@.is_prefix_of(paths.libraries_text()),
        paths.root@.is_prefix_of(paths.assets_text()),
        paths.root@.is_prefix_of(paths.version_dir_text(id)),
        paths.version_dir_text(id).is_prefix_of(paths.natives_dir_text(id)),
        paths.root@.is_prefix_of(paths.natives_dir_text(id)),
{
    reveal_strlit("libraries");
    reveal_strlit("assets");
    reveal_strlit("versions");
    reveal_strlit("natives");
    let versions = path_join(paths.root@, "versions"@);
    law_join_keeps_both(paths.root@, "libraries"@);
    law_join_keeps_both(paths.root@, "assets"@);
    law_join_keeps_both(paths.root@, "versions"@);
    law_join_keeps_both(versions, id);
    law_join_keeps_both(paths.version_dir_text(id), "natives"@);
    lemma_prefix_trans(paths.root@, versions, paths.version_dir_text(id));
    lemma_prefix_trans(paths.root@, paths.version_dir_text(id), paths.natives_dir_text(id));
}

proof fn lemma_prefix_trans(a: Seq<char>, b: Seq<char>, c: Seq<char>)
    requires
        a.is_prefix_of(b),
        b.is_prefix_of(c),
    ensures
        a.is_prefix_of(c),
{
    assert(c.subrange(0, a.len() as int) =~= b.subrange(0, a.len() as int));
}

/// Different versions have different directories.
pub proof fn law_version_dirs_differ(paths: Paths, a: Seq<char>, b: Seq<char>)
    requires
        !is_absolute(a),
        !is_absolute(b),
    ensures
        paths.version_dir_text(a) == paths.version_dir_text(b) <==> a == b,
{
    law_join_is_injective(path_join(paths.root@, "versions"@), a, b);
}

/// A relative part is put behind its base with exactly one slash between them; behind an empty
/// base it stands alone, and an absolute part always does.
pub proof fn law_join_puts_one_slash_between(base: Seq<char>, part: Seq<char>)
    ensures
        part.len() > 0 && part[0] == '/' ==> path_join(base, part) == part,
        part.len() == 0 || part[0] != '/' ==> {
            &&& base.len() == 0 ==> path_join(base, part) == part
            &&& base.len() > 0 && base[base.len() - 1] == '/' ==> path_join(base, part) == base
                + part
            &&& base.len() > 0 && base[base.len() - 1] != '/' ==> path_join(base, part) == base
                + seq!['/'] + part
        },
{
    if base.len() == 0 {
        assert(base + part =~= part);
    }
}

/// Where the launcher keeps things, below a root that does not end in a slash.
pub proof fn law_layout_below_the_root(paths: Paths, id: Seq<char>)
    requires
        paths.root@.len() > 0,
        paths.root@.last() != '/',
        id.len() > 0,
        id[0] != '/',
        id.last() != '/',
    ensures
        paths.libraries_text() == paths.root@ + "/libraries"@,
        paths.assets_text() == paths.root@ + "/assets"@,
        paths.version_dir_text(id) == paths.root@ + "/versions/"@ + id,
        paths.natives_dir_text(id) == paths.root@ + "/versions/"@ + id + "/natives"@,
{
    reveal_strlit("libraries");
    reveal_strlit("/libraries");
    reveal_strlit("assets");
    reveal_strlit("/assets");
    reveal_strlit("versions");
    reveal_strlit("/versions/");
    reveal_strlit("natives");
    reveal_strlit("/natives");
    assert(paths.libraries_text() =~= paths.root@ + "/libraries"@);
    assert(paths.assets_text() =~= paths.root@ + "/assets"@);
    assert(paths.version_dir_text(id) =~= paths.root@ + "/versions/"@ + id);
    assert(paths.natives_dir_text(id) =~= paths.root@ + "/versions/"@ + id + "/natives"@);
}

/// The launcher's data lies below the home directory, and below the current one without a home.
pub proof fn law_root_lies_below_home(home: Seq<char>)
    ensures
        home.len() > 0 && home.last() != '/' ==> root_text(Some(home)) == home + seq!['/']
            + "Library/Application Support/zenith-launcher"@,
        root_text(None) == root_text(Some("."@)),
{
    reveal_strlit("Library/Application Support/zenith-launcher");
}

} // verus!
