//! Mojang/piston version manifest.

use vstd::prelude::*;
use vstd::string::*;

use crate::text::same_text;
use crate::types::VersionEntry;

verus! {

broadcast use vstd::seq::group_seq_axioms;

/// Where the version manifest is.
pub const MANIFEST_URL: &'static str = "https://piston-meta.mojang.com/mc/game/version_manifest_v2.json";

/// What to report where the manifest cannot be fetched.
pub const MANIFEST_CONTEXT: &'static str = "fetching version manifest";

/// The version manifest.
pub struct Manifest {
    pub versions: Vec<VersionEntry>,
}

/// The versions of the manifest, in its order.
pub fn fetch_versions(manifest: Manifest) -> (r: Vec<VersionEntry>)
    ensures
        r == manifest.versions,
{
    manifest.versions
}

/// The releases of a list, in its order.
pub open spec fn release_entries(list: Seq<VersionEntry>) -> Seq<VersionEntry> {
    list.filter(|v: VersionEntry| v.kind@ == "release"@)
}

/// Keeps the releases of a list, in its order.
pub fn releases(list: Vec<VersionEntry>) -> (r: Vec<VersionEntry>)
    ensures
        r@ == release_entries(list@),
{
    let ghost all = list@;
    let ghost is_release = |v: VersionEntry| v.kind@ == "release"@;
    let mut out: Vec<VersionEntry> = Vec::new();
    for entry in it: list
        invariant
            it.seq() == all,
            is_release == (|v: VersionEntry| v.kind@ == "release"@),
            out@ == all.take(it.index()).filter(is_release),
    {
        proof {
            reveal(Seq::filter);
            assert(all.take(it.index() + 1).drop_last() =~= all.take(it.index()));
            assert(all.take(it.index() + 1).last() == entry);
        }
        if same_text(entry.kind.as_str(), "release") {
            out.push(entry);
        }
    }
    assert(all.take(all.len() as int) =~= all);
    out
}

/// Only releases are offered, each of the list, and none of them is left out.
pub proof fn law_exactly_the_releases_are_offered(list: Seq<VersionEntry>, entry: VersionEntry)
    ensures
        release_entries(list).contains(entry) <==> list.contains(entry) && entry.kind@ == "release"@,
{
    let pred = |v: VersionEntry| v.kind@ == "release"@;
    if list.contains(entry) && entry.kind@ == "release"@ {
        let i = choose|i: int| 0 <= i < list.len() && list[i] == entry;
        list.lemma_filter_contains(pred, i);
    }
    if list.filter(pred).contains(entry) {
        list.lemma_filter_contains_rev(pred, entry);
        let k = choose|k: int| 0 <= k < list.filter(pred).len() && list.filter(pred)[k] == entry;
        list.lemma_filter_pred(pred, k);
    }
}

/// The releases keep the order of the list: those of two lists, one after the other, are those of
/// the first followed by those of the second.
pub proof fn law_releases_keep_their_order(first: Seq<VersionEntry>, second: Seq<VersionEntry>)
    ensures
        release_entries(first + second) == release_entries(first) + release_entries(second),
    decreases second.len(),
{
    reveal(Seq::filter);
    if second.len() == 0 {
        assert(first + second =~= first);
        assert(release_entries(first) + Seq::<VersionEntry>::empty() =~= release_entries(first));
    } else {
        law_releases_keep_their_order(first, second.drop_last());
        assert((first + second).drop_last() =~= first + second.drop_last());
        assert((first + second).last() == second.last());
        assert(release_entries(first + second) =~= release_entries(first) + release_entries(second));
    }
}

/// One version is kept where it is a release, and left out where it is not.
pub proof fn law_one_version_is_kept_if_it_is_a_release(entry: VersionEntry)
    ensures
        entry.kind@ == "release"@ ==> release_entries(seq![entry]) == seq![entry],
        entry.kind@ != "release"@ ==> release_entries(seq![entry]).len() == 0,
{
    reveal(Seq::filter);
    assert(seq![entry].drop_last() =~= Seq::empty());
    assert(release_entries(Seq::empty()) =~= Seq::empty());
    if entry.kind@ == "release"@ {
        assert(release_entries(seq![entry]) =~= seq![entry]);
    }
}

} // verus!
