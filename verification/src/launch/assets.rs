//! Assets: thousands of small files, named by their hashes.

use vstd::prelude::*;
use vstd::string::*;

use crate::launch::version::AssetIndex;
use crate::store::{join, path_join};
use crate::text::{chars_of, slice};

verus! {

broadcast use vstd::seq::group_seq_axioms;

/// How many assets are downloaded at a time.
pub const ASSET_WORKERS: usize = 24;

/// How many characters the first two bytes of the UTF-8 encoding of `hash` hold: two ASCII
/// characters, or one character that takes two bytes. `None` where the first two bytes do not end
/// with a character, or are not there.
pub open spec fn prefix_len(hash: Seq<char>) -> Option<int> {
    if hash.len() >= 2 && (hash[0] as u32) < 0x80 && (hash[1] as u32) < 0x80 {
        Some(2)
    } else if hash.len() >= 1 && 0x80 <= (hash[0] as u32) < 0x800 {
        Some(1)
    } else {
        None
    }
}

/// The first two bytes of a hash, which name its directory.
pub open spec fn hash_prefix(hash: Seq<char>) -> Seq<char> {
    hash.take(prefix_len(hash)->Some_0)
}

/// Where the object with the given hash is kept.
pub open spec fn object_path(objects_dir: Seq<char>, hash: Seq<char>) -> Seq<char> {
    path_join(path_join(objects_dir, hash_prefix(hash)), hash)
}

/// Where the object with the given hash is found.
pub open spec fn object_url(hash: Seq<char>) -> Seq<char> {
    "https://resources.download.minecraft.net/"@ + hash_prefix(hash) + "/"@ + hash
}

/// An object to download.
pub struct AssetJob {
    pub hash: String,
    pub url: String,
    pub dest: String,
}

/// Whether `job` is the job for `hash`.
pub open spec fn is_job(job: AssetJob, objects_dir: Seq<char>, hash: Seq<char>) -> bool {
    &&& job.hash@ == hash
    &&& job.url@ == object_url(hash)
    &&& job.dest@ == object_path(objects_dir, hash)
}

fn prefix_chars(hash: &str) -> (r: Option<usize>)
    ensures
        match r {
            Some(n) => prefix_len(hash@) == Some(n as int) && n <= hash@.len(),
            None => prefix_len(hash@) is None,
        },
{
    let c = chars_of(hash);
    if c.len() >= 2 && (c[0] as u32) < 0x80 && (c[1] as u32) < 0x80 {
        Some(2)
    } else if c.len() >= 1 && 0x80 <= (c[0] as u32) && (c[0] as u32) < 0x800 {
        Some(1)
    } else {
        None
    }
}

/// Whether a hash has the two leading bytes that name its directory.
pub fn is_asset_hash(hash: &str) -> (r: bool)
    ensures
        r == (prefix_len(hash@) is Some),
{
    prefix_chars(hash).is_some()
}

/// The job for one object.
pub fn asset_job(objects_dir: &str, hash: &str) -> (r: AssetJob)
    requires
        prefix_len(hash@) is Some,
    ensures
        is_job(r, objects_dir@, hash@),
{
    let n = match prefix_chars(hash) {
        Some(n) => n,
        None => 0,
    };
    let sub = slice(hash, 0, n);
    assert(sub@ =~= hash_prefix(hash@));
    let mut url = "https://resources.download.minecraft.net/".to_string();
    url.append(sub.as_str());
    url.append("/");
    url.append(hash);
    AssetJob {
        hash: hash.to_string(),
        url,
        dest: join(join(objects_dir, sub.as_str()).as_str(), hash),
    }
}

/// The jobs for every object of an index, in its order.
pub fn asset_jobs(objects_dir: &str, index: &AssetIndex) -> (r: Vec<AssetJob>)
    requires
        forall|i: int|
            0 <= i < index.objects@.len() ==> prefix_len((#[trigger] index.objects@[i]).hash@) is Some,
    ensures
        r@.len() == index.objects@.len(),
        forall|i: int|
            0 <= i < r@.len() ==> is_job(#[trigger] r@[i], objects_dir@, index.objects@[i].hash@),
{
    let mut out: Vec<AssetJob> = Vec::new();
    let mut i: usize = 0;
    while i < index.objects.len()
        invariant
            i <= index.objects@.len(),
            out@.len() == i,
            forall|k: int|
                0 <= k < index.objects@.len() ==> prefix_len((#[trigger] index.objects@[k]).hash@) is Some,
            forall|k: int|
                0 <= k < i ==> is_job(#[trigger] out@[k], objects_dir@, index.objects@[k].hash@),
        decreases index.objects@.len() - i,
    {
        out.push(asset_job(objects_dir, index.objects[i].hash.as_str()));
        i += 1;
    }
    out
}

/// The jobs whose object is not there yet, in order.
pub open spec fn missing(jobs: Seq<AssetJob>, present: Seq<bool>) -> Seq<AssetJob>
    decreases jobs.len(),
{
    if jobs.len() == 0 {
        Seq::empty()
    } else if present[jobs.len() - 1] {
        missing(jobs.drop_last(), present)
    } else {
        missing(jobs.drop_last(), present).push(jobs.last())
    }
}

/// A progress bar to show while something is downloaded.
pub struct Bar {
    pub label: String,
    pub total: usize,
}

/// What is left to download, and the bar to show meanwhile (none where nothing is left).
pub struct AssetPlan {
    pub pending: Vec<AssetJob>,
    pub bar: Option<Bar>,
}

/// Whether `r` is what is left to download of `jobs`.
pub open spec fn is_asset_plan(r: AssetPlan, jobs: Seq<AssetJob>, present: Seq<bool>) -> bool {
    &&& r.pending@ == missing(jobs, present)
    &&& r.bar is None <==> r.pending@.len() == 0
    &&& r.bar matches Some(bar) ==> bar.label@ == "Assets"@ && bar.total == r.pending@.len()
}

/// Keeps only the objects that are still needed. `present[i]` says whether the file of `jobs[i]`
/// is there.
pub fn download_assets(jobs: Vec<AssetJob>, present: &Vec<bool>) -> (r: AssetPlan)
    requires
        present@.len() == jobs@.len(),
    ensures
        r.pending@ == missing(jobs@, present@),
        match r.bar {
            Some(bar) => r.pending@.len() > 0 && bar.label@ == "Assets"@ && bar.total
                == r.pending@.len(),
            None => r.pending@.len() == 0,
        },
        is_asset_plan(r, jobs@, present@),
{
    let mut pending: Vec<AssetJob> = Vec::new();
    let ghost all = jobs@;
    let mut i: usize = 0;
    for job in it: jobs
        invariant
            it.seq() == all,
            i == it.index(),
            present.len() == all.len(),
            pending@ == missing(all.take(it.index()), present@),
    {
        proof {
            assert(all.take(it.index() + 1).drop_last() =~= all.take(it.index()));
            assert(all.take(it.index() + 1).last() == job);
        }
        if !present[i] {
            pending.push(job);
        }
        i += 1;
    }
    assert(all.take(all.len() as int) =~= all);
    let total = pending.len();
    let bar = if total == 0 {
        None
    } else {
        Some(Bar { label: "Assets".to_string(), total })
    };
    AssetPlan { pending, bar }
}

/// The line that reports an object that could not be downloaded.
pub fn asset_failure(hash: &str, reason: &str) -> (r: String)
    ensures
        r@ == "asset "@ + hash@ + " failed: "@ + reason@,
{
    let mut out = "asset ".to_string();
    out.append(hash);
    out.append(" failed: ");
    out.append(reason);
    out
}

/// An object is left out of the download exactly where its file is there.
pub proof fn law_only_missing_assets_are_pending(jobs: Seq<AssetJob>, present: Seq<bool>)
    requires
        present.len() == jobs.len(),
    ensures
        forall|i: int|
            0 <= i < jobs.len() && !present[i] ==> missing(jobs, present).contains(#[trigger] jobs[i]),
        forall|job: AssetJob| #[trigger]
            missing(jobs, present).contains(job) ==> exists|i: int|
                0 <= i < jobs.len() && !present[i] && #[trigger] jobs[i] == job,
        missing(jobs, present).len() <= jobs.len(),
{
    lemma_missing(jobs, present);
}

proof fn lemma_missing(jobs: Seq<AssetJob>, present: Seq<bool>)
    requires
        present.len() >= jobs.len(),
    ensures
        forall|i: int|
            0 <= i < jobs.len() && !present[i] ==> missing(jobs, present).contains(#[trigger] jobs[i]),
        forall|job: AssetJob| #[trigger]
            missing(jobs, present).contains(job) ==> exists|i: int|
                0 <= i < jobs.len() && !present[i] && #[trigger] jobs[i] == job,
        missing(jobs, present).len() <= jobs.len(),
    decreases jobs.len(),
{
    if jobs.len() > 0 {
        let front = jobs.drop_last();
        let n = jobs.len() - 1;
        lemma_missing(front, present);
        let m = missing(front, present);
        let all = missing(jobs, present);
        assert forall|i: int| 0 <= i < jobs.len() && !present[i] implies all.contains(
            #[trigger] jobs[i],
        ) by {
            if i < n {
                assert(m.contains(front[i]));
                let k = choose|k: int| 0 <= k < m.len() && m[k] == front[i];
                assert(all[k] == jobs[i]);
            } else {
                assert(all[all.len() - 1] == jobs[i]);
            }
        }
        assert forall|job: AssetJob| #[trigger] all.contains(job) implies exists|i: int|
            0 <= i < jobs.len() && !present[i] && #[trigger] jobs[i] == job by {
            let k = choose|k: int| 0 <= k < all.len() && all[k] == job;
            if k < m.len() {
                assert(m[k] == job);
                assert(m.contains(job));
                let i = choose|i: int| 0 <= i < front.len() && !present[i] && #[trigger] front[i] == job;
                assert(jobs[i] == job);
            } else {
                assert(jobs[n] == job);
            }
        }
    }
}

/// An object has one place: two objects of one directory share a path only where they share
/// their hash.
pub proof fn law_objects_have_one_place(objects_dir: Seq<char>, a: Seq<char>, b: Seq<char>)
    requires
        prefix_len(a) is Some,
        prefix_len(b) is Some,
        !a.contains('/'),
        !b.contains('/'),
    ensures
        object_path(objects_dir, a) == object_path(objects_dir, b) <==> a == b,
{
    if object_path(objects_dir, a) == object_path(objects_dir, b) {
        let p = object_path(objects_dir, a);
        lemma_after_slash(objects_dir, a);
        lemma_after_slash(objects_dir, b);
        if a.len() < b.len() {
            assert(p[p.len() - a.len() - 1] == '/');
            let k = b.len() - a.len() - 1;
            assert(b[k] == p[p.len() - b.len() + k]);
            assert(b.contains('/'));
        } else if b.len() < a.len() {
            assert(p[p.len() - b.len() - 1] == '/');
            let k = a.len() - b.len() - 1;
            assert(a[k] == p[p.len() - a.len() + k]);
            assert(a.contains('/'));
        } else {
            assert(a =~= b);
        }
    }
}

proof fn lemma_after_slash(objects_dir: Seq<char>, a: Seq<char>)
    requires
        prefix_len(a) is Some,
        !a.contains('/'),
    ensures
        ({
            let p = object_path(objects_dir, a);
            &&& p.len() > a.len()
            &&& p[p.len() - a.len() - 1] == '/'
            &&& forall|k: int| 0 <= k < a.len() ==> #[trigger] a[k] == p[p.len() - a.len() + k]
        }),
{
    let sub = hash_prefix(a);
    assert(sub.len() > 0);
    assert(a.contains(a[0]));
    let dir = path_join(objects_dir, sub);
    assert(sub[0] == a[0]);
    assert(dir.last() == sub.last());
    assert(sub.last() == a[sub.len() - 1]);
    assert(a.contains(a[sub.len() - 1]));
    let p = object_path(objects_dir, a);
    assert(p == dir + seq!['/'] + a);
}

/// Assets keep their order: what is missing of a longer list is what is missing of its front, and
/// then the last where its file is not there.
pub proof fn law_missing_assets_keep_their_order(jobs: Seq<AssetJob>, present: Seq<bool>)
    requires
        jobs.len() > 0,
        present.len() == jobs.len(),
    ensures
        missing(Seq::empty(), present) == Seq::<AssetJob>::empty(),
        present.last() ==> missing(jobs, present) == missing(
            jobs.drop_last(),
            present.drop_last(),
        ),
        !present.last() ==> missing(jobs, present) == missing(
            jobs.drop_last(),
            present.drop_last(),
        ).push(jobs.last()),
{
    lemma_missing_front(jobs.drop_last(), present, present.drop_last());
    assert(missing(Seq::<AssetJob>::empty(), present) =~= Seq::<AssetJob>::empty());
}

proof fn lemma_missing_front(jobs: Seq<AssetJob>, a: Seq<bool>, b: Seq<bool>)
    requires
        forall|i: int| 0 <= i < jobs.len() ==> a[i] == b[i],
    ensures
        missing(jobs, a) == missing(jobs, b),
    decreases jobs.len(),
{
    if jobs.len() > 0 {
        assert(a[jobs.len() - 1] == b[jobs.len() - 1]);
        lemma_missing_front(jobs.drop_last(), a, b);
    }
}

/// A hash of ASCII characters is kept, and found, under its first two characters.
pub proof fn law_object_lies_under_its_first_two_characters(
    job: AssetJob,
    objects_dir: Seq<char>,
    hash: Seq<char>,
)
    requires
        is_job(job, objects_dir, hash),
        hash.len() >= 2,
        (hash[0] as u32) < 0x80,
        (hash[1] as u32) < 0x80,
    ensures
        job.hash@ == hash,
        job.url@ == "https://resources.download.minecraft.net/"@ + seq![hash[0], hash[1]] + "/"@
            + hash,
        job.dest@ == path_join(path_join(objects_dir, seq![hash[0], hash[1]]), hash),
{
    assert(hash_prefix(hash) =~= seq![hash[0], hash[1]]);
}

/// A hash has the two leading bytes that name its directory exactly where it begins with two ASCII
/// characters or with one character of two bytes.
pub proof fn law_hash_needs_two_leading_bytes(hash: Seq<char>)
    ensures
        prefix_len(hash) is Some ==> hash.len() > 0 && 0 < prefix_len(hash)->Some_0 <= hash.len(),
        hash.len() >= 2 && (hash[0] as u32) < 0x80 && (hash[1] as u32) < 0x80
            ==> prefix_len(hash) == Some(2int),
        hash.len() >= 1 && 0x80 <= (hash[0] as u32) && (hash[0] as u32) < 0x800
            ==> prefix_len(hash) == Some(1int),
        hash.len() == 0 ==> prefix_len(hash) is None,
        hash.len() >= 1 && (hash[0] as u32) >= 0x800 ==> prefix_len(hash) is None,
        hash.len() == 1 && (hash[0] as u32) < 0x80 ==> prefix_len(hash) is None,
        hash.len() >= 2 && (hash[0] as u32) < 0x80 && (hash[1] as u32) >= 0x80 ==> prefix_len(
            hash,
        ) is None,
{
}

/// An object is kept, and found, under the leading characters of its hash that name its directory.
pub proof fn law_object_lies_under_its_leading_characters(
    job: AssetJob,
    objects_dir: Seq<char>,
    hash: Seq<char>,
    n: int,
)
    requires
        is_job(job, objects_dir, hash),
        prefix_len(hash) == Some(n),
    ensures
        job.hash@ == hash,
        job.url@ == "https://resources.download.minecraft.net/"@ + hash.subrange(0, n) + "/"@ + hash,
        job.dest@ == path_join(path_join(objects_dir, hash.subrange(0, n)), hash),
{
    assert(hash.take(n) =~= hash.subrange(0, n));
}

/// What is left to download is exactly what is not there, and the bar counts it; where everything
/// is there, there is neither.
pub proof fn law_asset_plan_counts_what_is_missing(
    r: AssetPlan,
    jobs: Seq<AssetJob>,
    present: Seq<bool>,
    i: int,
)
    requires
        is_asset_plan(r, jobs, present),
        present.len() == jobs.len(),
        0 <= i < jobs.len(),
    ensures
        !present[i] ==> r.pending@.contains(jobs[i]),
        r.bar matches Some(bar) ==> bar.total == r.pending@.len() && bar.total > 0,
        (forall|k: int| 0 <= k < present.len() ==> present[k]) ==> r.bar is None
            && r.pending@.len() == 0,
{
    law_only_missing_assets_are_pending(jobs, present);
    if forall|k: int| 0 <= k < present.len() ==> present[k] {
        if r.pending@.len() > 0 {
            assert(missing(jobs, present).contains(r.pending@[0]));
        }
    }
}

} // verus!
