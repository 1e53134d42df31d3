//! Downloads: a file that is there is not fetched again.

use vstd::prelude::*;
use vstd::string::*;

use crate::launch::loader::{Fetch, FetchText};

verus! {

/// The request that brings a file, where it is not there yet.
pub open spec fn download_text(url: Seq<char>, present: bool) -> Option<FetchText> {
    if present {
        None
    } else {
        Some(FetchText { url, context: "downloading "@ + url })
    }
}

/// The request that brings the file at `url`. `present` says whether its destination is there:
/// then there is nothing to fetch.
pub fn download_to(url: &str, present: bool) -> (r: Option<Fetch>)
    ensures
        match r {
            Some(f) => download_text(url@, present) == Some(f@),
            None => download_text(url@, present) is None,
        },
{
    if present {
        return None;
    }
    Some(Fetch { url: url.to_string(), context: "downloading ".to_string().concat(url) })
}

/// A file that is there is never fetched; any other is, from its own address.
pub proof fn law_only_missing_files_are_fetched(url: Seq<char>)
    ensures
        download_text(url, true) is None,
        download_text(url, false) matches Some(f) && f.url == url && url.is_suffix_of(f.context),
{
    let c = "downloading "@ + url;
    assert(c.subrange(c.len() - url.len(), c.len() as int) =~= url);
}

} // verus!
