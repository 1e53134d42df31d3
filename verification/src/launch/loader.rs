//! Mod loaders: which version of a loader to take, and its profile merged onto vanilla.

use vstd::prelude::*;
use vstd::string::*;

use crate::launch::error::{LaunchError, LaunchFault};
use crate::launch::version::{Arguments, FabricLoaderEntry, LoaderProfile, VersionDetail};
use crate::types::{Loader, VersionEntry};

verus! {

broadcast use vstd::seq::group_seq_axioms;

/// A document to get, and what to report where that fails.
pub struct Fetch {
    pub url: String,
    pub context: String,
}

/// A `Fetch` with its texts as characters.
pub struct FetchText {
    pub url: Seq<char>,
    pub context: Seq<char>,
}

impl View for Fetch {
    type V = FetchText;

    open spec fn view(&self) -> FetchText {
        FetchText { url: self.url@, context: self.context@ }
    }
}

/// The base URL of the meta API of a loader that has one.
pub open spec fn meta_base(loader: Loader) -> Option<Seq<char>> {
    match loader {
        Loader::Fabric => Some("https://meta.fabricmc.net/v2"@),
        Loader::Quilt => Some("https://meta.quiltmc.org/v3"@),
        _ => None,
    }
}

/// The request for the versions of a loader that run with the version `mc` of the game.
pub open spec fn loader_list_text(loader: Loader, mc: Seq<char>) -> Result<FetchText, LaunchFault> {
    match meta_base(loader) {
        Some(base) => Ok(
            FetchText {
                url: base + "/versions/loader/"@ + mc,
                context: "listing "@ + loader.label_text() + " loader versions"@,
            },
        ),
        None => Err(LaunchFault::NoMetaApi(loader)),
    }
}

/// The request for the profile of the version `lv` of a loader.
pub open spec fn profile_text(base: Seq<char>, loader: Loader, mc: Seq<char>, lv: Seq<char>) -> FetchText {
    FetchText {
        url: base + "/versions/loader/"@ + mc + "/"@ + lv + "/profile/json"@,
        context: "fetching "@ + loader.label_text() + " profile"@,
    }
}

/// The first stable entry from `from` on; the length of the list where there is none.
pub open spec fn first_stable(list: Seq<FabricLoaderEntry>, from: int) -> int
    decreases list.len() - from,
{
    if from >= list.len() {
        list.len() as int
    } else if list[from].loader.stable {
        from
    } else {
        first_stable(list, from + 1)
    }
}

/// The version to take from a list that is newest-first: the newest stable one, else the newest.
pub open spec fn latest(list: Seq<FabricLoaderEntry>) -> Option<Seq<char>> {
    if list.len() == 0 {
        None
    } else if first_stable(list, 0) < list.len() {
        Some(list[first_stable(list, 0)].loader.version@)
    } else {
        Some(list[0].loader.version@)
    }
}

fn base_url(loader: Loader) -> (r: Option<&'static str>)
    ensures
        match r {
            Some(base) => meta_base(loader) == Some(base@),
            None => meta_base(loader) is None,
        },
{
    match loader {
        Loader::Fabric => Some("https://meta.fabricmc.net/v2"),
        Loader::Quilt => Some("https://meta.quiltmc.org/v3"),
        _ => None,
    }
}

/// The request for the versions of a loader that run with the version `mc` of the game.
pub fn loader_list_request(loader: Loader, mc: &str) -> (r: Result<Fetch, LaunchError>)
    ensures
        match r {
            Ok(f) => loader_list_text(loader, mc@) == Ok::<FetchText, LaunchFault>(f@),
            Err(e) => loader_list_text(loader, mc@) == Err::<FetchText, LaunchFault>(e@),
        },
{
    match base_url(loader) {
        Some(base) => {
            let mut url = base.to_string();
            url.append("/versions/loader/");
            url.append(mc);
            let mut context = "listing ".to_string();
            context.append(loader.label());
            context.append(" loader versions");
            Ok(Fetch { url, context })
        },
        None => Err(LaunchError::NoMetaApi(loader)),
    }
}

/// The loader version to take: the newest stable one, else the newest (the list is
/// newest-first).
pub fn latest_loader_version(loader: Loader, mc: &str, list: &Vec<FabricLoaderEntry>) -> (r: Result<
    String,
    LaunchError,
>)
    ensures
        match r {
            Ok(v) => latest(list@) == Some(v@),
            Err(e) => latest(list@) is None && e@ == LaunchFault::NoLoader(loader, mc@),
        },
{
    if list.len() == 0 {
        return Err(LaunchError::NoLoader(loader, mc.to_string()));
    }
    let mut i: usize = 0;
    while i < list.len()
        invariant
            i <= list@.len(),
            first_stable(list@, 0) == first_stable(list@, i as int),
        decreases list@.len() - i,
    {
        if list[i].loader.stable {
            return Ok(list[i].loader.version.clone());
        }
        i += 1;
    }
    Ok(list[0].loader.version.clone())
}

/// What came back, on the way to the full metadata of a version.
pub enum DetailEvent {
    /// Nothing has been asked yet.
    Start,
    /// The vanilla metadata.
    Detail(VersionDetail),
    /// The versions of the loader, beside the vanilla metadata.
    Loaders(VersionDetail, Vec<FabricLoaderEntry>),
    /// The profile of the loader, beside the vanilla metadata.
    Profile(VersionDetail, LoaderProfile),
}

/// What to do next, on the way to the full metadata of a version.
pub enum DetailAction {
    /// Log the notice and get the vanilla metadata.
    FetchDetail { notice: String, request: Fetch },
    /// Get the versions of the loader.
    FetchLoaders { base: VersionDetail, request: Fetch },
    /// Log the notice and get the profile of the loader.
    FetchProfile { base: VersionDetail, notice: String, request: Fetch },
    /// The metadata is complete.
    Ready(VersionDetail),
    /// There is no way to the metadata.
    Fail(LaunchError),
}

/// The arguments of a profile appended to those of the base.
pub open spec fn merged_arguments(
    base: Option<Arguments>,
    profile: Option<Arguments>,
    r: Option<Arguments>,
) -> bool {
    match profile {
        None => r == base,
        Some(p) => match base {
            Some(b) => r matches Some(m) && m.jvm@ == b.jvm@ + p.jvm@ && m.game@ == b.game@ + p.game@,
            None => r matches Some(m) && m.jvm@ == p.jvm@ && m.game@ == p.game@,
        },
    }
}

/// Whether `r` is `base` with the profile merged onto it: the profile's libraries stand in front,
/// its main class replaces the base's, its arguments follow the base's, and all else is the
/// base's.
pub open spec fn is_merged(base: VersionDetail, profile: LoaderProfile, r: VersionDetail) -> bool {
    &&& r.main_class == profile.main_class
    &&& r.libraries@ == profile.libraries@ + base.libraries@
    &&& merged_arguments(base.arguments, profile.arguments, r.arguments)
    &&& r.asset_index == base.asset_index
    &&& r.downloads == base.downloads
    &&& r.minecraft_arguments == base.minecraft_arguments
    &&& r.kind == base.kind
}

/// Merges a loader's profile onto the vanilla metadata.
pub fn merge_profile(base: VersionDetail, profile: LoaderProfile) -> (r: VersionDetail)
    ensures
        is_merged(base, profile, r),
{
    // loader libraries go first so loader classes take precedence
    let mut libraries = profile.libraries;
    let mut vanilla = base.libraries;
    libraries.append(&mut vanilla);
    let arguments = match profile.arguments {
        None => base.arguments,
        Some(p) => {
            let mut more_jvm = p.jvm;
            let mut more_game = p.game;
            match base.arguments {
                Some(b) => {
                    let mut jvm = b.jvm;
                    let mut game = b.game;
                    jvm.append(&mut more_jvm);
                    game.append(&mut more_game);
                    Some(Arguments { game, jvm })
                },
                None => Some(Arguments { game: more_game, jvm: more_jvm }),
            }
        },
    };
    VersionDetail {
        main_class: profile.main_class,
        asset_index: base.asset_index,
        downloads: base.downloads,
        libraries,
        arguments,
        minecraft_arguments: base.minecraft_arguments,
        kind: base.kind,
    }
}

/// The step from what came back to what comes next. Vanilla needs its own metadata alone; Fabric
/// and Quilt need the list of their versions and the profile of the one taken; Forge and NeoForge
/// are refused once the vanilla metadata is there.
pub open spec fn is_detail_step(
    version: VersionEntry,
    loader: Loader,
    event: DetailEvent,
    action: DetailAction,
) -> bool {
    match event {
        DetailEvent::Start => {
            &&& action matches DetailAction::FetchDetail { notice, request }
            &&& notice@ == "Fetching "@ + version.id@ + " ("@ + loader.label_text() + ") metadata…"@
            &&& request@ == FetchText { url: version.url@, context: "fetching version detail"@ }
        },
        DetailEvent::Detail(base) => match loader {
            Loader::Vanilla => action == DetailAction::Ready(base),
            Loader::Fabric | Loader::Quilt => {
                &&& action matches DetailAction::FetchLoaders { base: b, request }
                &&& b == base
                &&& loader_list_text(loader, version.id@) == Ok::<FetchText, LaunchFault>(request@)
            },
            Loader::Forge | Loader::NeoForge => {
                &&& action matches DetailAction::Fail(e)
                &&& e@ == LaunchFault::Unsupported(loader)
            },
        },
        DetailEvent::Loaders(base, list) => match meta_base(loader) {
            None => action matches DetailAction::Fail(e) && e@ == LaunchFault::NoMetaApi(loader),
            Some(meta) => match latest(list@) {
                None => action matches DetailAction::Fail(e) && e@ == LaunchFault::NoLoader(
                    loader,
                    version.id@,
                ),
                Some(lv) => {
                    &&& action matches DetailAction::FetchProfile { base: b, notice, request }
                    &&& b == base
                    &&& notice@ == loader.label_text() + " loader "@ + lv
                    &&& request@ == profile_text(meta, loader, version.id@, lv)
                },
            },
        },
        DetailEvent::Profile(base, profile) => {
            &&& action matches DetailAction::Ready(r)
            &&& is_merged(base, profile, r)
        },
    }
}

/// The vanilla metadata and, for Fabric/Quilt, the loader profile merged onto it: from what came
/// back to what comes next.
pub fn merged_detail(version: &VersionEntry, loader: Loader, event: DetailEvent) -> (r: DetailAction)
    ensures
        is_detail_step(*version, loader, event, r),
{
    match event {
        DetailEvent::Start => {
            let mut notice = "Fetching ".to_string();
            notice.append(version.id.as_str());
            notice.append(" (");
            notice.append(loader.label());
            notice.append(") metadata…");
            DetailAction::FetchDetail {
                notice,
                request: Fetch {
                    url: version.url.clone(),
                    context: "fetching version detail".to_string(),
                },
            }
        },
        DetailEvent::Detail(base) => match loader {
            Loader::Vanilla => DetailAction::Ready(base),
            Loader::Fabric | Loader::Quilt => match loader_list_request(
                loader,
                version.id.as_str(),
            ) {
                Ok(request) => DetailAction::FetchLoaders { base, request },
                Err(e) => DetailAction::Fail(e),
            },
            Loader::Forge | Loader::NeoForge => DetailAction::Fail(
                LaunchError::Unsupported(loader),
            ),
        },
        DetailEvent::Loaders(base, list) => {
            let meta = match base_url(loader) {
                Some(meta) => meta,
                None => {
                    return DetailAction::Fail(LaunchError::NoMetaApi(loader));
                },
            };
            match latest_loader_version(loader, version.id.as_str(), &list) {
                Ok(lv) => {
                    let mut url = meta.to_string();
                    url.append("/versions/loader/");
                    url.append(version.id.as_str());
                    url.append("/");
                    url.append(lv.as_str());
                    url.append("/profile/json");
                    let mut notice = loader.label().to_string();
                    notice.append(" loader ");
                    notice.append(lv.as_str());
                    let mut context = "fetching ".to_string();
                    context.append(loader.label());
                    context.append(" profile");
                    DetailAction::FetchProfile { base, notice, request: Fetch { url, context } }
                },
                Err(e) => DetailAction::Fail(e),
            }
        },
        DetailEvent::Profile(base, profile) => DetailAction::Ready(merge_profile(base, profile)),
    }
}

/// The version taken is a stable one wherever the list has one, and then no stable entry stands
/// before it; else it is the first of the list.
pub proof fn law_newest_stable_is_preferred(list: Seq<FabricLoaderEntry>)
    requires
        list.len() > 0,
    ensures
        exists|i: int|
            {
                &&& 0 <= i < list.len()
                &&& latest(list) == Some((#[trigger] list[i]).loader.version@)
                &&& forall|j: int| 0 <= j < i ==> !(#[trigger] list[j]).loader.stable
                &&& list[i].loader.stable || (i == 0 && forall|j: int|
                    0 <= j < list.len() ==> !(#[trigger] list[j]).loader.stable)
            },
{
    lemma_first_stable(list, 0);
    let i = first_stable(list, 0);
    if i < list.len() {
        assert(latest(list) == Some(list[i].loader.version@));
    } else {
        assert(latest(list) == Some(list[0].loader.version@));
    }
}

proof fn lemma_first_stable(list: Seq<FabricLoaderEntry>, from: int)
    requires
        0 <= from <= list.len(),
    ensures
        from <= first_stable(list, from) <= list.len(),
        forall|j: int| from <= j < first_stable(list, from) ==> !(#[trigger] list[j]).loader.stable,
        first_stable(list, from) < list.len() ==> list[first_stable(list, from)].loader.stable,
    decreases list.len() - from,
{
    if from < list.len() && !list[from].loader.stable {
        lemma_first_stable(list, from + 1);
    }
}

/// A list without versions gives none.
pub proof fn law_no_loader_without_versions(list: Seq<FabricLoaderEntry>)
    ensures
        latest(list) is None <==> list.len() == 0,
{
}

/// A merge keeps both sides whole and in order. The libraries of the profile come first, those of
/// the base last; of the arguments, those of the base come first and those of the profile last,
/// the virtual machine's among the virtual machine's and the game's among the game's. A side
/// without arguments leaves those of the other as they are. The main class is the profile's, and
/// all else is the base's.
pub proof fn law_merge_keeps_both_sides(
    base: VersionDetail,
    profile: LoaderProfile,
    merged: VersionDetail,
)
    requires
        is_merged(base, profile, merged),
    ensures
        merged.libraries@.len() == profile.libraries@.len() + base.libraries@.len(),
        profile.libraries@.is_prefix_of(merged.libraries@),
        base.libraries@.is_suffix_of(merged.libraries@),
        base.arguments matches Some(b) ==> profile.arguments matches Some(p) ==> {
            &&& merged.arguments matches Some(m)
            &&& m.jvm@.len() == b.jvm@.len() + p.jvm@.len()
            &&& b.jvm@.is_prefix_of(m.jvm@)
            &&& p.jvm@.is_suffix_of(m.jvm@)
            &&& m.game@.len() == b.game@.len() + p.game@.len()
            &&& b.game@.is_prefix_of(m.game@)
            &&& p.game@.is_suffix_of(m.game@)
        },
        profile.arguments is None ==> merged.arguments == base.arguments,
        base.arguments is None ==> (profile.arguments matches Some(p) ==> {
            &&& merged.arguments matches Some(m)
            &&& m.jvm@ == p.jvm@
            &&& m.game@ == p.game@
        }),
        merged.main_class@ == profile.main_class@,
        merged.asset_index == base.asset_index,
        merged.downloads == base.downloads,
        merged.minecraft_arguments == base.minecraft_arguments,
        merged.kind@ == base.kind@,
{
    lemma_sum_keeps_both(profile.libraries@, base.libraries@);
    if base.arguments is Some && profile.arguments is Some {
        let b = base.arguments->Some_0;
        let p = profile.arguments->Some_0;
        lemma_sum_keeps_both(b.jvm@, p.jvm@);
        lemma_sum_keeps_both(b.game@, p.game@);
    }
}

proof fn lemma_sum_keeps_both<A>(a: Seq<A>, b: Seq<A>)
    ensures
        a.is_prefix_of(a + b),
        b.is_suffix_of(a + b),
{
    assert((a + b).subrange(0, a.len() as int) =~= a);
    assert((a + b).subrange(a.len() as int, (a + b).len() as int) =~= b);
}

/// Vanilla needs nothing but its own metadata, and takes it as it is.
pub proof fn law_vanilla_takes_its_own_metadata(
    version: VersionEntry,
    base: VersionDetail,
    first: DetailAction,
    second: DetailAction,
)
    requires
        is_detail_step(version, Loader::Vanilla, DetailEvent::Start, first),
        is_detail_step(version, Loader::Vanilla, DetailEvent::Detail(base), second),
    ensures
        first is FetchDetail,
        first->FetchDetail_request.url@ == version.url@,
        second == DetailAction::Ready(base),
{
}

/// A way to the metadata with Fabric or Quilt leads, in this order, to the vanilla metadata, to
/// the list of the loader's versions for this version of the game, to the profile of the version
/// taken from that list, and to the two merged. All but the first are asked of the loader's own
/// meta API.
pub proof fn law_loader_is_fetched_and_merged(
    version: VersionEntry,
    loader: Loader,
    base: VersionDetail,
    list: Vec<FabricLoaderEntry>,
    profile: LoaderProfile,
    first: DetailAction,
    second: DetailAction,
    third: DetailAction,
    fourth: DetailAction,
)
    requires
        loader == Loader::Fabric || loader == Loader::Quilt,
        latest(list@) is Some,
        is_detail_step(version, loader, DetailEvent::Start, first),
        is_detail_step(version, loader, DetailEvent::Detail(base), second),
        is_detail_step(version, loader, DetailEvent::Loaders(base, list), third),
        is_detail_step(version, loader, DetailEvent::Profile(base, profile), fourth),
    ensures
        ({
            let meta = if loader == Loader::Fabric {
                "https://meta.fabricmc.net/v2"@
            } else {
                "https://meta.quiltmc.org/v3"@
            };
            &&& first is FetchDetail && first->FetchDetail_request.url@ == version.url@
            &&& second is FetchLoaders && second->FetchLoaders_base == base
            &&& second->FetchLoaders_request.url@ == meta + "/versions/loader/"@ + version.id@
            &&& third is FetchProfile && third->FetchProfile_base == base
            &&& third->FetchProfile_request.url@ == meta + "/versions/loader/"@ + version.id@ + "/"@
                + latest(list@)->Some_0 + "/profile/json"@
            &&& fourth is Ready && is_merged(base, profile, fourth->Ready_0)
        }),
{
}

/// Forge and NeoForge are never started: the vanilla metadata leads to a refusal that names the
/// loader. So does a list without a version for this version of the game.
pub proof fn law_loader_that_cannot_start_is_refused(
    version: VersionEntry,
    loader: Loader,
    base: VersionDetail,
    list: Vec<FabricLoaderEntry>,
    detail: DetailAction,
    listed: DetailAction,
)
    requires
        is_detail_step(version, loader, DetailEvent::Detail(base), detail),
        is_detail_step(version, loader, DetailEvent::Loaders(base, list), listed),
    ensures
        loader == Loader::Forge || loader == Loader::NeoForge ==> {
            &&& detail matches DetailAction::Fail(e)
            &&& e@ == LaunchFault::Unsupported(loader)
        },
        (loader == Loader::Fabric || loader == Loader::Quilt) && list@.len() == 0 ==> {
            &&& listed matches DetailAction::Fail(e)
            &&& e@ == LaunchFault::NoLoader(loader, version.id@)
        },
        loader == Loader::Vanilla || loader == Loader::Forge || loader == Loader::NeoForge ==> {
            &&& listed matches DetailAction::Fail(e)
            &&& e@ == LaunchFault::NoMetaApi(loader)
        },
{
}

/// What is said of a request is its own address, and what it is for.
pub proof fn law_request_is_as_it_reads(f: Fetch, loader: Loader, mc: Seq<char>)
    ensures
        f@.url == f.url@,
        f@.context == f.context@,
        loader == Loader::Fabric || loader == Loader::Quilt ==> {
            &&& loader_list_text(loader, mc) matches Ok(r)
            &&& r.context == "listing "@ + loader.label_text() + " loader versions"@
        },
        loader == Loader::Vanilla || loader == Loader::Forge || loader == Loader::NeoForge
            ==> loader_list_text(loader, mc) == Err::<FetchText, LaunchFault>(
            LaunchFault::NoMetaApi(loader),
        ),
{
}

} // verus!
