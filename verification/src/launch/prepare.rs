//! From the metadata of a version to the steps that bring its files and the plan to start it.

use vstd::prelude::*;
use vstd::string::*;

use crate::launch::error::{LaunchError, LaunchFault};
use crate::launch::loader::is_merged;
use crate::launch::maven::{maven_path, maven_path_text};
use crate::launch::rules::{allowed, rules_allow, Platform};
use crate::launch::version::{Arguments, Artifact, Library, LoaderProfile, VersionDetail};
use crate::log::{ended, one_more, started, Progress};
use crate::store::{join, path_join, Paths};
use crate::text::{replace, replaced, same_text, texts};
use crate::types::VersionEntry;

verus! {

broadcast use vstd::seq::group_seq_axioms;

/// All that is needed to start a version whose files are there.
pub struct Prepared {
    pub classpath: Vec<String>,
    pub natives_dir: String,
    pub main_class: String,
    pub asset_index_id: String,
    pub assets_dir: String,
    pub version_id: String,
    pub version_type: String,
    pub arguments: Option<Arguments>,
    pub legacy_arguments: Option<String>,
}

/// One thing to do while a version is prepared.
pub enum Step {
    /// Log a line.
    Info(String),
    /// Create a directory with all its parents.
    CreateDir(String),
    /// Download a file unless it is there.
    Download { url: String, dest: String },
    /// Extract the natives of a jar.
    Extract { jar: String, dest: String, exclude: Vec<String> },
    /// Start a progress bar.
    ProgressStart { label: String, total: usize },
    /// Advance the progress bar.
    ProgressInc,
    /// End the progress bar.
    ProgressFinish,
    /// Download the asset index, then the objects it lists.
    Assets { index_url: String, index_path: String, objects_dir: String },
}

/// A `Step` with its texts as characters.
pub enum StepText {
    Info(Seq<char>),
    CreateDir(Seq<char>),
    Download { url: Seq<char>, dest: Seq<char> },
    Extract { jar: Seq<char>, dest: Seq<char>, exclude: Seq<Seq<char>> },
    ProgressStart { label: Seq<char>, total: int },
    ProgressInc,
    ProgressFinish,
    Assets { index_url: Seq<char>, index_path: Seq<char>, objects_dir: Seq<char> },
}

impl View for Step {
    type V = StepText;

    open spec fn view(&self) -> StepText {
        match *self {
            Step::Info(line) => StepText::Info(line@),
            Step::CreateDir(dir) => StepText::CreateDir(dir@),
            Step::Download { url, dest } => StepText::Download { url: url@, dest: dest@ },
            Step::Extract { jar, dest, exclude } => StepText::Extract {
                jar: jar@,
                dest: dest@,
                exclude: texts(exclude@),
            },
            Step::ProgressStart { label, total } => StepText::ProgressStart {
                label: label@,
                total: total as int,
            },
            Step::ProgressInc => StepText::ProgressInc,
            Step::ProgressFinish => StepText::ProgressFinish,
            Step::Assets { index_url, index_path, objects_dir } => StepText::Assets {
                index_url: index_url@,
                index_path: index_path@,
                objects_dir: objects_dir@,
            },
        }
    }
}

/// The texts of a list of steps.
pub open spec fn step_texts(steps: Seq<Step>) -> Seq<StepText> {
    Seq::new(steps.len(), |i: int| steps[i]@)
}

/// What becomes of a library.
pub enum LibraryUse {
    /// Nothing: it is not for this system, or there is nothing to download.
    Skip,
    /// It is downloaded and its natives are extracted.
    Natives { url: String, path: String, exclude: Vec<String> },
    /// It is downloaded and stands on the class path.
    Classpath { url: String, path: String },
}

/// A `LibraryUse` with its texts as characters.
pub enum LibraryUseText {
    Skip,
    Natives { url: Seq<char>, path: Seq<char>, exclude: Seq<Seq<char>> },
    Classpath { url: Seq<char>, path: Seq<char> },
}

impl View for LibraryUse {
    type V = LibraryUseText;

    open spec fn view(&self) -> LibraryUseText {
        match *self {
            LibraryUse::Skip => LibraryUseText::Skip,
            LibraryUse::Natives { url, path, exclude } => LibraryUseText::Natives {
                url: url@,
                path: path@,
                exclude: texts(exclude@),
            },
            LibraryUse::Classpath { url, path } => LibraryUseText::Classpath {
                url: url@,
                path: path@,
            },
        }
    }
}

/// The classifier of the natives of a library on `platform`, where it has any: the template for
/// the operating system with `${arch}` replaced by the width of the processor.
pub open spec fn native_classifier(lib: Library, platform: Platform) -> Option<Seq<char>> {
    match lib.natives {
        Some(natives) => if natives@.contains_key(platform.name@) {
            Some(
                replaced(
                    natives@[platform.name@]@,
                    "${arch}"@,
                    if platform.arch@ == "x86"@ {
                        "32"@
                    } else {
                        "64"@
                    },
                ),
            )
        } else {
            None
        },
        None => None,
    }
}

/// The file of a library with the given classifier.
pub open spec fn classified(lib: Library, classifier: Seq<char>) -> Option<Artifact> {
    match lib.downloads {
        Some(d) => match d.classifiers {
            Some(c) => if c@.contains_key(classifier) {
                Some(c@[classifier])
            } else {
                None
            },
            None => None,
        },
        None => None,
    }
}

/// The plain file of a library.
pub open spec fn plain(lib: Library) -> Option<Artifact> {
    match lib.downloads {
        Some(d) => d.artifact,
        None => None,
    }
}

/// The path an artifact gives for itself, else the derived one.
pub open spec fn path_or(art: Artifact, derived: Seq<char>) -> Seq<char> {
    match art.path {
        Some(p) => p@,
        None => derived,
    }
}

/// The prefixes that are not extracted from the natives of a library.
pub open spec fn excluded(lib: Library) -> Seq<Seq<char>> {
    match lib.extract {
        Some(e) => texts(e.exclude@),
        None => Seq::empty(),
    }
}

/// What becomes of a library on `platform`. A name from which no path can be derived is an error
/// wherever the library has a file to download, even one that gives its own path.
pub open spec fn library_use(lib: Library, platform: Platform) -> Result<
    LibraryUseText,
    LaunchFault,
> {
    if lib.rules matches Some(rules) && !allowed(rules@, platform) {
        Ok(LibraryUseText::Skip)
    } else if lib.natives is Some {
        match native_classifier(lib, platform) {
            None => Ok(LibraryUseText::Skip),
            Some(classifier) => match classified(lib, classifier) {
                None => Ok(LibraryUseText::Skip),
                Some(art) => match maven_path_text(lib.name@ + ":"@ + classifier) {
                    Err(e) => Err(e),
                    Ok(derived) => Ok(
                        LibraryUseText::Natives {
                            url: art.url@,
                            path: path_or(art, derived),
                            exclude: excluded(lib),
                        },
                    ),
                },
            },
        }
    } else {
        match plain(lib) {
            Some(art) => match maven_path_text(lib.name@) {
                Err(e) => Err(e),
                Ok(derived) => Ok(
                    LibraryUseText::Classpath { url: art.url@, path: path_or(art, derived) },
                ),
            },
            None => match lib.url {
                Some(base) => match maven_path_text(lib.name@) {
                    Err(e) => Err(e),
                    Ok(derived) => Ok(
                        LibraryUseText::Classpath { url: base@ + derived, path: derived },
                    ),
                },
                None => Ok(LibraryUseText::Skip),
            },
        }
    }
}

fn path_of(art: &Artifact, derived: String) -> (r: String)
    ensures
        r@ == path_or(*art, derived@),
{
    match &art.path {
        Some(p) => p.clone(),
        None => derived,
    }
}

fn copied(list: &Vec<String>) -> (r: Vec<String>)
    ensures
        texts(r@) == texts(list@),
{
    let mut out: Vec<String> = Vec::new();
    let mut i: usize = 0;
    while i < list.len()
        invariant
            i <= list@.len(),
            texts(out@) == texts(list@).take(i as int),
        decreases list@.len() - i,
    {
        let ghost before = texts(out@);
        out.push(list[i].clone());
        assert(texts(out@) =~= before.push(list@[i as int]@));
        assert(texts(list@).take(i + 1) =~= texts(list@).take(i as int).push(list@[i as int]@));
        i += 1;
    }
    assert(texts(list@).take(i as int) =~= texts(list@));
    out
}

fn exclusions(lib: &Library) -> (r: Vec<String>)
    ensures
        texts(r@) == excluded(*lib),
{
    match &lib.extract {
        Some(e) => copied(&e.exclude),
        None => {
            let out: Vec<String> = Vec::new();
            assert(texts(out@) =~= Seq::empty());
            out
        },
    }
}

fn classified_artifact<'a>(lib: &'a Library, classifier: &str) -> (r: Option<&'a Artifact>)
    ensures
        match r {
            Some(art) => classified(*lib, classifier@) == Some(*art),
            None => classified(*lib, classifier@) is None,
        },
{
    match &lib.downloads {
        Some(d) => match &d.classifiers {
            Some(c) => c.get(classifier),
            None => None,
        },
        None => None,
    }
}

fn native_artifact(lib: &Library, platform: &Platform) -> (r: Result<LibraryUse, LaunchError>)
    requires
        lib.natives is Some,
        !(lib.rules matches Some(rules) && !allowed(rules@, *platform)),
    ensures
        match r {
            Ok(u) => library_use(*lib, *platform) == Ok::<LibraryUseText, LaunchFault>(u@),
            Err(e) => library_use(*lib, *platform) == Err::<LibraryUseText, LaunchFault>(e@),
        },
{
    let natives = match &lib.natives {
        Some(natives) => natives,
        None => {
            return Ok(LibraryUse::Skip);
        },
    };
    let template = match natives.get(platform.name.as_str()) {
        Some(template) => template,
        None => {
            return Ok(LibraryUse::Skip);
        },
    };
    let bits = if same_text(platform.arch.as_str(), "x86") {
        "32"
    } else {
        "64"
    };
    proof {
        reveal_strlit("${arch}");
    }
    let classifier = replace(template.as_str(), "${arch}", bits);
    match classified_artifact(lib, classifier.as_str()) {
        None => Ok(LibraryUse::Skip),
        Some(art) => {
            let mut name = lib.name.clone();
            name.append(":");
            name.append(classifier.as_str());
            match maven_path(name.as_str()) {
                Err(e) => Err(e),
                Ok(derived) => Ok(
                    LibraryUse::Natives {
                        url: art.url.clone(),
                        path: path_of(art, derived),
                        exclude: exclusions(lib),
                    },
                ),
            }
        },
    }
}

/// What becomes of a library on `platform`.
pub fn plan_library(lib: &Library, platform: &Platform) -> (r: Result<LibraryUse, LaunchError>)
    ensures
        match r {
            Ok(u) => library_use(*lib, *platform) == Ok::<LibraryUseText, LaunchFault>(u@),
            Err(e) => library_use(*lib, *platform) == Err::<LibraryUseText, LaunchFault>(e@),
        },
{
    if let Some(rules) = &lib.rules {
        if !rules_allow(rules, platform) {
            return Ok(LibraryUse::Skip);
        }
    }
    // old-style natives: pick the classifier for this OS and extract it
    if lib.natives.is_some() {
        return native_artifact(lib, platform);
    }
    // normal library (includes modern natives jars, which go on classpath)
    if let Some(d) = &lib.downloads {
        if let Some(art) = &d.artifact {
            return match maven_path(lib.name.as_str()) {
                Err(e) => Err(e),
                Ok(derived) => Ok(
                    LibraryUse::Classpath { url: art.url.clone(), path: path_of(art, derived) },
                ),
            };
        }
    }
    match &lib.url {
        // Fabric/Quilt style: maven base URL + derived path
        Some(base) => match maven_path(lib.name.as_str()) {
            Err(e) => Err(e),
            Ok(derived) => {
                let mut url = base.clone();
                url.append(derived.as_str());
                Ok(LibraryUse::Classpath { url, path: derived })
            },
        },
        None => Ok(LibraryUse::Skip),
    }
}

/// What walking a list of libraries has brought so far: the steps, the entries of the class path,
/// and the error that ended the walk.
pub struct Walk {
    pub steps: Seq<StepText>,
    pub classpath: Seq<Seq<char>>,
    pub fault: Option<LaunchFault>,
}

/// The steps for one library.
pub open spec fn use_steps(u: LibraryUseText, libraries: Seq<char>, natives: Seq<char>) -> Seq<
    StepText,
> {
    match u {
        LibraryUseText::Skip => Seq::empty(),
        LibraryUseText::Natives { url, path, exclude } => seq![
            StepText::Download { url, dest: path_join(libraries, path) },
            StepText::Extract { jar: path_join(libraries, path), dest: natives, exclude },
        ],
        LibraryUseText::Classpath { url, path } => seq![
            StepText::Download { url, dest: path_join(libraries, path) },
        ],
    }
}

/// What one library adds to the class path.
pub open spec fn use_entries(u: LibraryUseText, libraries: Seq<char>) -> Seq<Seq<char>> {
    match u {
        LibraryUseText::Classpath { url, path } => seq![path_join(libraries, path)],
        _ => Seq::empty(),
    }
}

/// The walk over a list of libraries, in order: each advances the progress bar, then does what
/// becomes of it; the first error ends the walk.
pub open spec fn walk(
    libs: Seq<Library>,
    platform: Platform,
    libraries: Seq<char>,
    natives: Seq<char>,
) -> Walk
    decreases libs.len(),
{
    if libs.len() == 0 {
        Walk { steps: Seq::empty(), classpath: Seq::empty(), fault: None }
    } else {
        let before = walk(libs.drop_last(), platform, libraries, natives);
        if before.fault is Some {
            before
        } else {
            match library_use(libs.last(), platform) {
                Err(e) => Walk {
                    steps: before.steps.push(StepText::ProgressInc),
                    classpath: before.classpath,
                    fault: Some(e),
                },
                Ok(u) => Walk {
                    steps: before.steps.push(StepText::ProgressInc) + use_steps(
                        u,
                        libraries,
                        natives,
                    ),
                    classpath: before.classpath + use_entries(u, libraries),
                    fault: None,
                },
            }
        }
    }
}

/// The walk for a version with its own directories.
pub open spec fn version_walk(
    libs: Seq<Library>,
    platform: Platform,
    paths: Paths,
    id: Seq<char>,
) -> Walk {
    walk(libs, platform, paths.libraries_text(), paths.natives_dir_text(id))
}

/// The client jar of a version.
pub open spec fn client_jar_text(paths: Paths, id: Seq<char>) -> Seq<char> {
    path_join(paths.version_dir_text(id), id + ".jar"@)
}

/// The steps before the libraries.
pub open spec fn opening_steps(id: Seq<char>, detail: VersionDetail, paths: Paths) -> Seq<StepText> {
    seq![
        StepText::CreateDir(paths.version_dir_text(id)),
        StepText::Info("Downloading client jar…"@),
        StepText::Download {
            url: detail.downloads.client.url@,
            dest: client_jar_text(paths, id),
        },
        StepText::CreateDir(paths.natives_dir_text(id)),
        StepText::ProgressStart {
            label: "Libraries"@,
            total: detail.libraries@.len() as int,
        },
    ]
}

/// The steps after the libraries.
pub open spec fn closing_steps(detail: VersionDetail, paths: Paths) -> Seq<StepText> {
    seq![
        StepText::ProgressFinish,
        StepText::Info("Downloading assets ("@ + detail.asset_index.id@ + ")…"@),
        StepText::Assets {
            index_url: detail.asset_index.url@,
            index_path: path_join(
                path_join(paths.assets_text(), "indexes"@),
                detail.asset_index.id@ + ".json"@,
            ),
            objects_dir: path_join(paths.assets_text(), "objects"@),
        },
        StepText::Info("Assets ready."@),
    ]
}

/// What is done where a step has failed: no download is active any more.
pub open spec fn failed_steps() -> Seq<StepText> {
    seq![StepText::ProgressFinish]
}

/// All steps that prepare a version; an error among the libraries ends them, and the progress bar
/// with them.
pub open spec fn all_steps(
    id: Seq<char>,
    detail: VersionDetail,
    paths: Paths,
    platform: Platform,
) -> Seq<StepText> {
    let w = version_walk(detail.libraries@, platform, paths, id);
    if w.fault is Some {
        opening_steps(id, detail, paths) + w.steps + failed_steps()
    } else {
        opening_steps(id, detail, paths) + w.steps + closing_steps(detail, paths)
    }
}

/// Whether `p` is the plan to start `version` with the metadata `detail`.
pub open spec fn is_prepared(
    p: Prepared,
    version: VersionEntry,
    detail: VersionDetail,
    paths: Paths,
    platform: Platform,
) -> bool {
    &&& texts(p.classpath@) == seq![client_jar_text(paths, version.id@)] + version_walk(
        detail.libraries@,
        platform,
        paths,
        version.id@,
    ).classpath
    &&& p.natives_dir@ == paths.natives_dir_text(version.id@)
    &&& p.main_class == detail.main_class
    &&& p.asset_index_id@ == detail.asset_index.id@
    &&& p.assets_dir@ == paths.assets_text()
    &&& p.version_id@ == version.id@
    &&& p.version_type@ == (if detail.kind@.len() == 0 {
        version.kind@
    } else {
        detail.kind@
    })
    &&& p.arguments == detail.arguments
    &&& p.legacy_arguments == detail.minecraft_arguments
}

/// The steps that prepare a version, to be done in order, and what comes out once all of them are
/// done. Where one fails, those of [`prepare_failed`] are done in place of the rest.
pub struct Plan {
    pub steps: Vec<Step>,
    pub outcome: Result<Prepared, LaunchError>,
}

/// Whether `r` is the plan that prepares `version` with the metadata `detail`.
pub open spec fn is_plan(
    r: Plan,
    version: VersionEntry,
    detail: VersionDetail,
    paths: Paths,
    platform: Platform,
) -> bool {
    &&& step_texts(r.steps@) == all_steps(version.id@, detail, paths, platform)
    &&& match r.outcome {
        Ok(p) => {
            &&& version_walk(detail.libraries@, platform, paths, version.id@).fault is None
            &&& is_prepared(p, version, detail, paths, platform)
        },
        Err(e) => version_walk(detail.libraries@, platform, paths, version.id@).fault == Some(e@),
    }
}

/// Appends what walking one library brings.
fn push_use(
    u: LibraryUse,
    libraries: &str,
    natives: &str,
    steps: &mut Vec<Step>,
    classpath: &mut Vec<String>,
)
    ensures
        step_texts(final(steps)@) == step_texts(old(steps)@) + use_steps(u@, libraries@, natives@),
        texts(final(classpath)@) == texts(old(classpath)@) + use_entries(u@, libraries@),
{
    let ghost s = step_texts(steps@);
    let ghost c = texts(classpath@);
    match u {
        LibraryUse::Skip => {
            assert(s + use_steps(u@, libraries@, natives@) =~= s);
            assert(c + use_entries(u@, libraries@) =~= c);
        },
        LibraryUse::Natives { url, path, exclude } => {
            let dest = join(libraries, path.as_str());
            steps.push(Step::Download { url, dest: dest.clone() });
            steps.push(Step::Extract { jar: dest, dest: natives.to_string(), exclude });
            assert(step_texts(steps@) =~= s + use_steps(u@, libraries@, natives@));
            assert(c + use_entries(u@, libraries@) =~= c);
        },
        LibraryUse::Classpath { url, path } => {
            let dest = join(libraries, path.as_str());
            steps.push(Step::Download { url, dest: dest.clone() });
            classpath.push(dest);
            assert(step_texts(steps@) =~= s + use_steps(u@, libraries@, natives@));
            assert(texts(classpath@) =~= c + use_entries(u@, libraries@));
        },
    }
}

/// Walks the libraries, appending to `steps` and `classpath`; returns the error that ended the
/// walk.
fn walk_libraries(
    libs: &Vec<Library>,
    platform: &Platform,
    libraries: &str,
    natives: &str,
    steps: &mut Vec<Step>,
    classpath: &mut Vec<String>,
) -> (r: Option<LaunchError>)
    ensures
        ({
            let w = walk(libs@, *platform, libraries@, natives@);
            &&& step_texts(final(steps)@) == step_texts(old(steps)@) + w.steps
            &&& texts(final(classpath)@) == texts(old(classpath)@) + w.classpath
            &&& match r {
                Some(e) => w.fault == Some(e@),
                None => w.fault is None,
            }
        }),
{
    let ghost s = step_texts(steps@);
    let ghost c = texts(classpath@);
    let mut i: usize = 0;
    assert(libs@.take(0) =~= Seq::empty());
    assert(s + Seq::<StepText>::empty() =~= s);
    assert(c + Seq::<Seq<char>>::empty() =~= c);
    while i < libs.len()
        invariant
            i <= libs@.len(),
            s == step_texts(old(steps)@),
            c == texts(old(classpath)@),
            ({
                let w = walk(libs@.take(i as int), *platform, libraries@, natives@);
                &&& step_texts(steps@) == s + w.steps
                &&& texts(classpath@) == c + w.classpath
                &&& w.fault is None
            }),
        decreases libs@.len() - i,
    {
        let ghost w = walk(libs@.take(i as int), *platform, libraries@, natives@);
        proof {
            assert(libs@.take(i + 1).drop_last() =~= libs@.take(i as int));
            assert(libs@.take(i + 1).last() == libs@[i as int]);
        }
        let ghost before = step_texts(steps@);
        steps.push(Step::ProgressInc);
        assert(step_texts(steps@) =~= before.push(StepText::ProgressInc));
        match plan_library(&libs[i], platform) {
            Err(e) => {
                proof {
                    lemma_fault_ends_the_walk(libs@, i + 1, *platform, libraries@, natives@);
                    assert(step_texts(steps@) =~= s + w.steps.push(StepText::ProgressInc));
                }
                return Some(e);
            },
            Ok(u) => {
                let ghost t = u@;
                push_use(u, libraries, natives, steps, classpath);
                proof {
                    assert(step_texts(steps@) =~= s + (w.steps.push(StepText::ProgressInc)
                        + use_steps(t, libraries@, natives@)));
                    assert(texts(classpath@) =~= c + (w.classpath + use_entries(t, libraries@)));
                }
            },
        }
        i += 1;
    }
    assert(libs@.take(i as int) =~= libs@);
    None
}

proof fn lemma_fault_ends_the_walk(
    libs: Seq<Library>,
    n: int,
    platform: Platform,
    libraries: Seq<char>,
    natives: Seq<char>,
)
    requires
        0 <= n <= libs.len(),
        walk(libs.take(n), platform, libraries, natives).fault is Some,
    ensures
        walk(libs, platform, libraries, natives) == walk(
            libs.take(n),
            platform,
            libraries,
            natives,
        ),
    decreases libs.len(),
{
    if n == libs.len() {
        assert(libs.take(n) =~= libs);
    } else {
        let front = libs.drop_last();
        assert(front.take(n) =~= libs.take(n));
        lemma_fault_ends_the_walk(front, n, platform, libraries, natives);
    }
}

/// The steps that bring everything `version` needs, and the plan to start it.
pub fn prepare(version: &VersionEntry, detail: VersionDetail, paths: &Paths, platform: &Platform) -> (r:
    Plan)
    ensures
        step_texts(r.steps@) == all_steps(version.id@, detail, *paths, *platform),
        match r.outcome {
            Ok(p) => {
                &&& version_walk(detail.libraries@, *platform, *paths, version.id@).fault is None
                &&& is_prepared(p, *version, detail, *paths, *platform)
            },
            Err(e) => version_walk(detail.libraries@, *platform, *paths, version.id@).fault
                == Some(e@),
        },
        is_plan(r, *version, detail, *paths, *platform),
{
    let id = version.id.as_str();
    let vdir = paths.version_dir(id);
    let natives_dir = paths.natives_dir(id);
    let libraries = paths.libraries();
    let assets = paths.assets();
    let client_jar = join(vdir.as_str(), version.id.clone().concat(".jar").as_str());
    let ghost w = version_walk(detail.libraries@, *platform, *paths, version.id@);

    let mut steps: Vec<Step> = Vec::new();
    steps.push(Step::CreateDir(vdir));
    steps.push(Step::Info("Downloading client jar…".to_string()));
    steps.push(
        Step::Download { url: detail.downloads.client.url.clone(), dest: client_jar.clone() },
    );
    steps.push(Step::CreateDir(natives_dir.clone()));
    steps.push(
        Step::ProgressStart { label: "Libraries".to_string(), total: detail.libraries.len() },
    );
    assert(step_texts(steps@) =~= opening_steps(id@, detail, *paths));

    let mut classpath: Vec<String> = Vec::new();
    classpath.push(client_jar);
    assert(texts(classpath@) =~= seq![client_jar_text(*paths, id@)]);
    let fault = walk_libraries(
        &detail.libraries,
        platform,
        libraries.as_str(),
        natives_dir.as_str(),
        &mut steps,
        &mut classpath,
    );
    if let Some(e) = fault {
        let ghost so_far = step_texts(steps@);
        steps.append(&mut prepare_failed());
        assert(step_texts(steps@) =~= so_far + failed_steps());
        return Plan { steps, outcome: Err(e) };
    }
    let ghost so_far = step_texts(steps@);
    steps.push(Step::ProgressFinish);
    let mut notice = "Downloading assets (".to_string();
    notice.append(detail.asset_index.id.as_str());
    notice.append(")…");
    steps.push(Step::Info(notice));
    steps.push(
        Step::Assets {
            index_url: detail.asset_index.url.clone(),
            index_path: join(
                join(assets.as_str(), "indexes").as_str(),
                detail.asset_index.id.clone().concat(".json").as_str(),
            ),
            objects_dir: join(assets.as_str(), "objects"),
        },
    );
    steps.push(Step::Info("Assets ready.".to_string()));
    assert(step_texts(steps@) =~= so_far + closing_steps(detail, *paths));

    let version_type = if detail.kind.as_str().is_empty() {
        version.kind.clone()
    } else {
        detail.kind
    };
    let prepared = Prepared {
        classpath,
        natives_dir,
        main_class: detail.main_class,
        asset_index_id: detail.asset_index.id,
        assets_dir: assets,
        version_id: version.id.clone(),
        version_type,
        arguments: detail.arguments,
        legacy_arguments: detail.minecraft_arguments,
    };
    Plan { steps, outcome: Ok(prepared) }
}

/// The steps to do where a step of a preparation has failed: they end its progress bar.
pub fn prepare_failed() -> (r: Vec<Step>)
    ensures
        step_texts(r@) == failed_steps(),
{
    let mut steps: Vec<Step> = Vec::new();
    steps.push(Step::ProgressFinish);
    assert(step_texts(steps@) =~= failed_steps());
    steps
}

/// The total of the progress bar after some steps, where it was `total` before them. A total of
/// zero stands for no bar. (Downloading assets begins and ends a bar of its own.)
pub open spec fn bar_after(total: int, steps: Seq<StepText>) -> int
    decreases steps.len(),
{
    if steps.len() == 0 {
        total
    } else {
        match steps.last() {
            StepText::ProgressStart { label, total: started } => started,
            StepText::ProgressFinish => 0,
            _ => bar_after(total, steps.drop_last()),
        }
    }
}

proof fn lemma_bar_is_kept(total: int, first: Seq<StepText>, second: Seq<StepText>)
    requires
        forall|i: int|
            0 <= i < second.len() ==> !(#[trigger] second[i] is ProgressStart || second[i] is ProgressFinish),
    ensures
        bar_after(total, first + second) == bar_after(total, first),
    decreases second.len(),
{
    if second.len() == 0 {
        assert(first + second =~= first);
    } else {
        let front = second.drop_last();
        assert forall|i: int| 0 <= i < front.len() implies !(#[trigger] front[i] is ProgressStart
            || front[i] is ProgressFinish) by {
            assert(front[i] == second[i]);
        }
        lemma_bar_is_kept(total, first, front);
        assert((first + second).drop_last() =~= first + front);
        assert((first + second).last() == second[second.len() - 1]);
    }
}

proof fn lemma_walk_keeps_the_bar(
    libs: Seq<Library>,
    platform: Platform,
    libraries: Seq<char>,
    natives: Seq<char>,
)
    ensures
        ({
            let s = walk(libs, platform, libraries, natives).steps;
            forall|i: int|
                0 <= i < s.len() ==> !(#[trigger] s[i] is ProgressStart || s[i] is ProgressFinish)
        }),
    decreases libs.len(),
{
    if libs.len() > 0 {
        let before = walk(libs.drop_last(), platform, libraries, natives);
        lemma_walk_keeps_the_bar(libs.drop_last(), platform, libraries, natives);
        let s = walk(libs, platform, libraries, natives).steps;
        assert forall|i: int| 0 <= i < s.len() implies !(#[trigger] s[i] is ProgressStart
            || s[i] is ProgressFinish) by {
            if i < before.steps.len() {
                assert(s[i] == before.steps[i]);
            }
        }
    }
}

/// The progress bar is there while the libraries are downloaded, and only then: it stands at their
/// number from the start of the first to the end of the last, and is gone once the preparation is
/// over. That holds of a preparation that succeeds, of one that meets a library without a path,
/// and of one whose first `n` steps are followed by those for a failure.
pub proof fn law_preparation_leaves_no_bar(
    id: Seq<char>,
    detail: VersionDetail,
    paths: Paths,
    platform: Platform,
    total: int,
    n: int,
)
    requires
        0 <= n <= all_steps(id, detail, paths, platform).len(),
    ensures
        ({
            let steps = all_steps(id, detail, paths, platform);
            let opened = opening_steps(id, detail, paths).len();
            let walked = version_walk(detail.libraries@, platform, paths, id).steps.len();
            &&& n < opened ==> bar_after(total, steps.take(n)) == total
            &&& opened <= n <= opened + walked ==> bar_after(total, steps.take(n))
                == detail.libraries@.len()
            &&& opened + walked < n ==> bar_after(total, steps.take(n)) == 0
            &&& bar_after(total, steps) == 0
            &&& bar_after(total, steps.take(n) + failed_steps()) == 0
        }),
{
    let steps = all_steps(id, detail, paths, platform);
    let opening = opening_steps(id, detail, paths);
    let walked = version_walk(detail.libraries@, platform, paths, id).steps;
    let rest = if version_walk(detail.libraries@, platform, paths, id).fault is Some {
        failed_steps()
    } else {
        closing_steps(detail, paths)
    };
    assert(steps == opening + walked + rest);
    lemma_walk_keeps_the_bar(
        detail.libraries@,
        platform,
        paths.libraries_text(),
        paths.natives_dir_text(id),
    );
    lemma_bar_in_part(opening, walked, rest, total, n);
    lemma_bar_in_part(opening, walked, rest, total, steps.len() as int);
    assert(steps.take(steps.len() as int) =~= steps);
    assert((steps.take(n) + failed_steps()).last() == StepText::ProgressFinish);
}

/// The download progress after some steps.
pub open spec fn progress_after(p: Progress, steps: Seq<Step>) -> Progress
    decreases steps.len(),
{
    if steps.len() == 0 {
        p
    } else {
        let before = progress_after(p, steps.drop_last());
        match steps.last() {
            Step::ProgressStart { label, total } => started(label, total),
            Step::ProgressInc => one_more(before).drawn(),
            Step::ProgressFinish => ended(before),
            _ => before,
        }
    }
}

/// The download progress shows a bar exactly where the steps say that there is one. Whatever was
/// done before, it shows none once the steps for a failure are done.
pub proof fn law_no_progress_after_a_failure(p: Progress, steps: Seq<Step>, failed: Seq<Step>)
    requires
        step_texts(failed) == failed_steps(),
    ensures
        progress_after(p, steps).total == bar_after(p.total as int, step_texts(steps)),
        progress_after(p, steps).shown_text() is None <==> bar_after(
            p.total as int,
            step_texts(steps),
        ) == 0,
        progress_after(p, steps + failed).shown_text() is None,
    decreases steps.len(),
{
    if steps.len() > 0 {
        law_no_progress_after_a_failure(p, steps.drop_last(), failed);
        assert(step_texts(steps).drop_last() =~= step_texts(steps.drop_last()));
        assert(step_texts(steps).last() == steps.last()@);
    }
    assert(failed.len() == step_texts(failed).len());
    assert(failed[0]@ == step_texts(failed)[0]);
    assert((steps + failed).last() == failed[0]);
    assert((steps + failed).drop_last() =~= steps);
}

/// The bar after the first `n` of the opening, the walked and the remaining steps.
proof fn lemma_bar_in_part(
    opening: Seq<StepText>,
    walked: Seq<StepText>,
    rest: Seq<StepText>,
    total: int,
    n: int,
)
    requires
        0 <= n <= opening.len() + walked.len() + rest.len(),
        opening.len() > 0,
        opening.last() is ProgressStart,
        forall|i: int|
            0 <= i < opening.len() - 1 ==> !(#[trigger] opening[i] is ProgressStart
                || opening[i] is ProgressFinish),
        forall|i: int|
            0 <= i < walked.len() ==> !(#[trigger] walked[i] is ProgressStart
                || walked[i] is ProgressFinish),
        rest.len() > 0,
        rest[0] is ProgressFinish,
        forall|i: int|
            1 <= i < rest.len() ==> !(#[trigger] rest[i] is ProgressStart || rest[i] is ProgressFinish),
    ensures
        ({
            let after = bar_after(total, (opening + walked + rest).take(n));
            &&& n < opening.len() ==> after == total
            &&& opening.len() <= n <= opening.len() + walked.len() ==> after
                == opening.last()->total
            &&& opening.len() + walked.len() < n ==> after == 0
        }),
{
    let part = (opening + walked + rest).take(n);
    let o = opening.len() as int;
    let w = o + walked.len();
    if n < o {
        assert(part =~= Seq::empty() + opening.take(n));
        lemma_bar_is_kept(total, Seq::empty(), opening.take(n));
    } else if n <= w {
        assert(part =~= opening + walked.take(n - o));
        lemma_bar_is_kept(total, opening, walked.take(n - o));
    } else {
        let first = opening + walked + rest.take(1);
        let second = rest.subrange(1, n - w);
        assert(part =~= first + second);
        assert(first.last() == rest[0]);
        lemma_bar_is_kept(total, first, second);
    }
}

/// Libraries listed first stand first on the class path: the class path of two lists, one after
/// the other, is that of the first followed by that of the second. A loader's libraries, which a
/// merge puts in front, so take precedence over those of the game.
pub proof fn law_listed_first_stands_first(
    first: Seq<Library>,
    second: Seq<Library>,
    platform: Platform,
    libraries: Seq<char>,
    natives: Seq<char>,
)
    requires
        walk(first, platform, libraries, natives).fault is None,
    ensures
        walk(first + second, platform, libraries, natives).classpath == walk(
            first,
            platform,
            libraries,
            natives,
        ).classpath + walk(second, platform, libraries, natives).classpath,
        walk(first + second, platform, libraries, natives).steps == walk(
            first,
            platform,
            libraries,
            natives,
        ).steps + walk(second, platform, libraries, natives).steps,
        walk(first + second, platform, libraries, natives).fault == walk(
            second,
            platform,
            libraries,
            natives,
        ).fault,
    decreases second.len(),
{
    let a = walk(first, platform, libraries, natives);
    if second.len() == 0 {
        assert(first + second =~= first);
        assert(a.classpath + Seq::<Seq<char>>::empty() =~= a.classpath);
        assert(a.steps + Seq::<StepText>::empty() =~= a.steps);
    } else {
        let front = second.drop_last();
        law_listed_first_stands_first(first, front, platform, libraries, natives);
        assert((first + second).drop_last() =~= first + front);
        assert((first + second).last() == second.last());
        let b = walk(front, platform, libraries, natives);
        if b.fault is None {
            match library_use(second.last(), platform) {
                Err(e) => {
                    assert((a.steps + b.steps).push(StepText::ProgressInc) =~= a.steps
                        + b.steps.push(StepText::ProgressInc));
                },
                Ok(u) => {
                    assert((a.classpath + b.classpath) + use_entries(u, libraries) =~= a.classpath
                        + (b.classpath + use_entries(u, libraries)));
                    assert((a.steps + b.steps).push(StepText::ProgressInc) + use_steps(
                        u,
                        libraries,
                        natives,
                    ) =~= a.steps + (b.steps.push(StepText::ProgressInc) + use_steps(
                        u,
                        libraries,
                        natives,
                    )));
                },
            }
        }
    }
}

/// A loader takes precedence over the game: in the class path of a version with a profile merged
/// onto it, the entries of the profile's libraries stand before those of the game's own.
pub proof fn law_loader_takes_precedence(
    base: VersionDetail,
    profile: LoaderProfile,
    merged: VersionDetail,
    platform: Platform,
    paths: Paths,
    id: Seq<char>,
)
    requires
        is_merged(base, profile, merged),
        version_walk(profile.libraries@, platform, paths, id).fault is None,
    ensures
        version_walk(merged.libraries@, platform, paths, id).classpath == version_walk(
            profile.libraries@,
            platform,
            paths,
            id,
        ).classpath + version_walk(base.libraries@, platform, paths, id).classpath,
        merged.main_class == profile.main_class,
{
    law_listed_first_stands_first(
        profile.libraries@,
        base.libraries@,
        platform,
        paths.libraries_text(),
        paths.natives_dir_text(id),
    );
}

/// A library that its rules refuse on this system is left out, whatever else is said of it: it
/// brings no error, no download and no entry of the class path.
pub proof fn law_refused_libraries_are_left_out(
    libs: Seq<Library>,
    lib: Library,
    platform: Platform,
    libraries: Seq<char>,
    natives: Seq<char>,
)
    requires
        lib.rules matches Some(rules) && !allowed(rules@, platform),
        walk(libs, platform, libraries, natives).fault is None,
    ensures
        walk(libs.push(lib), platform, libraries, natives) == (Walk {
            steps: walk(libs, platform, libraries, natives).steps.push(StepText::ProgressInc),
            ..walk(libs, platform, libraries, natives)
        }),
{
    let before = walk(libs, platform, libraries, natives);
    assert(libs.push(lib).drop_last() =~= libs);
    assert(library_use(lib, platform) == Ok::<LibraryUseText, LaunchFault>(LibraryUseText::Skip));
    assert(before.steps.push(StepText::ProgressInc) + Seq::<StepText>::empty()
        =~= before.steps.push(StepText::ProgressInc));
    assert(before.classpath + Seq::<Seq<char>>::empty() =~= before.classpath);
}

/// Everything on the class path is downloaded: each entry is the destination of some step.
pub proof fn law_classpath_is_downloaded(
    libs: Seq<Library>,
    platform: Platform,
    libraries: Seq<char>,
    natives: Seq<char>,
    entry: Seq<char>,
)
    requires
        walk(libs, platform, libraries, natives).classpath.contains(entry),
    ensures
        exists|url: Seq<char>|
            #[trigger] walk(libs, platform, libraries, natives).steps.contains(
                StepText::Download { url, dest: entry },
            ),
    decreases libs.len(),
{
    let w = walk(libs, platform, libraries, natives);
    if libs.len() > 0 {
        let before = walk(libs.drop_last(), platform, libraries, natives);
        let k = choose|k: int| 0 <= k < w.classpath.len() && w.classpath[k] == entry;
        if k < before.classpath.len() {
            assert(before.classpath[k] == entry);
            assert(before.classpath.contains(entry));
            law_classpath_is_downloaded(libs.drop_last(), platform, libraries, natives, entry);
            let url = choose|url: Seq<char>|
                #[trigger] before.steps.contains(StepText::Download { url, dest: entry });
            let step = StepText::Download { url, dest: entry };
            let i = choose|i: int| 0 <= i < before.steps.len() && before.steps[i] == step;
            assert(w.steps[i] == step);
            assert(w.steps.contains(StepText::Download { url, dest: entry }));
        } else {
            match library_use(libs.last(), platform) {
                Ok(LibraryUseText::Classpath { url, path }) => {
                    let step = StepText::Download { url, dest: entry };
                    let n = before.steps.len() as int;
                    assert(w.steps[n + 1] == use_steps(
                        LibraryUseText::Classpath { url, path },
                        libraries,
                        natives,
                    )[0]);
                    assert(w.steps[n + 1] == step);
                    assert(w.steps.contains(StepText::Download { url, dest: entry }));
                },
                _ => {},
            }
        }
    }
}

/// A jar is extracted only right after it was downloaded, and always into the natives directory.
pub proof fn law_natives_are_downloaded_first(
    libs: Seq<Library>,
    platform: Platform,
    libraries: Seq<char>,
    natives: Seq<char>,
    at: int,
)
    requires
        0 <= at < walk(libs, platform, libraries, natives).steps.len(),
        walk(libs, platform, libraries, natives).steps[at] is Extract,
    ensures
        ({
            let s = walk(libs, platform, libraries, natives).steps;
            &&& at >= 1
            &&& s[at - 1] is Download
            &&& s[at - 1]->Download_dest == s[at]->jar
            &&& s[at]->Extract_dest == natives
        }),
    decreases libs.len(),
{
    let w = walk(libs, platform, libraries, natives);
    if libs.len() > 0 {
        let before = walk(libs.drop_last(), platform, libraries, natives);
        let n = before.steps.len() as int;
        if at < n {
            assert(before.steps[at] == w.steps[at]);
            law_natives_are_downloaded_first(libs.drop_last(), platform, libraries, natives, at);
            assert(before.steps[at - 1] == w.steps[at - 1]);
        } else {
            assert(w.steps[n] == StepText::ProgressInc);
            match library_use(libs.last(), platform) {
                Ok(u) => {
                    let tail = use_steps(u, libraries, natives);
                    assert(w.steps[at] == tail[at - n - 1]);
                    assert(at == n + 2);
                    assert(w.steps[n + 1] == tail[0]);
                },
                Err(_) => {},
            }
        }
    }
}

/// How many steps of a list advance the progress bar.
pub open spec fn advances(steps: Seq<StepText>) -> nat
    decreases steps.len(),
{
    if steps.len() == 0 {
        0
    } else {
        advances(steps.drop_last()) + if steps.last() is ProgressInc {
            1nat
        } else {
            0nat
        }
    }
}

proof fn lemma_advances_add(a: Seq<StepText>, b: Seq<StepText>)
    ensures
        advances(a + b) == advances(a) + advances(b),
    decreases b.len(),
{
    if b.len() == 0 {
        assert(a + b =~= a);
    } else {
        assert((a + b).drop_last() =~= a + b.drop_last());
        lemma_advances_add(a, b.drop_last());
    }
}

proof fn lemma_no_advance(steps: Seq<StepText>)
    requires
        forall|i: int| 0 <= i < steps.len() ==> !(#[trigger] steps[i] is ProgressInc),
    ensures
        advances(steps) == 0,
    decreases steps.len(),
{
    if steps.len() > 0 {
        let front = steps.drop_last();
        assert forall|i: int| 0 <= i < front.len() implies !(#[trigger] front[i] is ProgressInc) by {
            assert(front[i] == steps[i]);
        }
        lemma_no_advance(front);
    }
}

proof fn lemma_walk_advances(
    libs: Seq<Library>,
    platform: Platform,
    libraries: Seq<char>,
    natives: Seq<char>,
)
    ensures
        walk(libs, platform, libraries, natives).fault is None ==> advances(
            walk(libs, platform, libraries, natives).steps,
        ) == libs.len(),
    decreases libs.len(),
{
    if libs.len() > 0 {
        let before = walk(libs.drop_last(), platform, libraries, natives);
        lemma_walk_advances(libs.drop_last(), platform, libraries, natives);
        match library_use(libs.last(), platform) {
            Ok(u) => {
                let tail = use_steps(u, libraries, natives);
                let inc = before.steps.push(StepText::ProgressInc);
                assert(inc.drop_last() =~= before.steps);
                lemma_advances_add(inc, tail);
                lemma_no_advance(tail);
            },
            Err(_) => {},
        }
    }
}

/// The progress bar runs full: it is started with the number of libraries and advanced once for
/// each of them.
pub proof fn law_progress_runs_full(
    id: Seq<char>,
    detail: VersionDetail,
    paths: Paths,
    platform: Platform,
)
    requires
        version_walk(detail.libraries@, platform, paths, id).fault is None,
    ensures
        ({
            let steps = all_steps(id, detail, paths, platform);
            &&& steps[4] == StepText::ProgressStart {
                label: "Libraries"@,
                total: detail.libraries@.len() as int,
            }
            &&& advances(steps) == detail.libraries@.len()
        }),
{
    let opening = opening_steps(id, detail, paths);
    let closing = closing_steps(detail, paths);
    let w = version_walk(detail.libraries@, platform, paths, id);
    lemma_walk_advances(
        detail.libraries@,
        platform,
        paths.libraries_text(),
        paths.natives_dir_text(id),
    );
    lemma_advances_add(opening, w.steps);
    lemma_advances_add(opening + w.steps, closing);
    lemma_no_advance(opening);
    lemma_no_advance(closing);
}

/// Rules that allow a library change nothing of it: it is treated like the same library without
/// rules.
pub proof fn law_allowed_library_is_as_without_rules(
    lib: Library,
    bare: Library,
    platform: Platform,
)
    requires
        lib.rules matches Some(rules) && allowed(rules@, platform),
        bare == (Library { rules: None, ..lib }),
    ensures
        library_use(lib, platform) == library_use(bare, platform),
{
}

/// A library that is allowed and has a plain file brings one download and one entry of the class
/// path: the file goes to its own path, or else to that of its coordinates, below the libraries
/// directory. A Maven base URL beside it does not count.
pub proof fn law_library_with_a_file_is_on_the_class_path(
    libs: Seq<Library>,
    lib: Library,
    file: Artifact,
    derived: Seq<char>,
    platform: Platform,
    libraries: Seq<char>,
    natives: Seq<char>,
)
    requires
        walk(libs, platform, libraries, natives).fault is None,
        lib.rules matches Some(rules) ==> allowed(rules@, platform),
        lib.natives is None,
        lib.downloads matches Some(d) && d.artifact == Some(file),
        maven_path_text(lib.name@) == Ok::<Seq<char>, LaunchFault>(derived),
    ensures
        ({
            let before = walk(libs, platform, libraries, natives);
            let after = walk(libs.push(lib), platform, libraries, natives);
            let dest = path_join(
                libraries,
                if file.path is Some {
                    file.path->Some_0@
                } else {
                    derived
                },
            );
            &&& after.fault is None
            &&& after.classpath == before.classpath.push(dest)
            &&& after.steps == before.steps.push(StepText::ProgressInc).push(
                StepText::Download { url: file.url@, dest },
            )
        }),
{
    let before = walk(libs, platform, libraries, natives);
    let after = walk(libs.push(lib), platform, libraries, natives);
    assert(libs.push(lib).drop_last() =~= libs);
    assert(after.classpath =~= before.classpath.push(after.classpath.last()));
    assert(after.steps =~= before.steps.push(StepText::ProgressInc).push(after.steps.last()));
}

/// A library that is allowed and has only a Maven base URL is fetched from below that URL, to the
/// same path below the libraries directory, and stands on the class path.
pub proof fn law_library_with_a_base_url_is_on_the_class_path(
    libs: Seq<Library>,
    lib: Library,
    base: String,
    derived: Seq<char>,
    platform: Platform,
    libraries: Seq<char>,
    natives: Seq<char>,
)
    requires
        walk(libs, platform, libraries, natives).fault is None,
        lib.rules matches Some(rules) ==> allowed(rules@, platform),
        lib.natives is None,
        lib.downloads matches Some(d) ==> d.artifact is None,
        lib.url == Some(base),
        maven_path_text(lib.name@) == Ok::<Seq<char>, LaunchFault>(derived),
    ensures
        ({
            let before = walk(libs, platform, libraries, natives);
            let after = walk(libs.push(lib), platform, libraries, natives);
            let dest = path_join(libraries, derived);
            &&& after.fault is None
            &&& after.classpath == before.classpath.push(dest)
            &&& after.steps == before.steps.push(StepText::ProgressInc).push(
                StepText::Download { url: base@ + derived, dest },
            )
        }),
{
    let before = walk(libs, platform, libraries, natives);
    let after = walk(libs.push(lib), platform, libraries, natives);
    assert(libs.push(lib).drop_last() =~= libs);
    assert(after.classpath =~= before.classpath.push(after.classpath.last()));
    assert(after.steps =~= before.steps.push(StepText::ProgressInc).push(after.steps.last()));
}

/// A library that is allowed and has natives for this system, and a file for their classifier, is
/// downloaded and then extracted into the natives directory, but for the prefixes that it
/// excludes. It does not stand on the class path, whatever other file it has. The classifier is
/// the template for the system with `${arch}` turned into the width of the processor.
pub proof fn law_natives_of_this_system_are_extracted(
    libs: Seq<Library>,
    lib: Library,
    file: Artifact,
    classifier: Seq<char>,
    derived: Seq<char>,
    platform: Platform,
    libraries: Seq<char>,
    natives: Seq<char>,
)
    requires
        walk(libs, platform, libraries, natives).fault is None,
        lib.rules matches Some(rules) ==> allowed(rules@, platform),
        lib.natives matches Some(templates) && {
            &&& templates@.contains_key(platform.name@)
            &&& platform.arch@ == "x86"@ ==> classifier == replaced(
                templates@[platform.name@]@,
                "${arch}"@,
                "32"@,
            )
            &&& platform.arch@ != "x86"@ ==> classifier == replaced(
                templates@[platform.name@]@,
                "${arch}"@,
                "64"@,
            )
        },
        lib.downloads matches Some(d) && d.classifiers matches Some(files)
            && files@.contains_key(classifier) && files@[classifier] == file,
        maven_path_text(lib.name@ + ":"@ + classifier) == Ok::<Seq<char>, LaunchFault>(derived),
    ensures
        ({
            let before = walk(libs, platform, libraries, natives);
            let after = walk(libs.push(lib), platform, libraries, natives);
            let jar = path_join(
                libraries,
                if file.path is Some {
                    file.path->Some_0@
                } else {
                    derived
                },
            );
            let exclude = if lib.extract is Some {
                texts(lib.extract->Some_0.exclude@)
            } else {
                Seq::empty()
            };
            &&& after.fault is None
            &&& after.classpath == before.classpath
            &&& after.steps == before.steps.push(StepText::ProgressInc).push(
                StepText::Download { url: file.url@, dest: jar },
            ).push(StepText::Extract { jar, dest: natives, exclude })
        }),
{
    let before = walk(libs, platform, libraries, natives);
    let after = walk(libs.push(lib), platform, libraries, natives);
    assert(libs.push(lib).drop_last() =~= libs);
    assert(after.classpath =~= before.classpath);
    let n = before.steps.len() as int;
    assert(after.steps =~= before.steps.push(StepText::ProgressInc).push(after.steps[n + 1]).push(
        after.steps[n + 2],
    ));
}

/// A library with nothing to download on this system only advances the progress bar: one without
/// a file and without a base URL, and one whose natives are for other systems or have no file.
pub proof fn law_library_without_a_file_brings_nothing(
    libs: Seq<Library>,
    lib: Library,
    platform: Platform,
    libraries: Seq<char>,
    natives: Seq<char>,
)
    requires
        walk(libs, platform, libraries, natives).fault is None,
        match lib.natives {
            None => lib.url is None && (lib.downloads matches Some(d) ==> d.artifact is None),
            Some(templates) => !templates@.contains_key(platform.name@) || {
                let template = templates@[platform.name@]@;
                lib.downloads matches Some(d) ==> d.classifiers matches Some(files) ==> {
                    &&& platform.arch@ == "x86"@ ==> !files@.contains_key(
                        replaced(template, "${arch}"@, "32"@),
                    )
                    &&& platform.arch@ != "x86"@ ==> !files@.contains_key(
                        replaced(template, "${arch}"@, "64"@),
                    )
                }
            },
        },
    ensures
        walk(libs.push(lib), platform, libraries, natives) == (Walk {
            steps: walk(libs, platform, libraries, natives).steps.push(StepText::ProgressInc),
            ..walk(libs, platform, libraries, natives)
        }),
{
    let before = walk(libs, platform, libraries, natives);
    assert(libs.push(lib).drop_last() =~= libs);
    assert(before.steps.push(StepText::ProgressInc) + Seq::<StepText>::empty()
        =~= before.steps.push(StepText::ProgressInc));
    assert(before.classpath + Seq::<Seq<char>>::empty() =~= before.classpath);
}

/// A library with a file whose name has no path ends the walk with that error. Nothing of it is
/// downloaded, and the libraries after it do not count.
pub proof fn law_library_without_a_path_ends_the_walk(
    libs: Seq<Library>,
    lib: Library,
    more: Seq<Library>,
    fault: LaunchFault,
    platform: Platform,
    libraries: Seq<char>,
    natives: Seq<char>,
)
    requires
        walk(libs, platform, libraries, natives).fault is None,
        lib.rules matches Some(rules) ==> allowed(rules@, platform),
        lib.natives is None,
        lib.url is Some || (lib.downloads matches Some(d) && d.artifact is Some),
        maven_path_text(lib.name@) == Err::<Seq<char>, LaunchFault>(fault),
    ensures
        walk(libs.push(lib) + more, platform, libraries, natives) == (Walk {
            steps: walk(libs, platform, libraries, natives).steps.push(StepText::ProgressInc),
            fault: Some(fault),
            ..walk(libs, platform, libraries, natives)
        }),
{
    let all = libs.push(lib) + more;
    assert(libs.push(lib).drop_last() =~= libs);
    assert(all.take(libs.len() + 1int) =~= libs.push(lib));
    lemma_fault_ends_the_walk(all, libs.len() + 1int, platform, libraries, natives);
}

/// A preparation that runs through makes the directory of the version and brings its client jar
/// there, makes the natives directory, does what the libraries need in the order of the list, and
/// then brings the assets by their index.
pub proof fn law_preparation_brings_everything(
    id: Seq<char>,
    detail: VersionDetail,
    paths: Paths,
    platform: Platform,
)
    requires
        version_walk(detail.libraries@, platform, paths, id).fault is None,
    ensures
        ({
            let steps = all_steps(id, detail, paths, platform);
            let walked = walk(
                detail.libraries@,
                platform,
                paths.libraries_text(),
                paths.natives_dir_text(id),
            ).steps;
            let n = walked.len() as int;
            &&& steps.len() == n + 9
            &&& steps[0] == StepText::CreateDir(paths.version_dir_text(id))
            &&& steps[1] == StepText::Info("Downloading client jar…"@)
            &&& steps[2] == (StepText::Download {
                url: detail.downloads.client.url@,
                dest: path_join(paths.version_dir_text(id), id + ".jar"@),
            })
            &&& steps[3] == StepText::CreateDir(paths.natives_dir_text(id))
            &&& steps.subrange(5, 5 + n) == walked
            &&& steps[n + 5] is ProgressFinish
            &&& steps[n + 6] == StepText::Info(
                "Downloading assets ("@ + detail.asset_index.id@ + ")…"@,
            )
            &&& steps[n + 7] == (StepText::Assets {
                index_url: detail.asset_index.url@,
                index_path: path_join(
                    path_join(paths.assets_text(), "indexes"@),
                    detail.asset_index.id@ + ".json"@,
                ),
                objects_dir: path_join(paths.assets_text(), "objects"@),
            })
        }),
{
    let steps = all_steps(id, detail, paths, platform);
    let walked = version_walk(detail.libraries@, platform, paths, id).steps;
    assert(steps.subrange(5, 5int + walked.len()) =~= walked);
}

/// What a preparation hands to the launch fits its steps: the class path begins with the client
/// jar and goes on with the entries of the libraries; the natives directory is the one into which
/// every jar is extracted; the asset index lies below the assets directory under its id; and the
/// rest is what the metadata says, the kind that of the list where the metadata has none.
pub proof fn law_prepared_version_fits_its_steps(
    p: Prepared,
    version: VersionEntry,
    detail: VersionDetail,
    paths: Paths,
    platform: Platform,
    at: int,
)
    requires
        is_prepared(p, version, detail, paths, platform),
        version_walk(detail.libraries@, platform, paths, version.id@).fault is None,
        0 <= at < all_steps(version.id@, detail, paths, platform).len(),
    ensures
        ({
            let steps = all_steps(version.id@, detail, paths, platform);
            let walked = version_walk(detail.libraries@, platform, paths, version.id@);
            &&& p.classpath@.len() == walked.classpath.len() + 1
            &&& steps[2]->Download_dest == p.classpath@[0]@
            &&& forall|i: int|
                0 <= i < walked.classpath.len() ==> (#[trigger] p.classpath@[i + 1])@
                    == walked.classpath[i]
            &&& steps[at] is Extract ==> steps[at]->Extract_dest == p.natives_dir@
            &&& steps[at] is Assets ==> steps[at]->index_path == path_join(
                path_join(p.assets_dir@, "indexes"@),
                p.asset_index_id@ + ".json"@,
            )
            &&& p.version_id@ == version.id@
            &&& p.main_class@ == detail.main_class@
            &&& p.arguments == detail.arguments
            &&& p.legacy_arguments == detail.minecraft_arguments
            &&& detail.kind@.len() > 0 ==> p.version_type@ == detail.kind@
            &&& detail.kind@.len() == 0 ==> p.version_type@ == version.kind@
        }),
{
    let steps = all_steps(version.id@, detail, paths, platform);
    let walked = version_walk(detail.libraries@, platform, paths, version.id@);
    let n = walked.steps.len() as int;
    assert(texts(p.classpath@).len() == p.classpath@.len());
    assert(texts(p.classpath@)[0] == p.classpath@[0]@);
    assert forall|i: int| 0 <= i < walked.classpath.len() implies (#[trigger] p.classpath@[i + 1])@
        == walked.classpath[i] by {
        assert(texts(p.classpath@)[i + 1] == p.classpath@[i + 1]@);
    }
    if steps[at] is Extract {
        assert(5 <= at < 5 + n);
        assert(steps[at] == walked.steps[at - 5]);
        law_natives_are_downloaded_first(
            detail.libraries@,
            platform,
            paths.libraries_text(),
            paths.natives_dir_text(version.id@),
            at - 5,
        );
    }
    if steps[at] is Assets {
        lemma_no_assets(
            detail.libraries@,
            platform,
            paths.libraries_text(),
            paths.natives_dir_text(version.id@),
        );
        if 5 <= at < 5 + n {
            assert(steps[at] == walked.steps[at - 5]);
        }
        assert(at == n + 7);
    }
}

proof fn lemma_no_assets(
    libs: Seq<Library>,
    platform: Platform,
    libraries: Seq<char>,
    natives: Seq<char>,
)
    ensures
        ({
            let s = walk(libs, platform, libraries, natives).steps;
            forall|i: int| 0 <= i < s.len() ==> !(#[trigger] s[i] is Assets)
        }),
    decreases libs.len(),
{
    if libs.len() > 0 {
        let before = walk(libs.drop_last(), platform, libraries, natives);
        lemma_no_assets(libs.drop_last(), platform, libraries, natives);
        let s = walk(libs, platform, libraries, natives).steps;
        assert forall|i: int| 0 <= i < s.len() implies !(#[trigger] s[i] is Assets) by {
            if i < before.steps.len() {
                assert(s[i] == before.steps[i]);
            }
        }
    }
}

/// A preparation that meets a library without a path does what comes before it and ends there,
/// without the assets.
pub proof fn law_faulty_preparation_ends_early(
    id: Seq<char>,
    detail: VersionDetail,
    paths: Paths,
    platform: Platform,
    i: int,
)
    requires
        version_walk(detail.libraries@, platform, paths, id).fault is Some,
        0 <= i < all_steps(id, detail, paths, platform).len(),
    ensures
        ({
            let steps = all_steps(id, detail, paths, platform);
            let walked = walk(
                detail.libraries@,
                platform,
                paths.libraries_text(),
                paths.natives_dir_text(id),
            ).steps;
            &&& steps.len() == walked.len() + 6
            &&& steps.subrange(5, 5 + walked.len() as int) == walked
            &&& steps.last() is ProgressFinish
            &&& !(steps[i] is Assets)
        }),
{
    let steps = all_steps(id, detail, paths, platform);
    let walked = version_walk(detail.libraries@, platform, paths, id).steps;
    assert(steps.subrange(5, 5 + walked.len() as int) =~= walked);
    lemma_no_assets(
        detail.libraries@,
        platform,
        paths.libraries_text(),
        paths.natives_dir_text(id),
    );
    if 5 <= i < 5 + walked.len() {
        assert(steps[i] == walked[i - 5]);
    }
}

/// Natives whose name has no path end the walk with that error, as other libraries do.
pub proof fn law_natives_without_a_path_end_the_walk(
    libs: Seq<Library>,
    lib: Library,
    classifier: Seq<char>,
    fault: LaunchFault,
    platform: Platform,
    libraries: Seq<char>,
    natives: Seq<char>,
)
    requires
        walk(libs, platform, libraries, natives).fault is None,
        lib.rules matches Some(rules) ==> allowed(rules@, platform),
        native_classifier(lib, platform) == Some(classifier),
        lib.downloads matches Some(d) && d.classifiers matches Some(files)
            && files@.contains_key(classifier),
        maven_path_text(lib.name@ + ":"@ + classifier) == Err::<Seq<char>, LaunchFault>(fault),
    ensures
        walk(libs.push(lib), platform, libraries, natives) == (Walk {
            steps: walk(libs, platform, libraries, natives).steps.push(StepText::ProgressInc),
            fault: Some(fault),
            ..walk(libs, platform, libraries, natives)
        }),
{
    assert(libs.push(lib).drop_last() =~= libs);
}

/// What is said of a step is what the step holds.
pub proof fn law_step_is_as_it_reads(steps: Seq<Step>, i: int)
    requires
        0 <= i < steps.len(),
    ensures
        step_texts(steps).len() == steps.len(),
        match steps[i] {
            Step::Info(line) => step_texts(steps)[i] == StepText::Info(line@),
            Step::CreateDir(dir) => step_texts(steps)[i] == StepText::CreateDir(dir@),
            Step::Download { url, dest } => step_texts(steps)[i] == (StepText::Download {
                url: url@,
                dest: dest@,
            }),
            Step::Extract { jar, dest, exclude } => step_texts(steps)[i] == (StepText::Extract {
                jar: jar@,
                dest: dest@,
                exclude: texts(exclude@),
            }),
            Step::ProgressStart { label, total } => step_texts(steps)[i]
                == (StepText::ProgressStart { label: label@, total: total as int }),
            Step::ProgressInc => step_texts(steps)[i] is ProgressInc,
            Step::ProgressFinish => step_texts(steps)[i] is ProgressFinish,
            Step::Assets { index_url, index_path, objects_dir } => step_texts(steps)[i]
                == (StepText::Assets {
                index_url: index_url@,
                index_path: index_path@,
                objects_dir: objects_dir@,
            }),
        },
{
}

/// What is said of the use of a library is what it holds.
pub proof fn law_library_use_is_as_it_reads(u: LibraryUse)
    ensures
        u is Skip <==> u@ is Skip,
        u matches LibraryUse::Natives { url, path, exclude } ==> u@ == (LibraryUseText::Natives {
            url: url@,
            path: path@,
            exclude: texts(exclude@),
        }),
        u matches LibraryUse::Classpath { url, path } ==> u@ == (LibraryUseText::Classpath {
            url: url@,
            path: path@,
        }),
{
}

/// A plan fails exactly where a library has no path, and never hands out a version whose files it
/// does not bring: every entry of the class path of a plan that succeeds is the destination of one
/// of its downloads.
pub proof fn law_plan_brings_its_class_path(
    r: Plan,
    version: VersionEntry,
    detail: VersionDetail,
    paths: Paths,
    platform: Platform,
    i: int,
)
    requires
        is_plan(r, version, detail, paths, platform),
    ensures
        r.outcome is Err <==> version_walk(
            detail.libraries@,
            platform,
            paths,
            version.id@,
        ).fault is Some,
        r.outcome matches Ok(p) ==> 0 <= i < p.classpath@.len() ==> exists|url: Seq<char>|
            #[trigger] step_texts(r.steps@).contains(
                StepText::Download { url, dest: p.classpath@[i]@ },
            ),
{
    if r.outcome is Ok && 0 <= i < r.outcome->Ok_0.classpath@.len() {
        let p = r.outcome->Ok_0;
        let steps = all_steps(version.id@, detail, paths, platform);
        let walked = version_walk(detail.libraries@, platform, paths, version.id@);
        law_prepared_version_fits_its_steps(p, version, detail, paths, platform, 2);
        if i == 0 {
            let url = detail.downloads.client.url@;
            assert(steps[2] == StepText::Download { url, dest: p.classpath@[i]@ });
            assert(steps.contains(StepText::Download { url, dest: p.classpath@[i]@ }));
        } else {
            let entry = p.classpath@[i]@;
            assert(p.classpath@[i - 1 + 1]@ == walked.classpath[i - 1]);
            assert(walked.classpath.contains(entry));
            law_classpath_is_downloaded(
                detail.libraries@,
                platform,
                paths.libraries_text(),
                paths.natives_dir_text(version.id@),
                entry,
            );
            let url = choose|url: Seq<char>| #[trigger]
                walked.steps.contains(StepText::Download { url, dest: entry });
            let step = StepText::Download { url, dest: entry };
            let k = choose|k: int| 0 <= k < walked.steps.len() && walked.steps[k] == step;
            assert(steps[k + 5] == step);
            assert(steps.contains(StepText::Download { url, dest: p.classpath@[i]@ }));
        }
    }
}

} // verus!
