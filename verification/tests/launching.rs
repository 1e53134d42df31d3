use std::io::{Cursor, Write};

use zenith::launch::archive::{read_archive, Entry};
use zenith::launch::args::{classpath_string, push_arg, substitute};
use zenith::launch::assets::{
    asset_failure, asset_job, asset_jobs, download_assets, is_asset_hash, ASSET_WORKERS,
};
use zenith::launch::command::launch;
use zenith::launch::download::download_to;
use zenith::launch::error::LaunchError;
use zenith::launch::game::{
    exit_line, game_exited, game_started, is_running, kill_running, wait_failure, Game,
};
use zenith::launch::loader::{
    latest_loader_version, loader_list_request, merged_detail, DetailAction, DetailEvent,
};
use zenith::launch::maven::maven_path;
use zenith::launch::natives::{
    extract_entries, extract_natives, file_name, native_path, ExtractError,
};
use zenith::launch::prepare::{
    plan_library, prepare, prepare_failed, LibraryUse, Prepared, Step,
};
use zenith::launch::rules::{os_arch, os_name, rules_allow, Platform};
use zenith::launch::version::{
    Arg, ArgValue, Arguments, Artifact, AssetIndex, AssetIndexRef, AssetObject, Downloads, Extract,
    FabricLoaderEntry, FabricLoaderInfo, LibDownloads, Library, LoaderProfile, OsRule, Rule,
    VersionDetail,
};
use zenith::log::{progress, progress_finish, progress_inc, progress_start, Progress};
use zenith::store::Paths;
use zenith::table::Table;
use zenith::{Account, Loader, VersionEntry};

fn mac() -> Platform {
    Platform::new("macos", "aarch64")
}

fn rule(action: &str, os: Option<(Option<&str>, Option<&str>)>) -> Rule {
    Rule {
        action: action.to_string(),
        os: os.map(|(n, a)| OsRule {
            name: n.map(|s| s.to_string()),
            arch: a.map(|s| s.to_string()),
        }),
        features: None,
    }
}

fn library(name: &str) -> Library {
    Library {
        name: name.to_string(),
        downloads: None,
        rules: None,
        natives: None,
        extract: None,
        url: None,
    }
}

fn artifact(url: &str, path: Option<&str>) -> Artifact {
    Artifact { path: path.map(|s| s.to_string()), url: url.to_string() }
}

fn maven_library(name: &str, base: &str) -> Library {
    Library { url: Some(base.to_string()), ..library(name) }
}

fn natives_library(name: &str, os: &str, template: &str, classifier: &str) -> Library {
    let mut natives: Table<String> = Table::new();
    natives.insert(os.to_string(), template.to_string());
    let mut classifiers: Table<Artifact> = Table::new();
    classifiers.insert(classifier.to_string(), artifact("https://n/jar", None));
    Library {
        natives: Some(natives),
        downloads: Some(LibDownloads { artifact: None, classifiers: Some(classifiers) }),
        extract: Some(Extract { exclude: vec!["doc/".to_string()] }),
        ..library(name)
    }
}

fn detail(libraries: Vec<Library>) -> VersionDetail {
    VersionDetail {
        main_class: "net.minecraft.client.main.Main".to_string(),
        asset_index: AssetIndexRef { id: "17".to_string(), url: "https://a/17.json".to_string() },
        downloads: Downloads { client: artifact("https://c/client.jar", None) },
        libraries,
        arguments: None,
        minecraft_arguments: Some("--username ${auth_player_name}".to_string()),
        kind: String::new(),
    }
}

fn entry() -> VersionEntry {
    VersionEntry {
        id: "1.21".to_string(),
        kind: "release".to_string(),
        url: "https://v/1.21.json".to_string(),
    }
}

fn paths() -> Paths {
    Paths { root: "/z".to_string() }
}

fn show(step: &Step) -> String {
    match step {
        Step::Info(s) => format!("info {s}"),
        Step::CreateDir(d) => format!("mkdir {d}"),
        Step::Download { url, dest } => format!("get {url} {dest}"),
        Step::Extract { jar, dest, exclude } => format!("extract {jar} {dest} {exclude:?}"),
        Step::ProgressStart { label, total } => format!("start {label} {total}"),
        Step::ProgressInc => "inc".to_string(),
        Step::ProgressFinish => "finish".to_string(),
        Step::Assets { index_url, index_path, objects_dir } => {
            format!("assets {index_url} {index_path} {objects_dir}")
        }
    }
}

#[test]
fn platform_names() {
    assert_eq!(os_name("macos"), "osx");
    assert_eq!(os_name("linux"), "linux");
    assert_eq!(os_name("windows"), "windows");
    assert_eq!(os_arch("aarch64"), "arm64");
    assert_eq!(os_arch("x86_64"), "x86_64");
    assert_eq!(os_arch("x86"), "x86");
    assert_eq!(os_arch("riscv64"), "riscv64");
}

#[test]
fn rules_go_by_the_last_match() {
    let p = mac();
    assert!(rules_allow(&vec![], &p));
    assert!(rules_allow(&vec![rule("allow", None)], &p));
    assert!(!rules_allow(&vec![rule("disallow", None)], &p));
    assert!(rules_allow(&vec![rule("allow", Some((Some("osx"), None)))], &p));
    assert!(!rules_allow(&vec![rule("allow", Some((Some("linux"), None)))], &p));
    assert!(!rules_allow(
        &vec![rule("allow", None), rule("disallow", Some((Some("osx"), None)))],
        &p
    ));
    assert!(rules_allow(
        &vec![rule("allow", None), rule("disallow", Some((Some("linux"), None)))],
        &p
    ));
    assert!(rules_allow(&vec![rule("allow", Some((Some("osx"), Some("arm64"))))], &p));
    assert!(!rules_allow(&vec![rule("allow", Some((Some("osx"), Some("x86"))))], &p));
    assert!(!rules_allow(&vec![rule("maybe", None)], &p));
}

#[test]
fn required_features_are_off() {
    let mut on: Table<bool> = Table::new();
    on.insert("is_demo_user".to_string(), true);
    let mut off: Table<bool> = Table::new();
    off.insert("is_demo_user".to_string(), false);
    let demo = Rule { action: "allow".to_string(), os: None, features: Some(on) };
    let plain = Rule { action: "allow".to_string(), os: None, features: Some(off) };
    assert!(!rules_allow(&vec![demo], &mac()));
    assert!(rules_allow(&vec![plain], &mac()));
}

#[test]
fn maven_paths() {
    assert_eq!(
        maven_path("net.fabricmc:fabric-loader:0.16.0").unwrap(),
        "net/fabricmc/fabric-loader/0.16.0/fabric-loader-0.16.0.jar"
    );
    assert_eq!(
        maven_path("org.lwjgl:lwjgl:3.3.1:natives-macos").unwrap(),
        "org/lwjgl/lwjgl/3.3.1/lwjgl-3.3.1-natives-macos.jar"
    );
    assert_eq!(maven_path("a:b:c:d:e").unwrap(), "a/b/c/b-c-d.jar");
    assert_eq!(maven_path("a.b:c.d:1").unwrap(), "a/b/c.d/1/c.d-1.jar");
}

#[test]
fn bad_library_names() {
    for name in ["", "a", "a:b"] {
        let e = maven_path(name).unwrap_err();
        assert!(matches!(e, LaunchError::BadLibraryName(_)));
        assert_eq!(e.message(), format!("bad library name: {name}"));
    }
}

#[test]
fn libraries_with_an_artifact_go_on_the_classpath() {
    let with = |path: Option<&str>| Library {
        downloads: Some(LibDownloads {
            artifact: Some(artifact("https://l/x.jar", path)),
            classifiers: None,
        }),
        ..library("g.h:x:1")
    };
    match plan_library(&with(Some("own/path.jar")), &mac()).unwrap() {
        LibraryUse::Classpath { url, path } => {
            assert_eq!((url.as_str(), path.as_str()), ("https://l/x.jar", "own/path.jar"));
        }
        _ => panic!("not on the classpath"),
    }
    match plan_library(&with(None), &mac()).unwrap() {
        LibraryUse::Classpath { path, .. } => assert_eq!(path, "g/h/x/1/x-1.jar"),
        _ => panic!("not on the classpath"),
    }
    // the name is read even where the artifact has its own path
    let bad = Library { name: "bad".to_string(), ..with(Some("own/path.jar")) };
    assert!(plan_library(&bad, &mac()).is_err());
}

#[test]
fn libraries_with_a_maven_base() {
    match plan_library(&maven_library("g:x:1", "https://maven/"), &mac()).unwrap() {
        LibraryUse::Classpath { url, path } => {
            assert_eq!(url, "https://maven/g/x/1/x-1.jar");
            assert_eq!(path, "g/x/1/x-1.jar");
        }
        _ => panic!("not on the classpath"),
    }
    assert!(matches!(plan_library(&library("g:x:1"), &mac()).unwrap(), LibraryUse::Skip));
}

#[test]
fn libraries_for_other_systems_are_skipped() {
    let lib = Library {
        rules: Some(vec![rule("allow", Some((Some("windows"), None)))]),
        ..maven_library("bad name", "https://maven/")
    };
    assert!(matches!(plan_library(&lib, &mac()).unwrap(), LibraryUse::Skip));
}

#[test]
fn old_style_natives() {
    let lib = natives_library("org.lwjgl:lwjgl:2.9", "osx", "natives-osx", "natives-osx");
    match plan_library(&lib, &mac()).unwrap() {
        LibraryUse::Natives { url, path, exclude } => {
            assert_eq!(url, "https://n/jar");
            assert_eq!(path, "org/lwjgl/lwjgl/2.9/lwjgl-2.9-natives-osx.jar");
            assert_eq!(exclude, vec!["doc/".to_string()]);
        }
        _ => panic!("no natives"),
    }
    // another system, or no file for the classifier
    assert!(matches!(
        plan_library(&lib, &Platform::new("linux", "x86_64")).unwrap(),
        LibraryUse::Skip
    ));
    let none = natives_library("a:b:1", "osx", "natives-osx", "other");
    assert!(matches!(plan_library(&none, &mac()).unwrap(), LibraryUse::Skip));
}

#[test]
fn natives_classifier_follows_the_processor() {
    let lib = natives_library("a:b:1", "windows", "natives-${arch}", "natives-32");
    assert!(matches!(
        plan_library(&lib, &Platform::new("windows", "x86")).unwrap(),
        LibraryUse::Natives { .. }
    ));
    assert!(matches!(
        plan_library(&lib, &Platform::new("windows", "x86_64")).unwrap(),
        LibraryUse::Skip
    ));
}

#[test]
fn preparing_lists_every_step() {
    let libs = vec![
        maven_library("g:x:1", "https://m/"),
        natives_library("a:b:1", "osx", "natives-osx", "natives-osx"),
        library("g:nothing:1"),
    ];
    let plan = prepare(&entry(), detail(libs), &paths(), &mac());
    let got: Vec<String> = plan.steps.iter().map(show).collect();
    assert_eq!(
        got,
        vec![
            "mkdir /z/versions/1.21",
            "info Downloading client jar…",
            "get https://c/client.jar /z/versions/1.21/1.21.jar",
            "mkdir /z/versions/1.21/natives",
            "start Libraries 3",
            "inc",
            "get https://m/g/x/1/x-1.jar /z/libraries/g/x/1/x-1.jar",
            "inc",
            "get https://n/jar /z/libraries/a/b/1/b-1-natives-osx.jar",
            "extract /z/libraries/a/b/1/b-1-natives-osx.jar /z/versions/1.21/natives [\"doc/\"]",
            "inc",
            "finish",
            "info Downloading assets (17)…",
            "assets https://a/17.json /z/assets/indexes/17.json /z/assets/objects",
            "info Assets ready.",
        ]
    );
    let p = plan.outcome.unwrap();
    assert_eq!(
        p.classpath,
        vec![
            "/z/versions/1.21/1.21.jar".to_string(),
            "/z/libraries/g/x/1/x-1.jar".to_string()
        ]
    );
    assert_eq!(p.natives_dir, "/z/versions/1.21/natives");
    assert_eq!(p.main_class, "net.minecraft.client.main.Main");
    assert_eq!(p.asset_index_id, "17");
    assert_eq!(p.assets_dir, "/z/assets");
    assert_eq!(p.version_id, "1.21");
    assert_eq!(p.version_type, "release");
    assert!(p.arguments.is_none());
    assert_eq!(p.legacy_arguments.as_deref(), Some("--username ${auth_player_name}"));
}

#[test]
fn preparing_takes_the_kind_of_the_detail_first() {
    let d = VersionDetail { kind: "snapshot".to_string(), ..detail(vec![]) };
    assert_eq!(prepare(&entry(), d, &paths(), &mac()).outcome.unwrap().version_type, "snapshot");
}

#[test]
fn preparing_stops_at_a_bad_library() {
    let libs = vec![
        maven_library("g:x:1", "https://m/"),
        maven_library("bad", "https://m/"),
        maven_library("g:y:1", "https://m/"),
    ];
    let plan = prepare(&entry(), detail(libs), &paths(), &mac());
    let got: Vec<String> = plan.steps.iter().skip(4).map(show).collect();
    assert_eq!(
        got,
        vec![
            "start Libraries 3",
            "inc",
            "get https://m/g/x/1/x-1.jar /z/libraries/g/x/1/x-1.jar",
            "inc",
            "finish"
        ]
    );
    match plan.outcome {
        Err(e) => assert_eq!(e.message(), "bad library name: bad"),
        Ok(_) => panic!("prepared"),
    }
}

fn listed(v: Vec<(&str, bool)>) -> Vec<FabricLoaderEntry> {
    v.into_iter()
        .map(|(version, stable)| FabricLoaderEntry {
            loader: FabricLoaderInfo { version: version.to_string(), stable },
        })
        .collect()
}

#[test]
fn newest_stable_loader_is_preferred() {
    let pick = |v| latest_loader_version(Loader::Fabric, "1.21", &listed(v));
    assert_eq!(pick(vec![("3", false), ("2", true), ("1", true)]).unwrap(), "2");
    assert_eq!(pick(vec![("3", false), ("2", false)]).unwrap(), "3");
    let e = pick(vec![]).unwrap_err();
    assert_eq!(e.message(), "no Fabric loader for 1.21");
}

#[test]
fn loader_lists_come_from_the_meta_api() {
    let f = loader_list_request(Loader::Fabric, "1.21").ok().unwrap();
    assert_eq!(f.url, "https://meta.fabricmc.net/v2/versions/loader/1.21");
    assert_eq!(f.context, "listing Fabric loader versions");
    let q = loader_list_request(Loader::Quilt, "1.21").ok().unwrap();
    assert_eq!(q.url, "https://meta.quiltmc.org/v3/versions/loader/1.21");
    match loader_list_request(Loader::Vanilla, "1.21") {
        Err(e) => assert_eq!(e.message(), "no meta API for Vanilla"),
        Ok(_) => panic!("vanilla has no meta API"),
    }
}

#[test]
fn vanilla_needs_its_own_metadata_alone() {
    match merged_detail(&entry(), Loader::Vanilla, DetailEvent::Start) {
        DetailAction::FetchDetail { notice, request } => {
            assert_eq!(notice, "Fetching 1.21 (Vanilla) metadata…");
            assert_eq!(request.url, "https://v/1.21.json");
            assert_eq!(request.context, "fetching version detail");
        }
        _ => panic!("wrong first step"),
    }
    match merged_detail(&entry(), Loader::Vanilla, DetailEvent::Detail(detail(vec![]))) {
        DetailAction::Ready(d) => assert_eq!(d.main_class, "net.minecraft.client.main.Main"),
        _ => panic!("not ready"),
    }
}

#[test]
fn forge_is_refused() {
    for (loader, label) in [(Loader::Forge, "Forge"), (Loader::NeoForge, "NeoForge")] {
        match merged_detail(&entry(), loader, DetailEvent::Detail(detail(vec![]))) {
            DetailAction::Fail(e) => assert_eq!(
                e.message(),
                format!("{label} isn't supported yet (it needs the installer's processor step).")
            ),
            _ => panic!("not refused"),
        }
    }
}

#[test]
fn quilt_profile_is_merged_onto_vanilla() {
    let v = entry();
    let base = match merged_detail(
        &v,
        Loader::Quilt,
        DetailEvent::Detail(VersionDetail {
            arguments: Some(Arguments {
                game: vec![Arg::Plain("g0".to_string())],
                jvm: vec![Arg::Plain("j0".to_string())],
            }),
            ..detail(vec![library("a:a:1")])
        }),
    ) {
        DetailAction::FetchLoaders { base, request } => {
            assert_eq!(request.url, "https://meta.quiltmc.org/v3/versions/loader/1.21");
            base
        }
        _ => panic!("loaders are not asked for"),
    };
    let list = listed(vec![("0.27", true)]);
    let base = match merged_detail(&v, Loader::Quilt, DetailEvent::Loaders(base, list)) {
        DetailAction::FetchProfile { base, notice, request } => {
            assert_eq!(notice, "Quilt loader 0.27");
            assert_eq!(
                request.url,
                "https://meta.quiltmc.org/v3/versions/loader/1.21/0.27/profile/json"
            );
            assert_eq!(request.context, "fetching Quilt profile");
            base
        }
        _ => panic!("the profile is not asked for"),
    };
    let profile = LoaderProfile {
        main_class: "org.quiltmc.Knot".to_string(),
        libraries: vec![library("q:q:1")],
        arguments: Some(Arguments {
            game: vec![],
            jvm: vec![Arg::Plain("j1".to_string())],
        }),
    };
    match merged_detail(&v, Loader::Quilt, DetailEvent::Profile(base, profile)) {
        DetailAction::Ready(d) => {
            assert_eq!(d.main_class, "org.quiltmc.Knot");
            let names: Vec<&str> = d.libraries.iter().map(|l| l.name.as_str()).collect();
            assert_eq!(names, vec!["q:q:1", "a:a:1"]);
            let args = d.arguments.unwrap();
            assert_eq!(args.jvm.len(), 2);
            assert_eq!(args.game.len(), 1);
        }
        _ => panic!("not ready"),
    }
}

#[test]
fn missing_loader_ends_the_fetch() {
    match merged_detail(
        &entry(),
        Loader::Fabric,
        DetailEvent::Loaders(detail(vec![]), vec![]),
    ) {
        DetailAction::Fail(e) => assert_eq!(e.message(), "no Fabric loader for 1.21"),
        _ => panic!("not failed"),
    }
}

#[test]
fn profile_arguments_stand_alone_on_a_legacy_version() {
    let profile = LoaderProfile {
        main_class: "m".to_string(),
        libraries: vec![],
        arguments: Some(Arguments { game: vec![Arg::Plain("x".to_string())], jvm: vec![] }),
    };
    match merged_detail(
        &entry(),
        Loader::Fabric,
        DetailEvent::Profile(detail(vec![]), profile),
    ) {
        DetailAction::Ready(d) => assert_eq!(d.arguments.unwrap().game.len(), 1),
        _ => panic!("not ready"),
    }
}

#[test]
fn file_names_agree_with_std() {
    for name in [
        "", "/", ".", "..", "a", "a/b", "a/b/", "a/.", "a/./", "a/..", "a/../b", "./a", "./.",
        "a//b//", "/a", "..a", "a/...", "ä/ö.dylib", "a\\b",
    ] {
        let want = std::path::Path::new(name).file_name().map(|f| f.to_string_lossy().to_string());
        assert_eq!(file_name(name), want, "{name:?}");
    }
}

#[test]
fn natives_are_flattened_and_filtered() {
    let exclude = vec!["doc/".to_string()];
    let at = |name: &str, is_dir: bool| native_path(name, is_dir, &exclude, "/n");
    assert_eq!(at("lib/liblwjgl.dylib", false).as_deref(), Some("/n/liblwjgl.dylib"));
    assert_eq!(at("../../etc/passwd", false).as_deref(), Some("/n/passwd"));
    assert_eq!(at("META-INF/MANIFEST.MF", false), None);
    assert_eq!(at("doc/readme", false), None);
    assert_eq!(at("lib/", true), None);
    assert_eq!(at("..", false).as_deref(), Some("/n/"));
}

fn jar(files: &[(&str, &[u8])]) -> Vec<u8> {
    let mut w = zip::ZipWriter::new(Cursor::new(Vec::new()));
    let options = zip::write::SimpleFileOptions::default()
        .compression_method(zip::CompressionMethod::Deflated);
    for (name, data) in files {
        if name.ends_with('/') {
            w.add_directory(*name, options).unwrap();
        } else {
            w.start_file(*name, options).unwrap();
            w.write_all(data).unwrap();
        }
    }
    w.finish().unwrap().into_inner()
}

#[test]
fn jars_are_read_in_order() {
    let long = vec![7u8; 10000];
    let bytes = jar(&[("b/", b""), ("b/x.dylib", long.as_slice()), ("a.txt", b"hello")]);
    let entries = read_archive(bytes).unwrap();
    let got: Vec<(String, bool, Vec<u8>)> = entries
        .into_iter()
        .map(|e| e.unwrap())
        .map(|e| (e.name, e.is_dir, e.data.unwrap()))
        .collect();
    assert_eq!(
        got,
        vec![
            ("b/".to_string(), true, vec![]),
            ("b/x.dylib".to_string(), false, long),
            ("a.txt".to_string(), false, b"hello".to_vec()),
        ]
    );
}

#[test]
fn natives_jar_is_extracted() {
    let bytes = jar(&[
        ("META-INF/MANIFEST.MF", b"m"),
        ("lib/", b""),
        ("lib/one.dylib", b"1"),
        ("doc/readme", b"d"),
        ("two.dylib", b"22"),
    ]);
    let r = extract_natives(bytes, "/n", &vec!["doc/".to_string()]);
    assert!(r.outcome.is_ok());
    let got: Vec<(String, Vec<u8>)> = r.files.into_iter().map(|f| (f.path, f.data)).collect();
    assert_eq!(
        got,
        vec![
            ("/n/one.dylib".to_string(), b"1".to_vec()),
            ("/n/two.dylib".to_string(), b"22".to_vec()),
        ]
    );
}

#[test]
fn what_is_no_jar_is_refused() {
    let r = extract_natives(b"not an archive".to_vec(), "/n", &vec![]);
    assert!(r.files.is_empty());
    assert!(matches!(r.outcome, Err(ExtractError::Archive(_))));
}

#[test]
fn damaged_bytes_are_refused() {
    let mut bytes = jar(&[("one", b"1"), ("two", b"some bytes that are longer than the first")]);
    let at = bytes.windows(3).position(|w| w == b"two").unwrap() + 5;
    bytes[at] ^= 0xff;
    let r = extract_natives(bytes, "/n", &vec![]);
    assert_eq!(r.files.len(), 1);
    assert!(matches!(r.outcome, Err(ExtractError::Read(_))));
}

#[test]
fn extraction_stops_at_the_first_failure() {
    let entry = |name: &str, data: Result<Vec<u8>, std::io::Error>| {
        Ok(Entry { name: name.to_string(), is_dir: false, data })
    };
    let broken = || Err(std::io::Error::new(std::io::ErrorKind::InvalidData, "broken"));
    let r = extract_entries(
        vec![
            entry("META-INF/x", broken()),
            entry("a", Ok(vec![1])),
            entry("b", broken()),
            entry("c", Ok(vec![3])),
        ],
        "/n",
        &vec![],
    );
    assert_eq!(r.files.len(), 1);
    assert_eq!(r.files[0].path, "/n/a");
    match r.outcome {
        Err(ExtractError::Read(e)) => assert_eq!(e.to_string(), "broken"),
        _ => panic!("not stopped"),
    }
    let r = extract_entries(
        vec![
            entry("a", Ok(vec![1])),
            Err(zip::result::ZipError::FileNotFound),
            entry("c", Ok(vec![3])),
        ],
        "/n",
        &vec![],
    );
    assert_eq!(r.files.len(), 1);
    assert!(matches!(
        r.outcome,
        Err(ExtractError::Archive(zip::result::ZipError::FileNotFound))
    ));
}

#[test]
fn assets_are_named_by_their_hash() {
    let job = asset_job("/z/assets/objects", "bdf48ef6b5d0d23bbb02e17d04865216179f510a");
    assert_eq!(job.dest, "/z/assets/objects/bd/bdf48ef6b5d0d23bbb02e17d04865216179f510a");
    assert_eq!(
        job.url,
        "https://resources.download.minecraft.net/bd/bdf48ef6b5d0d23bbb02e17d04865216179f510a"
    );
    assert_eq!(job.hash, "bdf48ef6b5d0d23bbb02e17d04865216179f510a");
    assert_eq!(ASSET_WORKERS, 24);
}

#[test]
fn asset_hashes_need_two_leading_bytes() {
    for hash in ["", "a", "ab", "abc", "ä", "äb", "aä", "€", "😀x", "a\u{7f}"] {
        assert_eq!(is_asset_hash(hash), hash.get(0..2).is_some(), "{hash:?}");
        if let Some(sub) = hash.get(0..2) {
            assert_eq!(asset_job("/o", hash).dest, format!("/o/{sub}/{hash}"));
        }
    }
}

#[test]
fn only_missing_assets_are_downloaded() {
    let index = AssetIndex {
        objects: ["aa1", "bb2", "cc3"]
            .iter()
            .map(|h| AssetObject { hash: h.to_string() })
            .collect(),
    };
    let plan = download_assets(asset_jobs("/o", &index), &vec![false, true, false]);
    let hashes: Vec<&str> = plan.pending.iter().map(|j| j.hash.as_str()).collect();
    assert_eq!(hashes, vec!["aa1", "cc3"]);
    let bar = plan.bar.unwrap();
    assert_eq!((bar.label.as_str(), bar.total), ("Assets", 2));
    let plan = download_assets(asset_jobs("/o", &index), &vec![true, true, true]);
    assert!(plan.pending.is_empty());
    assert!(plan.bar.is_none());
    assert_eq!(asset_failure("aa1", "timeout"), "asset aa1 failed: timeout");
}

fn var(k: &str, v: &str) -> (String, String) {
    (k.to_string(), v.to_string())
}

#[test]
fn placeholders_are_filled() {
    let vars = vec![var("a", "1"), var("b", ""), var("c", "x y")];
    assert_eq!(substitute("${a}-${b}-${c}-${d}", &vars), "1--x y-${d}");
    assert_eq!(substitute("plain $ text", &vars), "plain $ text");
    assert_eq!(substitute("${a}${a}", &vars), "11");
}

#[test]
fn walk_order_does_not_matter_for_inert_values() {
    let a = vec![var("a", "1"), var("b", "$2"), var("c", "3")];
    let b = vec![var("c", "3"), var("a", "1"), var("b", "$2")];
    for t in ["${a}", "x${b}y${c}z", "${c}${b}${a}", "$x ${unknown}"] {
        assert_eq!(substitute(t, &a), substitute(t, &b));
    }
}

#[test]
fn values_with_placeholders_are_filled_in_list_order() {
    let a = vec![var("a", "${b}"), var("b", "x")];
    let b = vec![var("b", "x"), var("a", "${b}")];
    assert_eq!(substitute("${a}", &a), "x");
    assert_eq!(substitute("${a}", &b), "${b}");
}

#[test]
fn conditional_arguments() {
    let vars = vec![var("a", "1")];
    let mut out: Vec<String> = Vec::new();
    let args = vec![
        Arg::Plain("-x=${a}".to_string()),
        Arg::Conditional {
            rules: vec![rule("allow", Some((Some("osx"), None)))],
            value: ArgValue::One("-XstartOnFirstThread".to_string()),
        },
        Arg::Conditional {
            rules: vec![rule("allow", Some((Some("windows"), None)))],
            value: ArgValue::One("-windows".to_string()),
        },
        Arg::Conditional {
            rules: vec![],
            value: ArgValue::Many(vec!["--w".to_string(), "${a}".to_string()]),
        },
    ];
    for a in &args {
        push_arg(a, &vars, &mac(), &mut out);
    }
    assert_eq!(out, vec!["-x=1", "-XstartOnFirstThread", "--w", "1"]);
}

#[test]
fn classpath_is_joined_with_colons() {
    assert_eq!(classpath_string(&vec![]), "");
    assert_eq!(classpath_string(&vec!["a".to_string(), "b".to_string()]), "a:b");
}

fn prepared(arguments: Option<Arguments>, legacy: Option<&str>) -> Prepared {
    Prepared {
        classpath: vec!["/a.jar".to_string(), "/b.jar".to_string()],
        natives_dir: "/n".to_string(),
        main_class: "Main".to_string(),
        asset_index_id: "17".to_string(),
        assets_dir: "/z/assets".to_string(),
        version_id: "1.21".to_string(),
        version_type: "release".to_string(),
        arguments,
        legacy_arguments: legacy.map(|s| s.to_string()),
    }
}

#[test]
fn modern_command() {
    let names = [
        "auth_player_name", "version_name", "game_directory", "assets_root", "assets_index_name",
        "auth_uuid", "auth_access_token", "clientid", "auth_xuid", "user_type", "version_type",
        "natives_directory", "launcher_name", "launcher_version", "classpath",
    ];
    let arguments = Arguments {
        jvm: vec![
            Arg::Plain("-cp".to_string()),
            Arg::Plain("${classpath}".to_string()),
        ],
        game: names.iter().map(|n| Arg::Plain(format!("{n}=${{{n}}}"))).collect(),
    };
    let account = Account::offline("Notch");
    let r = launch(
        &prepared(Some(arguments), None),
        &account,
        &paths(),
        None,
        "0.1.0",
        &mac(),
        &Game::new(),
    );
    assert_eq!(r.notice, "Launching 1.21 (Main) as Notch…");
    let c = r.command.unwrap();
    assert_eq!(c.program, "java");
    assert_eq!(c.dir, "/z");
    assert_eq!(c.context, "failed to launch `java` — is Java installed and on PATH?");
    assert_eq!(
        c.args,
        vec![
            "-cp",
            "/a.jar:/b.jar",
            "Main",
            "auth_player_name=Notch",
            "version_name=1.21",
            "game_directory=/z",
            "assets_root=/z/assets",
            "assets_index_name=17",
            "auth_uuid=b50ad385-829d-3141-a216-7e7d7539ba7f",
            "auth_access_token=0",
            "clientid=",
            "auth_xuid=",
            "user_type=legacy",
            "version_type=release",
            "natives_directory=/n",
            "launcher_name=zenith",
            "launcher_version=0.1.0",
            "classpath=/a.jar:/b.jar",
        ]
    );
}

#[test]
fn legacy_command() {
    let r = launch(
        &prepared(None, Some(" --username ${auth_player_name}\t--dir  ${game_directory} ")),
        &Account::offline("Notch"),
        &paths(),
        Some("/opt/java".to_string()),
        "0.1.0",
        &mac(),
        &Game::new(),
    );
    let c = r.command.unwrap();
    assert_eq!(c.program, "/opt/java");
    assert_eq!(
        c.args,
        vec![
            "-Djava.library.path=/n",
            "-cp",
            "/a.jar:/b.jar",
            "Main",
            "--username",
            "Notch",
            "--dir",
            "/z"
        ]
    );
    let bare = launch(
        &prepared(None, None),
        &Account::offline("Notch"),
        &paths(),
        None,
        "0.1.0",
        &mac(),
        &Game::new(),
    );
    assert_eq!(bare.command.unwrap().args.len(), 4);
}

#[test]
fn one_game_at_a_time() {
    let mut g = Game::new();
    assert!(!is_running(&g));
    assert!(kill_running(&g).is_none());
    game_started(&mut g, 4711);
    assert!(is_running(&g));
    let kill = kill_running(&g).unwrap();
    assert_eq!(kill.pid, "4711");
    assert_eq!(kill.notice, "Stopping game (pid 4711)…");
    let r = launch(
        &prepared(None, None),
        &Account::offline("Notch"),
        &paths(),
        None,
        "0.1.0",
        &mac(),
        &g,
    );
    assert_eq!(r.notice, "Launching 1.21 (Main) as Notch…");
    match r.command {
        Err(e) => assert_eq!(e.message(), "A game is already running. Stop it first."),
        Ok(_) => panic!("launched twice"),
    }
    game_exited(&mut g);
    assert!(!is_running(&g));
    assert!(kill_running(&g).is_none());
    assert_eq!(exit_line("exit status: 0"), "Game exited (exit status: 0).");
    assert_eq!(wait_failure("gone"), "Failed to wait on game: gone");
}

#[test]
fn loader_libraries_stand_first_on_the_classpath() {
    let profile = LoaderProfile {
        main_class: "Knot".to_string(),
        libraries: vec![maven_library("l:loader:1", "https://m/")],
        arguments: None,
    };
    let base = detail(vec![maven_library("v:vanilla:1", "https://m/")]);
    let merged = match merged_detail(&entry(), Loader::Fabric, DetailEvent::Profile(base, profile)) {
        DetailAction::Ready(d) => d,
        _ => panic!("not ready"),
    };
    let plan = prepare(&entry(), merged, &paths(), &mac());
    let p = plan.outcome.unwrap();
    assert_eq!(p.main_class, "Knot");
    assert_eq!(
        p.classpath,
        vec![
            "/z/versions/1.21/1.21.jar",
            "/z/libraries/l/loader/1/loader-1.jar",
            "/z/libraries/v/vanilla/1/vanilla-1.jar"
        ]
    );
    for file in &p.classpath {
        assert!(plan
            .steps
            .iter()
            .any(|s| matches!(s, Step::Download { dest, .. } if dest == file)));
    }
}

fn advance(p: &mut Progress, steps: &[Step]) {
    for step in steps {
        match step {
            Step::ProgressStart { label, total } => {
                let _ = progress_start(p, label.clone(), *total);
            }
            Step::ProgressInc => {
                let _ = progress_inc(p);
            }
            Step::ProgressFinish => {
                let _ = progress_finish(p);
            }
            _ => {}
        }
    }
}

#[test]
fn preparation_leaves_no_bar() {
    let good = || maven_library("g:x:1", "https://m/");
    for libs in [vec![], vec![good(), good()], vec![good(), maven_library("bad", "https://m/")]] {
        let steps = prepare(&entry(), detail(libs), &paths(), &mac()).steps;
        for n in 0..steps.len() {
            // the step at n fails
            let mut p = Progress::new();
            advance(&mut p, &steps[..n]);
            advance(&mut p, &prepare_failed());
            assert!(progress(&p).is_none());
        }
        let mut p = Progress::new();
        advance(&mut p, &steps);
        assert!(progress(&p).is_none());
    }
}

#[test]
fn bar_is_there_while_libraries_come() {
    let libs = vec![maven_library("g:x:1", "https://m/"), maven_library("g:y:1", "https://m/")];
    let steps = prepare(&entry(), detail(libs), &paths(), &mac()).steps;
    let mut p = Progress::new();
    advance(&mut p, &steps[..4]);
    assert!(progress(&p).is_none());
    advance(&mut p, &steps[4..6]);
    assert_eq!(progress(&p), Some((1, 2, "Libraries".to_string())));
}

#[test]
fn files_that_are_there_are_not_fetched() {
    assert!(download_to("https://x/y.jar", true).is_none());
    let f = download_to("https://x/y.jar", false).unwrap();
    assert_eq!(f.url, "https://x/y.jar");
    assert_eq!(f.context, "downloading https://x/y.jar");
}
