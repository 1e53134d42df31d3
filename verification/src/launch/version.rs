//! The metadata of a version, as the launcher reads it.

use vstd::prelude::*;

use crate::table::Table;

verus! {

/// Everything the metadata says about a version.
pub struct VersionDetail {
    pub main_class: String,
    pub asset_index: AssetIndexRef,
    pub downloads: Downloads,
    pub libraries: Vec<Library>,
    pub arguments: Option<Arguments>,
    pub minecraft_arguments: Option<String>,
    pub kind: String,
}

/// Where the list of assets is.
pub struct AssetIndexRef {
    pub id: String,
    pub url: String,
}

/// The files of the version itself.
pub struct Downloads {
    pub client: Artifact,
}

/// A library on which a version depends.
pub struct Library {
    pub name: String,
    pub downloads: Option<LibDownloads>,
    pub rules: Option<Vec<Rule>>,
    pub natives: Option<Table<String>>,
    pub extract: Option<Extract>,
    /// Maven base URL (Fabric/Quilt/Forge style libraries have this instead of an explicit
    /// artifact).
    pub url: Option<String>,
}

/// A loader's partial profile (Fabric/Quilt), merged onto vanilla.
pub struct LoaderProfile {
    pub main_class: String,
    pub libraries: Vec<Library>,
    pub arguments: Option<Arguments>,
}

/// An entry of the list of a loader's versions.
pub struct FabricLoaderEntry {
    pub loader: FabricLoaderInfo,
}

/// A version of a loader.
pub struct FabricLoaderInfo {
    pub version: String,
    pub stable: bool,
}

/// The files of a library.
pub struct LibDownloads {
    pub artifact: Option<Artifact>,
    pub classifiers: Option<Table<Artifact>>,
}

/// A file to download.
pub struct Artifact {
    pub path: Option<String>,
    pub url: String,
}

/// How natives are extracted.
pub struct Extract {
    pub exclude: Vec<String>,
}

/// One entry of an allow/disallow list.
pub struct Rule {
    pub action: String,
    pub os: Option<OsRule>,
    pub features: Option<Table<bool>>,
}

/// The systems to which a rule applies.
pub struct OsRule {
    pub name: Option<String>,
    pub arch: Option<String>,
}

/// The arguments of the modern format.
pub struct Arguments {
    pub game: Vec<Arg>,
    pub jvm: Vec<Arg>,
}

/// One argument, or several under a condition.
pub enum Arg {
    Plain(String),
    Conditional { rules: Vec<Rule>, value: ArgValue },
}

/// What a conditional argument stands for.
pub enum ArgValue {
    One(String),
    Many(Vec<String>),
}

/// One asset of an index.
pub struct AssetObject {
    pub hash: String,
}

/// The list of assets, in the order in which they were handed over.
pub struct AssetIndex {
    pub objects: Vec<AssetObject>,
}

} // verus!
