//! The parts of a Minecraft version manifest that launching reads.

use vstd::prelude::*;

verus! {

/// A manifest rule: `allow` or `disallow`, optionally limited to one
/// operating system and to feature flags.
pub struct Rule {
    /// `allow` unless the manifest says otherwise.
    pub action: String,
    /// The `os.name` the rule is limited to, if any.
    pub os_name: Option<String>,
    /// The boolean feature flags the rule requires.
    pub features: Vec<(String, bool)>,
}

/// One entry of an `arguments.game` or `arguments.jvm` list.
pub enum ArgValue {
    /// A plain argument.
    Plain(String),
    /// Arguments that apply only where their rules allow.
    Ruled { rules: Vec<Rule>, values: Vec<String> },
}

/// The `arguments` block of a manifest.
pub struct Arguments {
    pub game: Vec<ArgValue>,
    pub jvm: Vec<ArgValue>,
}

/// A downloadable file.
pub struct Artifact {
    pub url: String,
    pub sha1: String,
    pub size: u64,
}

/// The asset index a version uses.
pub struct AssetIndexRef {
    pub id: String,
    pub url: String,
    pub sha1: String,
    pub size: u64,
}

/// Where a library's files come from: the main artifact and the native
/// classifiers by key (such as `natives-linux`).
pub struct LibraryDownloads {
    pub artifact: Option<Artifact>,
    pub classifiers: Vec<(String, Artifact)>,
}

/// A library of a version.
pub struct Library {
    /// Maven coordinate `group:artifact:version[:classifier]`.
    pub name: String,
    pub downloads: Option<LibraryDownloads>,
    /// `None` when the manifest gives no rule list.
    pub rules: Option<Vec<Rule>>,
}

/// The client jar download.
pub struct VersionDownloads {
    pub client: Option<Artifact>,
}

/// A version manifest.
pub struct ManifestVersionInfo {
    pub id: String,
    /// The manifest's `type` (`release`, `snapshot`, ...).
    pub version_type: String,
    pub main_class: Option<String>,
    pub arguments: Option<Arguments>,
    pub asset_index: AssetIndexRef,
    pub libraries: Vec<Library>,
    pub downloads: Option<VersionDownloads>,
}

} // verus!
