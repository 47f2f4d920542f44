//! Records of the Modrinth catalogue that the launcher's logic reads.

use vstd::prelude::*;

verus! {

/// A project found by a Modrinth search.
pub struct Project {
    pub id: String,
    pub slug: String,
    pub title: String,
    pub description: String,
    pub project_type: String,
    pub downloads: u64,
}

impl Clone for Project {
    fn clone(&self) -> (r: Self)
        ensures
            r == *self,
    {
        Project {
            id: self.id.clone(),
            slug: self.slug.clone(),
            title: self.title.clone(),
            description: self.description.clone(),
            project_type: self.project_type.clone(),
            downloads: self.downloads,
        }
    }
}

/// One downloadable file of a version.
pub struct VersionFile {
    pub url: String,
    pub filename: String,
    pub primary: bool,
    pub size: u64,
}

impl Clone for VersionFile {
    fn clone(&self) -> (r: Self)
        ensures
            r == *self,
    {
        VersionFile {
            url: self.url.clone(),
            filename: self.filename.clone(),
            primary: self.primary,
            size: self.size,
        }
    }
}

/// One published version of a project.
pub struct Version {
    pub id: String,
    pub name: String,
    pub version_number: String,
    /// `release`, `beta` or `alpha`.
    pub version_type: String,
    pub loaders: Vec<String>,
    pub game_versions: Vec<String>,
    pub files: Vec<VersionFile>,
}

/// Two versions that agree on every field (lists by their contents).
pub open spec fn same_version(a: Version, b: Version) -> bool {
    &&& a.id == b.id
    &&& a.name == b.name
    &&& a.version_number == b.version_number
    &&& a.version_type == b.version_type
    &&& a.loaders@ == b.loaders@
    &&& a.game_versions@ == b.game_versions@
    &&& a.files@ == b.files@
}

impl Clone for Version {
    fn clone(&self) -> (r: Self)
        ensures
            same_version(r, *self),
    {
        let loaders = self.loaders.clone();
        assert(loaders@ =~= self.loaders@);
        let game_versions = self.game_versions.clone();
        assert(game_versions@ =~= self.game_versions@);
        let files = self.files.clone();
        assert(files@ =~= self.files@);
        Version {
            id: self.id.clone(),
            name: self.name.clone(),
            version_number: self.version_number.clone(),
            version_type: self.version_type.clone(),
            loaders,
            game_versions,
            files,
        }
    }
}

} // verus!
