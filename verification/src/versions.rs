//! Scanning other launchers' Minecraft directories: where they live, what a
//! version manifest found there says, and which files other launchers left
//! behind. Walking and reading the directories is the caller's part.

use vstd::prelude::*;
use crate::paths::join;
use crate::text::{chars_of, contains, contains_chars};

verus! {

/// What a version manifest found in a scanned directory says.
pub struct VersionInfo {
    pub id: String,
    pub loader_type: String,
    pub main_class: Option<String>,
    pub java_version: Option<u32>,
    pub has_client_jar: bool,
}

/// What was found in one candidate Minecraft directory.
pub struct ScanResult {
    pub path: String,
    pub exists: bool,
    pub loader_type: String,
    pub versions: Vec<VersionInfo>,
    pub library_count: usize,
    pub asset_indexes: Vec<String>,
    pub asset_object_count: usize,
    pub mods: Vec<String>,
    pub notes: Vec<String>,
}

/// Finds the Minecraft directories of other launchers.
pub struct SystemScanner;

/// Names that mark files and directories left by other launchers.
pub const FOREIGN_MARKERS: [&'static str; 19] = [
    "launcher_accounts.json",
    "launcher_profiles.json",
    "launcher_logs",
    "tlauncher",
    "minecraft-launcher",
    "HMCL",
    "hmcl",
    "PrismLauncher",
    "prismlauncher",
    "ATLauncher",
    "atlauncher",
    "MultiMC",
    "multimc",
    ".fabric",
    ".quilt",
    "modrinth",
    "curseforge",
    "Curse",
    " curseforge",
];

/// The markers, as character sequences.
pub open spec fn foreign_markers() -> Seq<Seq<char>> {
    seq![
        "launcher_accounts.json"@,
        "launcher_profiles.json"@,
        "launcher_logs"@,
        "tlauncher"@,
        "minecraft-launcher"@,
        "HMCL"@,
        "hmcl"@,
        "PrismLauncher"@,
        "prismlauncher"@,
        "ATLauncher"@,
        "atlauncher"@,
        "MultiMC"@,
        "multimc"@,
        ".fabric"@,
        ".quilt"@,
        "modrinth"@,
        "curseforge"@,
        "Curse"@,
        " curseforge"@,
    ]
}

/// Whether a file name contains one of the markers.
pub open spec fn is_foreign(name: Seq<char>) -> bool {
    exists|k: int| 0 <= k < foreign_markers().len() && contains(name, #[trigger] foreign_markers()[k])
}

/// The Minecraft directories to look at on an operating system, given the
/// `APPDATA` and `LOCALAPPDATA` variables and the home directory as far as
/// they are known.
pub open spec fn candidates(
    os: Seq<char>,
    appdata: Option<Seq<char>>,
    local: Option<Seq<char>>,
    home: Option<Seq<char>>,
) -> Seq<Seq<char>> {
    if os == "windows"@ {
        let a: Seq<Seq<char>> = match appdata {
            Some(d) => seq![join(d, ".minecraft"@)],
            None => Seq::empty(),
        };
        match local {
            Some(d) => a.push(join(d, ".minecraft"@)),
            None => a,
        }
    } else if os == "macos"@ {
        match home {
            Some(h) => seq![join(h, "Library/Application Support/minecraft"@)],
            None => Seq::empty(),
        }
    } else if os == "linux"@ {
        match home {
            Some(h) => seq![join(h, ".minecraft"@)],
            None => Seq::empty(),
        }
    } else {
        Seq::empty()
    }
}

impl SystemScanner {
    pub fn new() -> (s: Self) {
        SystemScanner
    }

    /// The candidate directories, in the order they are scanned.
    pub fn candidate_dirs(
        &self,
        os: &str,
        appdata: Option<String>,
        local: Option<String>,
        home: Option<String>,
    ) -> (r: Vec<String>)
        ensures
            r@.map_values(|s: String| s@) == candidates(
                os@,
                match appdata {
                    Some(d) => Some(d@),
                    None => None,
                },
                match local {
                    Some(d) => Some(d@),
                    None => None,
                },
                match home {
                    Some(d) => Some(d@),
                    None => None,
                },
            ),
    {
        proof {
            reveal_strlit("windows");
            reveal_strlit("macos");
            reveal_strlit("linux");
        }
        let mut dirs: Vec<String> = Vec::new();
        if crate::text::str_eq(os, "windows") {
            match appdata {
                Some(d) => dirs.push(crate::paths::join_path(d.as_str(), ".minecraft")),
                None => {},
            }
            match local {
                Some(d) => dirs.push(crate::paths::join_path(d.as_str(), ".minecraft")),
                None => {},
            }
        } else if crate::text::str_eq(os, "macos") {
            match home {
                Some(h) => dirs.push(
                    crate::paths::join_path(h.as_str(), "Library/Application Support/minecraft"),
                ),
                None => {},
            }
        } else if crate::text::str_eq(os, "linux") {
            match home {
                Some(h) => dirs.push(crate::paths::join_path(h.as_str(), ".minecraft")),
                None => {},
            }
        }
        proof {
            assert(dirs@.map_values(|s: String| s@) =~= candidates(
                os@,
                match appdata {
                    Some(d) => Some(d@),
                    None => None,
                },
                match local {
                    Some(d) => Some(d@),
                    None => None,
                },
                match home {
                    Some(d) => Some(d@),
                    None => None,
                },
            ));
        }
        dirs
    }

    /// Whether a file or directory named `name` was left by another
    /// launcher and is to be removed.
    pub fn is_foreign_asset(name: &str) -> (r: bool)
        ensures
            r == is_foreign(name@),
    {
        let cs = chars_of(name);
        let mut k: usize = 0;
        while k < 19
            invariant
                k <= 19,
                cs@ == name@,
                forall|j: int| 0 <= j < k ==> !contains(name@, #[trigger] foreign_markers()[j]),
            decreases 19 - k,
        {
            let m = FOREIGN_MARKERS[k];
            proof {
                reveal_strlit("launcher_accounts.json");
                reveal_strlit("launcher_profiles.json");
                reveal_strlit("launcher_logs");
                reveal_strlit("tlauncher");
                reveal_strlit("minecraft-launcher");
                reveal_strlit("HMCL");
                reveal_strlit("hmcl");
                reveal_strlit("PrismLauncher");
                reveal_strlit("prismlauncher");
                reveal_strlit("ATLauncher");
                reveal_strlit("atlauncher");
                reveal_strlit("MultiMC");
                reveal_strlit("multimc");
                reveal_strlit(".fabric");
                reveal_strlit(".quilt");
                reveal_strlit("modrinth");
                reveal_strlit("curseforge");
                reveal_strlit("Curse");
                reveal_strlit(" curseforge");
            }
            assert(m@ == foreign_markers()[k as int]);
            if contains_chars(&cs, &chars_of(m)) {
                return true;
            }
            k = k + 1;
        }
        false
    }

    /// The scan record of a manifest: its `id` (or `unknown`), its main
    /// class, the major Java version it asks for (kept to its low 32 bits)
    /// and whether it lists a client download.
    pub fn version_info(
        id: Option<String>,
        main_class: Option<String>,
        java_major: Option<u64>,
        has_client_jar: bool,
    ) -> (v: VersionInfo)
        ensures
            v.id@ == match id {
                Some(i) => i@,
                None => "unknown"@,
            },
            v.loader_type@ == "vanilla"@,
            v.main_class == main_class,
            v.java_version == match java_major {
                Some(m) => Some(m as u32),
                None => None,
            },
            v.has_client_jar == has_client_jar,
    {
        let id = match id {
            Some(i) => i,
            None => String::from_str("unknown"),
        };
        let jv: Option<u32> = match java_major {
            Some(m) => Some(#[verifier::truncate] (m as u32)),
            None => None,
        };
        proof {
            reveal_strlit("unknown");
            reveal_strlit("vanilla");
        }
        VersionInfo {
            id,
            loader_type: String::from_str("vanilla"),
            main_class,
            java_version: jv,
            has_client_jar,
        }
    }

    /// An empty scan record for a candidate directory.
    pub fn empty_result(path: String, exists: bool) -> (r: ScanResult)
        ensures
            r.path == path,
            r.exists == exists,
            r.loader_type@.len() == 0,
            r.versions@.len() == 0,
            r.library_count == 0,
            r.asset_indexes@.len() == 0,
            r.asset_object_count == 0,
            r.mods@.len() == 0,
            r.notes@.len() == 0,
    {
        ScanResult {
            path,
            exists,
            loader_type: String::new(),
            versions: Vec::new(),
            library_count: 0,
            asset_indexes: Vec::new(),
            asset_object_count: 0,
            mods: Vec::new(),
            notes: Vec::new(),
        }
    }

    /// Completes a scan record: a directory in which versions were found is
    /// marked `scanned`.
    pub fn finish_scan(result: &mut ScanResult)
        ensures
            final(result).versions@.len() > 0 ==> final(result).loader_type@ == "scanned"@,
            final(result).versions@.len() == 0 ==> final(result).loader_type == old(
                result,
            ).loader_type,
            final(result).versions == old(result).versions,
            final(result).path == old(result).path,
            final(result).exists == old(result).exists,
            final(result).library_count == old(result).library_count,
            final(result).asset_object_count == old(result).asset_object_count,
            final(result).asset_indexes == old(result).asset_indexes,
            final(result).mods == old(result).mods,
            final(result).notes == old(result).notes,
    {
        if result.versions.len() > 0 {
            result.loader_type = String::from_str("scanned");
            proof {
                reveal_strlit("scanned");
            }
        }
    }
}

impl Default for SystemScanner {
    fn default() -> (s: Self) {
        SystemScanner
    }
}

} // verus!
