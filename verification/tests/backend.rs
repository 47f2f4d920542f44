use era_launcher::argus::backend::BackendBridge;
use era_launcher::argus::state::DiscoverTab;
use era_launcher::config::Config;
use era_launcher::instances::InstanceConfig;
use era_launcher::minecraft::manifest::{ArgValue, Arguments, AssetIndexRef, ManifestVersionInfo};
use era_launcher::minecraft::optimization::OptimizationProfile;
use era_launcher::modrinth::Version;
use era_launcher::paths::{join_path, path_file_name, sanitize_rel_path};

fn strings(items: &[&str]) -> Vec<String> {
    items.iter().map(|s| s.to_string()).collect()
}

#[test]
fn test_natives_keys_windows() {
    let keys = BackendBridge::natives_keys("windows", "x86_64");
    assert!(keys.iter().any(|k| k == "natives-windows-x86_64"));
    assert!(keys.iter().any(|k| k == "natives-windows"));
}

#[test]
fn test_natives_keys_linux() {
    let keys = BackendBridge::natives_keys("linux", "x86_64");
    assert!(keys.iter().any(|k| k == "natives-linux-x86_64"));
    assert!(keys.iter().any(|k| k == "natives-linux"));
}

#[test]
fn backend_test_resolve_library_path_with_classifier() {
    let path =
        BackendBridge::resolve_library_path("org.lwjgl:lwjgl-glfw:3.4.1:natives-windows", "/libs");
    assert!(path.contains("org/lwjgl"));
    assert!(path.contains("3.4.1"));
    assert!(path.ends_with(".jar"));
}

#[test]
fn test_resolve_library_path_without_classifier() {
    let path = BackendBridge::resolve_library_path("com.mojang:brigadier:1.0.18", "/libs");
    assert!(path.contains("com/mojang"));
    assert!(path.ends_with(".jar"));
}

#[test]
fn test_build_classpath_format() {
    let cp = BackendBridge::build_classpath("/client.jar", &strings(&["/lib1.jar", "/lib2.jar"]), false);
    assert!(cp.contains(":"));
    assert!(cp.contains("client.jar"));
    assert!(cp.contains("lib1.jar"));
    assert!(cp.contains("lib2.jar"));
}

#[test]
fn test_build_classpath_exact() {
    let cp = BackendBridge::build_classpath("/client.jar", &strings(&["/lib1.jar", "/lib2.jar"]), false);
    assert_eq!(cp, "/client.jar:/lib1.jar:/lib2.jar");
    assert_eq!(BackendBridge::build_classpath("/c.jar", &[], false), "/c.jar");
}

#[test]
fn test_fabric_loader_versions() {
    let versions = BackendBridge::get_fabric_loader_versions();
    assert_eq!(versions.first(), Some(&"0.19.3".to_string()));
    assert!(versions.iter().any(|v| v.starts_with("0.18.")));
}

#[test]
fn test_forge_versions() {
    let versions = BackendBridge::get_forge_versions();
    assert!(versions.iter().any(|v| v == "53.0.27"));
}

#[test]
fn test_minecraft_versions() {
    let versions = BackendBridge::get_minecraft_versions();
    assert!(versions.contains(&"26.2".to_string()));
    assert!(versions.contains(&"1.21.1".to_string()));
}

#[test]
fn test_instances_dir() {
    let bridge = BackendBridge::new(
        Config::default(),
        "/home/player/.local/share/era-launcher/instances".to_string(),
    );
    let dir = bridge.instances_dir();
    assert!(dir.contains("instances"));
}

#[test]
fn test_rules_apply_no_rules() {
    assert!(BackendBridge::library_applies(&None, "linux"));
}

#[test]
fn test_rules_apply_empty() {
    assert!(!BackendBridge::rules_apply(&[], &[], "linux"));
}

#[test]
fn backend_test_library_applies_no_rules() {
    assert!(BackendBridge::library_applies(&None, "windows"));
}

fn test_instance(id: &str, version: &str, loader: &str, memory: u32) -> InstanceConfig {
    InstanceConfig {
        id: id.to_string(),
        name: "Test".to_string(),
        game_version: version.to_string(),
        loader: loader.to_string(),
        loader_version: None,
        memory,
        java: None,
        game_dir: None,
        resolution_width: None,
        resolution_height: None,
        account_uuid: None,
        minecraft_dir: None,
        custom_jvm_args: Vec::new(),
    }
}

fn plain(items: &[&str]) -> Vec<ArgValue> {
    items.iter().map(|s| ArgValue::Plain(s.to_string())).collect()
}

fn test_manifest_fixture() -> ManifestVersionInfo {
    ManifestVersionInfo {
        id: "1.21.1".to_string(),
        version_type: "release".to_string(),
        main_class: Some("net.minecraft.client.main.Main".to_string()),
        arguments: Some(Arguments {
            game: plain(&[
                "--username",
                "${auth_player_name}",
                "--width",
                "${resolution_width}",
                "--height",
                "${resolution_height}",
            ]),
            jvm: plain(&[
                "-Djava.library.path=${natives_directory}",
                "-Djna.tmpdir=${natives_directory}",
                "-cp",
                "${classpath}",
            ]),
        }),
        asset_index: AssetIndexRef {
            id: "1.21.1".to_string(),
            url: "https://example.com/asset".to_string(),
            sha1: "abc".to_string(),
            size: 100,
        },
        libraries: Vec::new(),
        downloads: None,
    }
}

#[test]
fn test_game_args_are_separate_tokens() {
    let version_info = test_manifest_fixture();
    let instance = test_instance("test-launch", "1.21.1", "vanilla", 4096);
    let dir = "/tmp/era-test-launch-cmd";
    let classpath = "C:\\libs\\a.jar;C:\\client.jar";
    let (jvm, game, main_class) = BackendBridge::build_launch_command(
        &version_info,
        &instance,
        dir,
        classpath,
        OptimizationProfile::Mid,
        None,
        "linux",
    );
    for arg in &game {
        if arg.starts_with("--") {
            assert!(!arg.contains(' '), "game arg '{}' must be split", arg);
        }
    }
    let username_pos = game.iter().position(|a| a == "--username").unwrap();
    assert_eq!(game[username_pos + 1], "Steve");
    for arg in jvm.iter().chain(game.iter()) {
        assert!(!arg.contains("${"), "unresolved launch token '{}'", arg);
    }
    let cp_pos = jvm.iter().position(|a| a == "-cp").unwrap();
    assert_eq!(jvm[cp_pos + 1], classpath);
    let lib_path_arg = jvm
        .iter()
        .find(|a| a.starts_with("-Djava.library.path="))
        .expect("manifest supplies -Djava.library.path");
    assert!(!lib_path_arg.ends_with("${natives_directory}"));
    assert_eq!(main_class, "net.minecraft.client.main.Main");
    assert!(jvm.iter().any(|a| a.starts_with("-Xmx")));
}

#[test]
fn test_legacy_manifest_gets_fallback_args() {
    let version_info = ManifestVersionInfo {
        id: "1.12.2".to_string(),
        version_type: "release".to_string(),
        main_class: Some("net.minecraft.client.main.Main".to_string()),
        arguments: None,
        asset_index: AssetIndexRef {
            id: "1.12".to_string(),
            url: "https://example.com/asset".to_string(),
            sha1: "abc".to_string(),
            size: 100,
        },
        libraries: Vec::new(),
        downloads: None,
    };
    let instance = test_instance("legacy", "1.12.2", "vanilla", 2048);
    let (jvm, game, _) = BackendBridge::build_launch_command(
        &version_info,
        &instance,
        "/tmp/era-test-launch-legacy",
        "cp.jar",
        OptimizationProfile::Mid,
        None,
        "linux",
    );
    let cp_pos = jvm.iter().position(|a| a == "-cp").unwrap();
    assert_eq!(jvm[cp_pos + 1], "cp.jar");
    let u_pos = game.iter().position(|a| a == "--username").unwrap();
    assert_eq!(game[u_pos + 1], "Steve");
    assert!(game.chunks(2).all(|c| c.len() == 2));
    for arg in jvm.iter().chain(game.iter()) {
        assert!(!arg.contains("${"));
    }
}

#[test]
fn test_gamedir_is_instance_root() {
    let version_info = test_manifest_fixture();
    let dir = "/tmp/era-test-gamedir-root";
    let instance = test_instance("gamedir-test", "1.21.1", "fabric", 2048);
    let (_jvm, game, _) = BackendBridge::build_launch_command(
        &version_info,
        &instance,
        dir,
        "cp.jar",
        OptimizationProfile::Mid,
        None,
        "linux",
    );
    let gd_pos = game.iter().position(|a| a == "--gameDir").unwrap();
    assert_eq!(game[gd_pos + 1], dir);
}

#[test]
fn test_library_paths_are_windows_safe() {
    let libs_dir = "D:\\instances\\x\\libraries";
    for coord in [
        "com.google.guava:guava:32.1.2-jre",
        "com.google.code.gson:gson:2.10.1",
        "com.github.oshi:oshi-core:6.4.10",
        "org.lwjgl:lwjgl:3.3.3",
        "org.slf4j:slf4j-api:2.0.9",
    ] {
        let p = BackendBridge::resolve_library_path(coord, libs_dir);
        let file = path_file_name(&p).unwrap();
        assert!(!file.contains(':'), "'{}' produced illegal filename '{}'", coord, file);
        assert!(file.ends_with(".jar"));
        let parts: Vec<&str> = coord.split(':').collect();
        let expected = format!("{}-{}.jar", parts[1], parts[2]);
        assert_eq!(file, expected);
    }
    let nat = BackendBridge::resolve_classifier_path(
        "org.lwjgl:lwjgl-platform:3.3.3:natives-windows",
        libs_dir,
        "natives-windows-x86_64",
    );
    let nf = path_file_name(&nat).unwrap();
    assert!(!nf.contains(':'), "illegal natives filename '{}'", nf);
}

#[test]
fn test_maven_jar_path() {
    assert_eq!(
        BackendBridge::maven_jar_path("net.fabricmc:fabric-loader:0.16.14"),
        Some("net/fabricmc/fabric-loader/0.16.14/fabric-loader-0.16.14.jar".to_string())
    );
    assert_eq!(BackendBridge::maven_jar_path("bad-coord"), None);
}

fn modrinth_version_typed(
    id: &str,
    loaders: &[&str],
    game_versions: &[&str],
    version_type: &str,
) -> Version {
    Version {
        id: id.to_string(),
        name: id.to_string(),
        version_number: id.to_string(),
        version_type: version_type.to_string(),
        loaders: strings(loaders),
        game_versions: strings(game_versions),
        files: Vec::new(),
    }
}

fn modrinth_version(id: &str, loaders: &[&str], game_versions: &[&str]) -> Version {
    modrinth_version_typed(id, loaders, game_versions, "release")
}

#[test]
fn test_pick_prefers_release_over_alpha() {
    let versions = vec![
        modrinth_version_typed("v-alpha", &["fabric"], &["26.2"], "alpha"),
        modrinth_version_typed("v-release", &["fabric"], &["26.2"], "release"),
        modrinth_version_typed("v-beta", &["fabric"], &["26.2"], "beta"),
    ];
    let picked = BackendBridge::pick_compatible_version(&versions, Some("fabric"), "26.2")
        .unwrap_or_else(|e| panic!("{}", e));
    assert_eq!(picked.id, "v-release");
}

#[test]
fn test_title_matches_file() {
    assert!(BackendBridge::title_matches_file("Iris", "iris-fabric-1.11.3+mc26.1.2.jar"));
    assert!(BackendBridge::title_matches_file("Mod Menu", "modmenu-1.7.18.jar"));
    assert!(BackendBridge::title_matches_file(
        "Sodium Extra",
        "sodium-extra-fabric-0.9.3+mc26.2.jar"
    ));
    assert!(BackendBridge::title_matches_file(
        "ImmediatelyFast",
        "ImmediatelyFast-NeoForge-1.16.3+26.2.jar"
    ));
    assert!(BackendBridge::title_matches_file(
        "Sodium",
        "sodium-neoforge-0.8.14-beta.2+mc1.21.11.jar"
    ));
    assert!(!BackendBridge::title_matches_file("Sodium Extra", "sodium-neoforge-0.8.14.jar"));
    assert!(!BackendBridge::title_matches_file("Iris", "irish-flag-pack.zip"));
    assert!(!BackendBridge::title_matches_file("JEI", "sodium-fabric-0.6.0.jar"));
    assert!(BackendBridge::title_matches_file("AppleSkin", "appleskin.jar"));
}

#[test]
fn test_pick_compatible_version_filters_loader() {
    let versions = vec![
        modrinth_version("v-neo", &["neoforge"], &["1.21.1"]),
        modrinth_version("v-fab-old", &["fabric"], &["1.20.4"]),
        modrinth_version("v-fab-exact", &["fabric", "quilt"], &["1.21.1"]),
    ];
    let picked = BackendBridge::pick_compatible_version(&versions, Some("fabric"), "1.21.1")
        .unwrap_or_else(|e| panic!("{}", e));
    assert_eq!(picked.id, "v-fab-exact");
    let picked = BackendBridge::pick_compatible_version(&versions, Some("quilt"), "1.21.1")
        .unwrap_or_else(|e| panic!("{}", e));
    assert_eq!(picked.id, "v-fab-exact");
    let err = BackendBridge::pick_compatible_version(&versions, Some("forge"), "1.21.1");
    assert!(err.is_err());
    let picked = BackendBridge::pick_compatible_version(&versions, None, "26.2")
        .unwrap_or_else(|e| panic!("{}", e));
    assert_eq!(picked.id, "v-neo");
}

#[test]
fn test_asset_index_uses_official_layout() {
    assert_eq!(BackendBridge::asset_index_relative_path("17"), "indexes/17.json");
    assert_eq!(BackendBridge::asset_index_relative_path("1.21.1"), "indexes/1.21.1.json");
    let binding = BackendBridge::asset_index_relative_path("17");
    assert!(binding.starts_with("indexes/"));
    assert_ne!(BackendBridge::asset_index_relative_path("17"), "17.json".to_string());
}

#[test]
fn test_fetch_discover_maps_categories() {
    let tabs = DiscoverTab::all();
    assert_eq!(tabs.len(), 4);
    assert_eq!(tabs[0].label(), "Mods");
    assert_eq!(tabs[3].label(), "Resource Packs");
}

#[test]
fn test_fetch_discover_search_parameters() {
    let s = BackendBridge::fetch_discover(DiscoverTab::Shaders, "bsl", "1.21.1", None);
    assert_eq!(s.content_type, "shader");
    assert_eq!(s.query, "bsl");
    assert_eq!(s.game_version, "1.21.1");
    assert_eq!(s.loader, "");
    let m = BackendBridge::fetch_discover(DiscoverTab::Mods, "", "26.2", Some("fabric"));
    assert_eq!(m.content_type, "mod");
    assert_eq!(m.loader, "fabric");
    let r = BackendBridge::fetch_discover(DiscoverTab::ResourcePacks, "x", "1.20.1", None);
    assert_eq!(r.content_type, "resourcepack");
}

#[test]
fn test_sanitize_rel_path() {
    assert_eq!(sanitize_rel_path("mods/foo.jar"), Some("mods/foo.jar".to_string()));
    assert_eq!(sanitize_rel_path("..\\evil"), None);
    assert_eq!(sanitize_rel_path("/abs/path"), None);
    assert_eq!(sanitize_rel_path(""), None);
    assert_eq!(sanitize_rel_path("config/./sub/../x.txt"), None);
}

#[test]
fn test_filename_sanitization_components() {
    let dir = "D:\\instances\\test\\mods";
    for malicious in ["..\\..\\..\\evil.jar", "../../evil.dll", "..", "sub/dir/mod.jar"] {
        match path_file_name(malicious) {
            Some(name) => {
                let dest = join_path(dir, &name);
                assert!(dest.starts_with(dir), "'{}' escaped: {:?}", malicious, dest);
                assert!(!dest.contains(".."));
            }
            None => assert_eq!(malicious, ".."),
        }
    }
}

#[test]
fn test_extract_version_from_filename() {
    assert_eq!(
        BackendBridge::extract_version_from_filename("sodium-0.5.11.jar"),
        Some("0.5.11".to_string())
    );
    assert_eq!(
        BackendBridge::extract_version_from_filename(
            "fabric-language-kotlin-1.13.13+kotlin.2.4.10.jar"
        ),
        Some("1.13.13+kotlin.2.4.10".to_string())
    );
    assert_eq!(
        BackendBridge::extract_version_from_filename("modname-mc1.20.1-1.0.0.jar"),
        Some("1.0.0".to_string())
    );
    assert_eq!(
        BackendBridge::extract_version_from_filename("sodium-extra-fabric-0.9.3+mc26.2.jar"),
        Some("0.9.3+mc26.2".to_string())
    );
    assert_eq!(
        BackendBridge::extract_version_from_filename("ImmediatelyFast-NeoForge-1.16.3+26.2.jar"),
        Some("1.16.3+26.2".to_string())
    );
    assert_eq!(
        BackendBridge::extract_version_from_filename("no_version.jar"),
        Some("no_version".to_string())
    );
}

#[test]
fn test_compare_versions() {
    assert_eq!(BackendBridge::compare_versions("1.0.0", Some("0.9.3")), 1);
    assert_eq!(BackendBridge::compare_versions("0.9.3", Some("1.0.0")), -1);
    assert_eq!(BackendBridge::compare_versions("1.0.0", Some("1.0.0")), 0);
    assert_eq!(BackendBridge::compare_versions("1.2.3", None), 1);
    assert_eq!(BackendBridge::compare_versions("v1.16.14", Some("1.16.14")), 0);
    assert_eq!(BackendBridge::compare_versions("1.21.1", Some("1.20.1")), 1);
    assert_eq!(BackendBridge::compare_versions("1.20", Some("1.20.1")), -1);
}

#[test]
fn test_compare_versions_antisymmetric_example() {
    let a = BackendBridge::compare_versions("2.1.0", Some("2.0.9"));
    let b = BackendBridge::compare_versions("2.0.9", Some("2.1.0"));
    assert_eq!(a, -b);
}

#[test]
fn test_generate_instance_id_skips_taken() {
    assert_eq!(BackendBridge::generate_instance_id("fabric", &[]), "Fabric");
    let taken = strings(&["Fabric", "Fabric-2"]);
    assert_eq!(BackendBridge::generate_instance_id("FABRIC", &taken), "Fabric-3");
    assert_eq!(BackendBridge::generate_instance_id("neoforge", &[]), "Instance");
}
