use era_launcher::launch::LaunchEngine;
use era_launcher::minecraft::manifest::Rule;

fn engine() -> LaunchEngine {
    match LaunchEngine::new() {
        Ok(e) => e,
        Err(_) => panic!("engine refused"),
    }
}

#[test]
fn test_resolve_library_path_standard() {
    let path = engine().resolve_library_path("com.mojang:brigadier:1.0.18", "/tmp/libs");
    assert_eq!(path, "/tmp/libs/com/mojang/brigadier/1.0.18/brigadier-1.0.18.jar");
}

#[test]
fn test_resolve_library_path_nested_group() {
    let path = engine().resolve_library_path("org.jetbrains:annotations:1.190.0", "/tmp/libs");
    assert_eq!(path, "/tmp/libs/org/jetbrains/annotations/1.190.0/annotations-1.190.0.jar");
}

#[test]
fn launch_test_resolve_library_path_with_classifier() {
    let path = engine()
        .resolve_library_path("org.lwjgl:lwjgl-freetype:3.4.1:natives-windows", "/tmp/libs");
    assert_eq!(
        path,
        "/tmp/libs/org/lwjgl/lwjgl-freetype/3.4.1/lwjgl-freetype-3.4.1-natives-windows.jar"
    );
}

#[test]
fn test_resolve_classifier_path_windows() {
    let path = engine().resolve_classifier_path(
        "net.minecraftforge:lwjgl:2.9.0",
        "/tmp/libs",
        "natives-windows-x86_64",
    );
    assert_eq!(
        path,
        "/tmp/libs/net/minecraftforge/lwjgl/2.9.0/lwjgl-2.9.0-natives-windows-x86_64.jar"
    );
}

#[test]
fn test_resolve_library_path_fallback() {
    let path = engine().resolve_library_path("invalid-name", "/tmp/libs");
    assert_eq!(path, "/tmp/libs/invalid-name.jar");
}

#[test]
fn launch_test_library_applies_no_rules() {
    assert!(engine().library_applies(&None, "linux"));
}

#[test]
fn test_library_applies_empty_rules() {
    assert!(!engine().library_applies(&Some(Vec::new()), "linux"));
}

#[test]
fn test_library_applies_always_allowed() {
    let rules = vec![Rule { action: "allow".to_string(), os_name: None, features: Vec::new() }];
    assert!(engine().library_applies(&Some(rules), "linux"));
}

#[test]
fn test_library_applies_os_rule() {
    let rules = vec![
        Rule { action: "allow".to_string(), os_name: None, features: Vec::new() },
        Rule { action: "disallow".to_string(), os_name: Some("osx".to_string()), features: Vec::new() },
    ];
    assert!(engine().library_applies(&Some(rules.clone_rules()), "linux"));
    assert!(!engine().library_applies(&Some(rules), "osx"));
}

trait CloneRules {
    fn clone_rules(&self) -> Vec<Rule>;
}

impl CloneRules for Vec<Rule> {
    fn clone_rules(&self) -> Vec<Rule> {
        self.iter()
            .map(|r| Rule {
                action: r.action.clone(),
                os_name: r.os_name.clone(),
                features: r.features.clone(),
            })
            .collect()
    }
}

#[test]
fn test_natives_keys_and_classpath() {
    let e = engine();
    let keys = e.get_natives_keys("linux", "x86_64");
    assert!(keys.iter().any(|k| k == "natives-linux"));
}
