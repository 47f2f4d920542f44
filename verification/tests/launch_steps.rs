use era_launcher::argus::loader_meta::{
    keep_loader_dir, loader_meta_base, loader_meta_url, loader_plan, LoaderMeta, MetaLibrary,
};
use era_launcher::launch_steps::{
    check_client_jar, check_loader_classpath, choose_java, java_from_setting, launch_argv,
    loader_stage, provisioned_java, required_major, unresolved_args, JavaChoice, LoaderStage,
};
use era_launcher::minecraft::java::JavaProbe;

fn strings(items: &[&str]) -> Vec<String> {
    items.iter().map(|s| s.to_string()).collect()
}

#[test]
fn test_java_choice() {
    assert_eq!(java_from_setting("/opt/jdk", true, false), "/opt/jdk/bin/java");
    assert_eq!(java_from_setting("C:/jdk", true, true), "C:/jdk/bin/java.exe");
    assert_eq!(java_from_setting("/usr/bin/java", false, false), "/usr/bin/java");
    assert_eq!(required_major(Some(17), "1.21.1"), 17);
    assert_eq!(required_major(None, "1.21.1"), 21);
    let probes = vec![JavaProbe {
        path: "/usr/bin/java".to_string(),
        output: Some("openjdk version \"21.0.2\" 2023-10-17\n".to_string()),
    }];
    assert!(matches!(choose_java(None, false, 21, &probes), JavaChoice::Detected(p) if p == "/usr/bin/java"));
    assert!(matches!(choose_java(None, false, 25, &probes), JavaChoice::Provision(25)));
    assert!(matches!(
        choose_java(Some(("/opt/jdk".to_string(), true)), false, 25, &probes),
        JavaChoice::Configured(p) if p == "/opt/jdk/bin/java"
    ));
}

#[test]
fn test_provisioned_java() {
    assert_eq!(provisioned_java(Ok(Some("/j".to_string()))), Ok("/j".to_string()));
    assert_eq!(
        provisioned_java(Ok(None)),
        Err("Java installation completed but runtime not found".to_string())
    );
    assert_eq!(provisioned_java(Err("offline".to_string())), Err("Java install failed: offline".to_string()));
}

#[test]
fn test_loader_stages() {
    assert!(matches!(loader_stage("fabric"), LoaderStage::Meta(u) if u == "https://meta.fabricmc.net/v2"));
    assert!(matches!(loader_stage("quilt"), LoaderStage::Meta(u) if u == "https://meta.quiltmc.org/v3"));
    assert!(matches!(loader_stage("forge"), LoaderStage::Unsupported(m) if m.starts_with("Forge is not supported")));
    assert!(matches!(loader_stage("vanilla"), LoaderStage::Vanilla));
    assert_eq!(loader_meta_base("fabric"), Some("https://meta.fabricmc.net/v2"));
    assert_eq!(loader_meta_base("vanilla"), None);
}

#[test]
fn test_launch_checks() {
    assert!(check_loader_classpath("fabric", "/l/fabric-loader-0.19.3.jar:/c.jar").is_ok());
    assert_eq!(
        check_loader_classpath("quilt", "/c.jar"),
        Err("quilt loader jar missing from classpath \u{2014} install failed silently".to_string())
    );
    assert!(check_loader_classpath("vanilla", "/c.jar").is_ok());
    assert!(check_client_jar("", false).is_ok());
    assert!(check_client_jar("abc", true).is_ok());
    assert!(check_client_jar("abc", false).is_err());
}

#[test]
fn test_launch_argv_and_tokens() {
    let jvm = strings(&["-Xmx4G", "-cp", "a.jar"]);
    let game = strings(&["--username", "Steve"]);
    assert_eq!(
        launch_argv(&jvm, "net.minecraft.client.main.Main", &game),
        strings(&["-Xmx4G", "-cp", "a.jar", "net.minecraft.client.main.Main", "--username", "Steve"])
    );
    assert_eq!(unresolved_args(&strings(&["a", "${x}", "b${y}c"])), strings(&["${x}", "b${y}c"]));
}

#[test]
fn test_loader_plan_fabric() {
    assert_eq!(
        loader_meta_url("https://meta.fabricmc.net/v2/", "1.21.1"),
        "https://meta.fabricmc.net/v2/versions/loader/1.21.1"
    );
    let meta = LoaderMeta {
        main_class: None,
        libraries: vec![
            MetaLibrary { name: "org.ow2.asm:asm:9.7".to_string(), url: None },
            MetaLibrary { name: "bad".to_string(), url: None },
            MetaLibrary {
                name: "org.ow2.asm:asm:9.7".to_string(),
                url: Some("https://repo.example/".to_string()),
            },
        ],
        loader_version: Some("0.19.3".to_string()),
        loader_maven: None,
        intermediary_maven: None,
    };
    let plan = loader_plan("https://meta.fabricmc.net/v2", "1.21.1", "/libs", &meta);
    assert_eq!(plan.main_class, "net.fabricmc.loader.impl.launch.knot.KnotClient");
    assert_eq!(plan.fetches.len(), 4);
    assert_eq!(plan.fetches[0].url, "https://maven.fabricmc.net/org/ow2/asm/asm/9.7/asm-9.7.jar");
    assert_eq!(plan.fetches[1].url, "https://repo.example/org/ow2/asm/asm/9.7/asm-9.7.jar");
    assert_eq!(plan.fetches[2].name, "net.fabricmc:fabric-loader:0.19.3");
    assert_eq!(plan.fetches[3].name, "net.fabricmc:intermediary:1.21.1");
    assert_eq!(plan.classpath.len(), 3);
    assert_eq!(plan.classpath[0], "/libs/org/ow2/asm/asm/9.7/asm-9.7.jar");
    assert_eq!(plan.purge_dir, "net/fabricmc/fabric-loader");
    assert_eq!(plan.keep_marker, "fabric-loader-0.19.3");
    assert!(keep_loader_dir("0.19.3", &plan.keep_marker));
    assert!(!keep_loader_dir("0.16.14", &plan.keep_marker));
}

#[test]
fn test_loader_plan_quilt_defaults() {
    let meta = LoaderMeta {
        main_class: Some("org.quiltmc.loader.impl.launch.knot.KnotClient".to_string()),
        libraries: Vec::new(),
        loader_version: None,
        loader_maven: None,
        intermediary_maven: None,
    };
    let plan = loader_plan("https://meta.quiltmc.org/v3", "1.20.1", "/libs", &meta);
    assert_eq!(plan.main_class, "org.quiltmc.loader.impl.launch.knot.KnotClient");
    assert_eq!(plan.fetches[0].name, "org.quiltmc:quilt-loader:0.28.5");
    assert!(plan.fetches[0].url.starts_with("https://maven.quiltmc.org/repository/release/"));
    assert_eq!(plan.fetches[1].name, "org.quiltmc:hashed:1.20.1");
    assert_eq!(plan.keep_marker, "quilt-loader-0.28.5");
}
