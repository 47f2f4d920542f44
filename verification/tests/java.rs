use era_launcher::minecraft::java::{JavaManager, JavaProbe, JavaVersion};

#[test]
fn test_required_for_minecraft_1_8() {
    assert_eq!(JavaManager::required_for_minecraft("1.8.9"), 8);
}

#[test]
fn test_required_for_minecraft_1_16() {
    assert_eq!(JavaManager::required_for_minecraft("1.16.2"), 8);
}

#[test]
fn test_required_for_minecraft_1_17() {
    assert_eq!(JavaManager::required_for_minecraft("1.17.1"), 17);
}

#[test]
fn test_required_for_minecraft_1_20() {
    assert_eq!(JavaManager::required_for_minecraft("1.20.1"), 21);
}

#[test]
fn test_required_for_minecraft_1_21() {
    assert_eq!(JavaManager::required_for_minecraft("1.21.1"), 21);
}

#[test]
fn test_required_for_minecraft_1_12() {
    assert_eq!(JavaManager::required_for_minecraft("1.12.2"), 8);
}

#[test]
fn test_required_for_invalid_version() {
    assert_eq!(JavaManager::required_for_minecraft("invalid"), 8);
}

#[test]
fn test_required_for_empty_version() {
    assert_eq!(JavaManager::required_for_minecraft(""), 8);
}

#[test]
fn test_required_for_minecraft_24_year() {
    assert_eq!(JavaManager::required_for_minecraft("24.0"), 21);
}

#[test]
fn test_required_for_minecraft_25_year() {
    assert_eq!(JavaManager::required_for_minecraft("25.1"), 25);
}

#[test]
fn test_required_for_minecraft_26_year() {
    assert_eq!(JavaManager::required_for_minecraft("26.2"), 25);
}

#[test]
fn test_required_for_minecraft_26_year_no_patch() {
    assert_eq!(JavaManager::required_for_minecraft("26"), 25);
}

#[test]
fn test_parse_output_java_8() {
    let output =
        "openjdk version \"1.8.0_331\"\nOpenJDK Runtime Environment (build 1.8.0_331-b09)\n";
    let result = JavaVersion::parse_output("/usr/bin/java", output);
    assert!(result.is_some());
    let v = result.unwrap();
    assert_eq!(v.major, 8);
}

#[test]
fn test_parse_output_java_17() {
    let output =
        "openjdk version \"17.0.2\" 2022-01-18\nOpenJDK Runtime Environment (build 17.0.2+8)\n";
    let result = JavaVersion::parse_output("/usr/bin/java", output);
    assert!(result.is_some());
    let v = result.unwrap();
    assert_eq!(v.major, 17);
}

#[test]
fn test_parse_output_java_21() {
    let output =
        "openjdk version \"21.0.2\" 2023-10-17\nOpenJDK Runtime Environment (build 21.0.2+7)\n";
    let result = JavaVersion::parse_output("/usr/bin/java", output);
    assert!(result.is_some());
    let v = result.unwrap();
    assert_eq!(v.major, 21);
    assert_eq!(v.path, "/usr/bin/java");
}

#[test]
fn test_parse_output_invalid() {
    let output = "some random text without version";
    let result = JavaVersion::parse_output("/usr/bin/java", output);
    assert!(result.is_none());
}

#[test]
fn test_parse_output_empty() {
    let result = JavaVersion::parse_output("/usr/bin/java", "");
    assert!(result.is_none());
}

fn probe(path: &str, output: Option<&str>) -> JavaProbe {
    JavaProbe { path: path.to_string(), output: output.map(|s| s.to_string()) }
}

#[test]
fn test_find_compatible_prefers_newest() {
    let probes = vec![
        probe("/a/java", Some("openjdk version \"17.0.2\" 2022-01-18\n")),
        probe("/b/java", None),
        probe("/c/java", Some("openjdk version \"21.0.2\" 2023-10-17\n")),
        probe("/d/java", Some("openjdk version \"1.8.0_331\"\n")),
    ];
    let all = JavaManager::detect_all(&probes);
    assert_eq!(all.len(), 3);
    assert_eq!(all[1].path, "/c/java");
    let best = JavaManager::find_compatible(&probes, 17).unwrap();
    assert_eq!(best.path, "/c/java");
    assert!(JavaManager::find_compatible(&probes, 25).is_none());
    assert_eq!(JavaManager::detect_compatible(&probes).len(), 2);
}

#[test]
fn outdated_runtimes_are_those_below_the_minimum() {
    let probe = |out: Option<&str>| JavaProbe { path: "/r/bin/java".to_string(), output: out.map(|s| s.to_string()) };
    let runtimes = vec![
        ("/r/jre8".to_string(), probe(Some("java version \"1.8.0_392\"\n"))),
        ("/r/jre21".to_string(), probe(Some("openjdk version \"21.0.2\" 2024-01-16\n"))),
        ("/r/broken".to_string(), probe(None)),
    ];
    assert_eq!(JavaManager::outdated_runtimes(&runtimes, 17), vec!["/r/jre8".to_string()]);
    assert!(JavaManager::outdated_runtimes(&runtimes, 8).is_empty());
}
