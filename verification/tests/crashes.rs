use era_launcher::argus::state::DiagnosticHint;
use era_launcher::crashes::diagnose;

#[test]
fn test_diagnose_no_class_def() {
    let text = "java.lang.NoClassDefFoundError: com/somebody/mod/Client";
    let hints = diagnose(text);
    assert!(matches!(&hints[0], DiagnosticHint::MissingMod(s) if s == "com/somebody/mod/Client"));
}

#[test]
fn test_diagnose_out_of_memory() {
    let text = "java.lang.OutOfMemoryError: Java heap space";
    let hints = diagnose(text);
    assert!(hints.iter().any(|h| matches!(h, DiagnosticHint::InsufficientMemory)));
}

#[test]
fn test_diagnose_java_version_mismatch() {
    let text = "Unsupported class file major version 65";
    let hints = diagnose(text);
    assert!(matches!(&hints[0], DiagnosticHint::JavaVersion(s) if s == "65"));
}

#[test]
fn test_diagnose_mod_version_mismatch() {
    let text = "Could not init class net.fabricmc.loader.impl.launch.knot.KnotClient";
    let hints = diagnose(text);
    assert!(hints.iter().any(|h| matches!(h, DiagnosticHint::ModVersionMismatch { .. })));
}

#[test]
fn test_diagnose_unknown_falls_back() {
    let hints = diagnose("nothing recognizable here");
    assert!(matches!(hints[0], DiagnosticHint::Unknown));
}

#[test]
fn test_diagnosis_never_empty() {
    for text in ["", "\n\n", "random words", "OutOfMemoryError"] {
        assert!(!diagnose(text).is_empty());
    }
}

#[test]
fn test_hint_labels() {
    assert_eq!(DiagnosticHint::Unknown.label(), "Unknown crash");
    assert_eq!(
        DiagnosticHint::JavaVersion("65".to_string()).label(),
        "Java version mismatch \u{2014} got 65"
    );
}
