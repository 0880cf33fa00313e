use application_server::codegen::{generate_stub_transformer, sha256_hex, structural_checks, verify_source, SourceVerdict};

#[test]
fn stub_transformer_passes_structural_checks() {
    let source = generate_stub_transformer("test");
    assert!(source.contains("fn transform"));
    assert!(source.contains("&str"));
    assert!(source.contains("-> "));
    assert!(!source.contains("unsafe"));
}

#[test]
fn sha256_is_deterministic() {
    let a = sha256_hex("hello world");
    let b = sha256_hex("hello world");
    assert_eq!(a, b);
    assert_ne!(a, sha256_hex("different"));
}

#[test]
fn sha256_hex_matches_known_digest() {
    assert_eq!(
        sha256_hex("hello world"),
        "b94d27b9934d3e08a52e52d7da7dabfac484efe37a5380ee9088f7ace2efcde9"
    );
    assert_eq!(
        sha256_hex(""),
        "e3b0c44298fc1c149afbf4c8996fb92427ae41e4649b934ca495991b7852b855"
    );
}

#[test]
fn stub_transformer_is_verified_as_passing() {
    let source = generate_stub_transformer("CSV row to JSON object transformer");
    let hash = sha256_hex(&source);
    match verify_source(&source, &hash) {
        SourceVerdict::Pass { checks_passed } => assert_eq!(checks_passed, 5),
        other => panic!("unexpected verdict {:?}", other),
    }
}

#[test]
fn tampered_source_is_a_hash_mismatch() {
    let source = generate_stub_transformer("x");
    let hash = sha256_hex("something else");
    match verify_source(&source, &hash) {
        SourceVerdict::HashMismatch { expected, actual } => {
            assert_eq!(expected, hash);
            assert_eq!(actual, sha256_hex(&source));
        }
        other => panic!("unexpected verdict {:?}", other),
    }
}

#[test]
fn unsafe_std_source_fails_its_checks_in_order() {
    let source = "use std::mem; unsafe fn other(x: u32) {}";
    let hash = sha256_hex(source);
    match verify_source(source, &hash) {
        SourceVerdict::StructuralFailure { failed } => {
            assert_eq!(
                failed,
                vec!["has-function", "has-input-type", "has-return-type", "no-unsafe", "no-std-compatible"]
            );
        }
        other => panic!("unexpected verdict {:?}", other),
    }
    let checks = structural_checks("fn transform(input: &[u8]) -> u8 { 0 } #![no_std] use std::x;");
    assert!(checks.iter().all(|c| c.passed));
}
