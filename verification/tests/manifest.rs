use wasm_bodge::build::manifest::{
    crate_name_from_manifest, crate_name_from_member, package_name_from_json,
    package_name_from_member, strip_scope_of, target_dir_from_member, target_dir_from_metadata,
    ManifestError, Member, TargetDir,
};

#[test]
fn crate_name_read_from_package_table() {
    let toml = "[package]\nname = \"test-wasm-lib\"\nversion = \"0.1.0\"\n\n[lib]\ncrate-type = [\"cdylib\"]\n";
    match crate_name_from_manifest(toml) {
        Some(Ok(name)) => assert_eq!(name, "test-wasm-lib"),
        other => panic!("unexpected: {:?}", other),
    }
}

#[test]
fn crate_name_of_invalid_toml_is_a_parse_error() {
    assert!(matches!(
        crate_name_from_manifest("[package\nname ="),
        Some(Err(ManifestError::CargoToml(_)))
    ));
}

#[test]
fn crate_name_that_is_not_a_string() {
    assert!(matches!(
        crate_name_from_manifest("[package]\nname = 5\n"),
        Some(Err(ManifestError::NoPackageName))
    ));
}

#[test]
fn crate_name_absent_is_reported_as_none() {
    assert!(crate_name_from_manifest("[workspace]\nmembers = [\"a\"]\n").is_none());
    assert!(crate_name_from_manifest("[package]\nversion = \"1.0.0\"\n").is_none());
    assert!(crate_name_from_manifest("package = 3\n").is_none());
}

#[test]
fn crate_name_from_member_cases() {
    assert_eq!(
        crate_name_from_member(Member::Text("abc".to_string())).unwrap(),
        "abc"
    );
    assert!(matches!(
        crate_name_from_member(Member::NotText),
        Err(ManifestError::NoPackageName)
    ));
}

#[test]
fn package_name_from_template() {
    assert_eq!(
        package_name_from_json("{\"name\": \"test-wasm-lib\", \"version\": \"0.1.0\"}", "ignored")
            .unwrap(),
        "test-wasm-lib"
    );
}

#[test]
fn package_name_loses_its_scope() {
    assert_eq!(
        package_name_from_json("{\"name\": \"@scope/wasm-bodge-test-scoped\"}", "x").unwrap(),
        "wasm-bodge-test-scoped"
    );
    assert_eq!(
        package_name_from_json("{\"name\": \"@a/b/c\"}", "x").unwrap(),
        "b/c"
    );
}

#[test]
fn package_name_falls_back_to_crate_name() {
    assert_eq!(package_name_from_json("{}", "test_wasm_lib").unwrap(), "test-wasm-lib");
    assert_eq!(
        package_name_from_json("{\"name\": 7}", "my_crate_name").unwrap(),
        "my-crate-name"
    );
    assert_eq!(package_name_from_json("[1, 2]", "a_b").unwrap(), "a-b");
}

#[test]
fn package_name_of_invalid_json_is_a_parse_error() {
    assert!(matches!(
        package_name_from_json("{\"name\": ", "x"),
        Err(ManifestError::PackageJson(_))
    ));
}

#[test]
fn package_name_from_member_cases() {
    assert_eq!(package_name_from_member(&Member::Absent, "a_b_c"), "a-b-c");
    assert_eq!(package_name_from_member(&Member::NotText, "x_y"), "x-y");
    assert_eq!(
        package_name_from_member(&Member::Text("@org/pkg".to_string()), "zz"),
        "pkg"
    );
}

#[test]
fn strip_scope_cases() {
    assert_eq!(strip_scope_of("@scope/name"), "name");
    assert_eq!(strip_scope_of("name"), "name");
    assert_eq!(strip_scope_of("/lead"), "lead");
    assert_eq!(strip_scope_of("trail/"), "");
    assert_eq!(strip_scope_of(""), "");
}

#[test]
fn target_dir_when_metadata_fails() {
    assert!(matches!(
        target_dir_from_metadata(false, b"not json"),
        Ok(TargetDir::CrateLocal)
    ));
}

#[test]
fn target_dir_reported_by_metadata() {
    let out = br#"{"packages":[],"target_directory":"/work/target","version":1}"#;
    match target_dir_from_metadata(true, out) {
        Ok(TargetDir::Reported(d)) => assert_eq!(d, "/work/target"),
        other => panic!("unexpected: {:?}", other),
    }
}

#[test]
fn target_dir_missing_from_metadata() {
    assert!(matches!(
        target_dir_from_metadata(true, br#"{"version":1}"#),
        Ok(TargetDir::CrateLocal)
    ));
    assert!(matches!(
        target_dir_from_metadata(true, br#"{"target_directory":null}"#),
        Ok(TargetDir::CrateLocal)
    ));
}

#[test]
fn target_dir_of_invalid_metadata_is_a_parse_error() {
    assert!(matches!(
        target_dir_from_metadata(true, b"{oops"),
        Err(ManifestError::Metadata(_))
    ));
}

#[test]
fn target_dir_from_member_cases() {
    assert!(matches!(target_dir_from_member(&Member::Absent), TargetDir::CrateLocal));
    match target_dir_from_member(&Member::Text("t".to_string())) {
        TargetDir::Reported(d) => assert_eq!(d, "t"),
        other => panic!("unexpected: {:?}", other),
    }
}
