use std::path::PathBuf;

use wasm_bodge::build::{available_variants, first_phase, FirstPhase};
use wasm_bodge::build::tar_extract_args;
use wasm_bodge::build::targets::{WasmBindgenTarget, WasmVariant};
use wasm_bodge::build::wasm_bindgen::{
    bindgen_args, bindgen_dir_name, build_failed_error, build_plan, debug_build_failed_error,
    missing_profile_error, cargo_build_args, cargo_build_debug_profile_args,
    cargo_metadata_args, profile_dir_name, wasm_artifact_path, wasm_opt_args, BuildStep,
};
use wasm_bodge::config::BuildConfig;

fn config(debug_profile: Option<&str>) -> BuildConfig {
    BuildConfig {
        crate_path: PathBuf::from("."),
        package_json: PathBuf::from("./package.json"),
        out_dir: PathBuf::from("./dist"),
        release_profile: "release".to_string(),
        debug_profile: debug_profile.map(|s| s.to_string()),
        wasm_bindgen_tar: None,
        wasm_opt: true,
    }
}

#[test]
fn profile_dir_name_maps_builtin_profiles() {
    assert_eq!(profile_dir_name("dev"), "debug");
    assert_eq!(profile_dir_name("test"), "debug");
    assert_eq!(profile_dir_name("release"), "release");
    assert_eq!(profile_dir_name("bench"), "release");
}

#[test]
fn profile_dir_name_keeps_custom_profiles() {
    assert_eq!(profile_dir_name("wasm-debug"), "wasm-debug");
    assert_eq!(profile_dir_name("my-weird-debug"), "my-weird-debug");
    assert_eq!(profile_dir_name("debug"), "debug");
    assert_eq!(profile_dir_name(""), "");
    assert_eq!(profile_dir_name("Release"), "Release");
}

#[test]
fn profile_dir_name_is_idempotent() {
    for p in ["dev", "test", "release", "bench", "wasm-debug", "debug"] {
        let once = profile_dir_name(p);
        assert_eq!(profile_dir_name(once), once);
    }
}

#[test]
fn wasm_artifact_path_of_debug_profile() {
    assert_eq!(
        wasm_artifact_path("test-wasm-lib", "wasm-debug"),
        vec!["wasm32-unknown-unknown", "wasm-debug", "test_wasm_lib.wasm"]
    );
    assert_eq!(
        wasm_artifact_path("test-wasm-lib", "my-weird-debug"),
        vec!["wasm32-unknown-unknown", "my-weird-debug", "test_wasm_lib.wasm"]
    );
}

#[test]
fn wasm_artifact_path_of_builtin_profiles() {
    assert_eq!(
        wasm_artifact_path("my-rust-crate", "release"),
        vec!["wasm32-unknown-unknown", "release", "my_rust_crate.wasm"]
    );
    assert_eq!(
        wasm_artifact_path("a-b_c", "dev"),
        vec!["wasm32-unknown-unknown", "debug", "a_b_c.wasm"]
    );
}

#[test]
fn cargo_build_args_for_release() {
    assert_eq!(
        cargo_build_args("release", "/c/Cargo.toml"),
        vec![
            "build",
            "--target",
            "wasm32-unknown-unknown",
            "--release",
            "--manifest-path",
            "/c/Cargo.toml"
        ]
    );
}

#[test]
fn cargo_build_args_for_custom_profile() {
    assert_eq!(
        cargo_build_args("wasm-debug", "Cargo.toml"),
        vec![
            "build",
            "--target",
            "wasm32-unknown-unknown",
            "--profile=wasm-debug",
            "--manifest-path",
            "Cargo.toml"
        ]
    );
    assert_eq!(cargo_build_args("dev", "M")[3], "--profile=dev");
}

#[test]
fn cargo_build_debug_profile_args_name_the_profile() {
    assert_eq!(
        cargo_build_debug_profile_args("release", "Cargo.toml"),
        vec![
            "build",
            "--target",
            "wasm32-unknown-unknown",
            "--profile=release",
            "--manifest-path",
            "Cargo.toml"
        ]
    );
}

#[test]
fn wasm_opt_args_optimize_in_place() {
    assert_eq!(
        wasm_opt_args("x.wasm"),
        vec!["-O4", "--all-features", "-o", "x.wasm", "x.wasm"]
    );
}

#[test]
fn cargo_metadata_args_for_manifest() {
    assert_eq!(
        cargo_metadata_args("c/Cargo.toml"),
        vec!["metadata", "--format-version=1", "--no-deps", "--manifest-path", "c/Cargo.toml"]
    );
}

#[test]
fn tar_extract_args_for_archive() {
    assert_eq!(
        tar_extract_args("out.tgz", "dist/wasm_bindgen"),
        vec!["-xzf", "out.tgz", "-C", "dist/wasm_bindgen"]
    );
}

#[test]
fn bindgen_dir_names() {
    assert_eq!(bindgen_dir_name(WasmBindgenTarget::Web, WasmVariant::Optimized), "web");
    assert_eq!(bindgen_dir_name(WasmBindgenTarget::Web, WasmVariant::Debug), "web-debug");
    assert_eq!(bindgen_dir_name(WasmBindgenTarget::Nodejs, WasmVariant::Optimized), "nodejs");
    assert_eq!(
        bindgen_dir_name(WasmBindgenTarget::Bundler, WasmVariant::Debug),
        "bundler-debug"
    );
}

#[test]
fn bindgen_dir_names_are_distinct() {
    let mut seen = Vec::new();
    for t in WasmBindgenTarget::all() {
        for v in WasmVariant::all() {
            let d = bindgen_dir_name(t, v);
            assert!(!seen.contains(&d));
            seen.push(d);
        }
    }
    assert_eq!(seen.len(), 6);
}

#[test]
fn bindgen_args_for_optimized_and_debug() {
    assert_eq!(
        bindgen_args("a.wasm", "out/web", WasmBindgenTarget::Web, WasmVariant::Optimized),
        vec!["a.wasm", "--out-dir", "out/web", "--target", "web", "--weak-refs"]
    );
    assert_eq!(
        bindgen_args("d.wasm", "out/bundler-debug", WasmBindgenTarget::Bundler, WasmVariant::Debug),
        vec![
            "d.wasm",
            "--out-dir",
            "out/bundler-debug",
            "--target",
            "bundler",
            "--weak-refs",
            "--keep-debug"
        ]
    );
}

#[test]
fn build_plan_release_only() {
    assert_eq!(
        build_plan("release", None, true),
        vec![
            BuildStep::Compile(WasmVariant::Optimized),
            BuildStep::Optimize,
            BuildStep::CreateOutputDir,
            BuildStep::Bindgen(WasmBindgenTarget::Nodejs, WasmVariant::Optimized),
            BuildStep::Bindgen(WasmBindgenTarget::Web, WasmVariant::Optimized),
            BuildStep::Bindgen(WasmBindgenTarget::Bundler, WasmVariant::Optimized),
        ]
    );
    assert_eq!(
        build_plan("release", None, false),
        vec![
            BuildStep::Compile(WasmVariant::Optimized),
            BuildStep::CreateOutputDir,
            BuildStep::Bindgen(WasmBindgenTarget::Nodejs, WasmVariant::Optimized),
            BuildStep::Bindgen(WasmBindgenTarget::Web, WasmVariant::Optimized),
            BuildStep::Bindgen(WasmBindgenTarget::Bundler, WasmVariant::Optimized),
        ]
    );
}

#[test]
fn build_plan_with_debug_profile() {
    assert_eq!(
        build_plan("release", Some("wasm-debug"), true),
        vec![
            BuildStep::Compile(WasmVariant::Optimized),
            BuildStep::Compile(WasmVariant::Debug),
            BuildStep::Optimize,
            BuildStep::CreateOutputDir,
            BuildStep::Bindgen(WasmBindgenTarget::Nodejs, WasmVariant::Optimized),
            BuildStep::Bindgen(WasmBindgenTarget::Web, WasmVariant::Optimized),
            BuildStep::Bindgen(WasmBindgenTarget::Bundler, WasmVariant::Optimized),
            BuildStep::Bindgen(WasmBindgenTarget::Web, WasmVariant::Debug),
            BuildStep::Bindgen(WasmBindgenTarget::Bundler, WasmVariant::Debug),
        ]
    );
}

#[test]
fn build_plan_compiles_before_binding() {
    for debug in [None, Some("d"), Some("release"), Some("bench")] {
        for opt in [false, true] {
            let plan = build_plan("release", debug, opt);
            for (i, step) in plan.iter().enumerate() {
                if let BuildStep::Bindgen(_, v) = step {
                    assert!(plan[..i].contains(&BuildStep::Compile(*v)));
                }
                if let BuildStep::Bindgen(t, WasmVariant::Debug) = step {
                    assert_ne!(*t, WasmBindgenTarget::Nodejs);
                }
            }
        }
    }
}

#[test]
fn available_variants_follow_debug_profile() {
    assert_eq!(available_variants(&config(None)), vec![WasmVariant::Optimized]);
    assert_eq!(
        available_variants(&config(Some("wasm-debug"))),
        vec![WasmVariant::Optimized, WasmVariant::Debug]
    );
}

#[test]
fn targets_and_variants() {
    assert_eq!(
        WasmBindgenTarget::all(),
        vec![WasmBindgenTarget::Nodejs, WasmBindgenTarget::Web, WasmBindgenTarget::Bundler]
    );
    assert_eq!(WasmBindgenTarget::Nodejs.as_str(), "nodejs");
    assert_eq!(WasmBindgenTarget::Bundler.dir_name(), "bundler");
    assert_eq!(WasmVariant::Debug.dir_suffix(), "-debug");
    assert_eq!(WasmVariant::Optimized.dir_suffix(), "");
    assert!(WasmVariant::Debug.is_debug());
    assert!(!WasmVariant::Optimized.is_debug());
}

#[test]
fn build_plan_binds_shared_debug_wasm_before_wasm_opt() {
    // `--debug-profile release` leaves the debug wasm in the release wasm's
    // file: it is bound before wasm-opt rewrites that file.
    let expected = vec![
        BuildStep::Compile(WasmVariant::Optimized),
        BuildStep::Compile(WasmVariant::Debug),
        BuildStep::CreateOutputDir,
        BuildStep::Bindgen(WasmBindgenTarget::Web, WasmVariant::Debug),
        BuildStep::Bindgen(WasmBindgenTarget::Bundler, WasmVariant::Debug),
        BuildStep::Optimize,
        BuildStep::Bindgen(WasmBindgenTarget::Nodejs, WasmVariant::Optimized),
        BuildStep::Bindgen(WasmBindgenTarget::Web, WasmVariant::Optimized),
        BuildStep::Bindgen(WasmBindgenTarget::Bundler, WasmVariant::Optimized),
    ];
    assert_eq!(build_plan("release", Some("release"), true), expected);
    // `bench` builds into the same `release` directory.
    assert_eq!(build_plan("release", Some("bench"), true), expected);
    assert_eq!(build_plan("dev", Some("test"), true), expected);
}

#[test]
fn build_plan_never_optimizes_before_shared_debug_bindings() {
    for (release, debug) in [("release", "release"), ("release", "bench"), ("custom", "custom")] {
        let plan = build_plan(release, Some(debug), true);
        let opt = plan.iter().position(|s| *s == BuildStep::Optimize).unwrap();
        for (j, step) in plan.iter().enumerate() {
            if let BuildStep::Bindgen(_, WasmVariant::Debug) = step {
                assert!(j < opt);
            }
        }
    }
}

#[test]
fn build_failed_error_text() {
    assert_eq!(
        build_failed_error("wasm-debug"),
        "cargo build failed for profile `wasm-debug`"
    );
}

fn snippet_error(profile: &str) -> String {
    format!(
        "--debug-profile {profile} requires a [profile.{profile}] section \
         in your Cargo.toml (or in the workspace root's Cargo.toml if this \
         crate is a workspace member -- cargo reads [profile.*] only from \
         the workspace root).\n\n\
         Recommended snippet:\n\n    \
         [profile.{profile}]\n    \
         inherits = \"dev\"\n    \
         debug = \"full\"\n    \
         opt-level = 0\n    \
         strip = \"none\"\n\n\
         Or pass --debug-profile <other-name> to use a profile you already have."
    )
}

#[test]
fn missing_profile_error_text() {
    assert_eq!(missing_profile_error("wasm-debug"), snippet_error("wasm-debug"));
    assert_eq!(missing_profile_error("x"), snippet_error("x"));
}

#[test]
fn debug_build_failed_error_chooses_the_snippet() {
    assert_eq!(
        debug_build_failed_error(b"error: profile `wasm-debug` is not defined\n", "wasm-debug"),
        snippet_error("wasm-debug")
    );
    assert_eq!(
        debug_build_failed_error(b"error: could not compile `x`\n", "wasm-debug"),
        "cargo build failed for profile `wasm-debug`"
    );
}

#[test]
fn first_phase_follows_prebuilt_archive() {
    let mut c = config(None);
    assert_eq!(first_phase(&c), FirstPhase::BuildWasm);
    c.wasm_bindgen_tar = Some(PathBuf::from("prebuilt.tgz"));
    assert_eq!(first_phase(&c), FirstPhase::ExtractPrebuilt);
}
