//! The configuration of a build.
use std::path::PathBuf;
use vstd::prelude::*;

verus! {

#[verifier::external_type_specification]
#[verifier::external_body]
pub struct ExPathBuf(PathBuf);

/// Configuration for the build command
#[derive(Debug)]
pub struct BuildConfig {
    pub crate_path: PathBuf,
    pub package_json: PathBuf,
    pub out_dir: PathBuf,
    pub release_profile: String,
    pub debug_profile: Option<String>,
    pub wasm_bindgen_tar: Option<PathBuf>,
    pub wasm_opt: bool,
}

} // verus!
