//! The build: which variants a configuration produces, and how a prebuilt
//! wasm-bindgen output is unpacked.
pub mod manifest;
pub mod targets;
pub mod wasm_bindgen;

use crate::config::BuildConfig;
use targets::WasmVariant;
use vstd::prelude::*;

verus! {

/// How the first phase of a build obtains the wasm-bindgen output.
#[derive(Clone, Copy, Debug, PartialEq, Eq, Structural)]
pub enum FirstPhase {
    /// Unpack the prebuilt output from the configured archive.
    ExtractPrebuilt,
    /// Build the wasm and run wasm-bindgen over it.
    BuildWasm,
}

/// The first phase of a build: unpack a prebuilt archive where one is
/// configured, else build.
pub fn first_phase(config: &BuildConfig) -> (r: FirstPhase)
    ensures
        (r == FirstPhase::ExtractPrebuilt) <==> (config.wasm_bindgen_tar is Some),
{
    if config.wasm_bindgen_tar.is_some() {
        FirstPhase::ExtractPrebuilt
    } else {
        FirstPhase::BuildWasm
    }
}

/// The variants of the wasm a build packages: the optimized one always, and
/// the debug one exactly when a debug profile is given.
pub fn available_variants(config: &BuildConfig) -> (r: Vec<WasmVariant>)
    ensures
        r@ == (if config.debug_profile is Some {
            seq![WasmVariant::Optimized, WasmVariant::Debug]
        } else {
            seq![WasmVariant::Optimized]
        }),
{
    if config.debug_profile.is_some() {
        WasmVariant::all()
    } else {
        let mut r = Vec::new();
        r.push(WasmVariant::Optimized);
        assert(r@ =~= seq![WasmVariant::Optimized]);
        r
    }
}

/// The arguments of `tar` that unpack the gzipped archive `tarball` into
/// `dest`.
pub fn tar_extract_args(tarball: &str, dest: &str) -> (r: Vec<String>)
    ensures
        r.deep_view() == seq!["-xzf"@, tarball@, "-C"@, dest@],
{
    let mut r: Vec<String> = Vec::new();
    r.push("-xzf".to_owned());
    r.push(tarball.to_owned());
    r.push("-C".to_owned());
    r.push(dest.to_owned());
    assert(r.deep_view() =~= seq!["-xzf"@, tarball@, "-C"@, dest@]);
    r
}

} // verus!
