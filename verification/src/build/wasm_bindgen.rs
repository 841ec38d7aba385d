//! Building the wasm and running wasm-bindgen over it: the order of the
//! steps, the arguments of cargo, wasm-opt and wasm-bindgen, where cargo
//! leaves the wasm, and how a failed debug build is read.
use super::targets::{target_name, variant_suffix, WasmBindgenTarget, WasmVariant};
use crate::text::{
    chars_of, concat_strs, contains, contains_seq, has_prefix, lines, lines_of, replace_char,
    replace_char_in, starts_with, str_eq, strip_cr,
};
use vstd::prelude::*;
use vstd::string::StringExecFns;
use vstd::utf8::{decode_utf8, valid_utf8};

verus! {

// ---------------------------------------------------------------------------
// Cargo profiles and the wasm they produce
// ---------------------------------------------------------------------------

/// The directory cargo writes a profile's output to: `dev` and `test` go to
/// `debug`, `release` and `bench` to `release`, and a custom profile to a
/// directory of its own name.
pub open spec fn spec_profile_dir_name(profile: Seq<char>) -> Seq<char> {
    if profile == "dev"@ || profile == "test"@ {
        "debug"@
    } else if profile == "release"@ || profile == "bench"@ {
        "release"@
    } else {
        profile
    }
}

/// The target triple the wasm is built for.
pub open spec fn wasm_triple() -> Seq<char> {
    "wasm32-unknown-unknown"@
}

/// The name of the wasm file cargo produces for a crate: the crate's name
/// with `-` turned into `_`, and the extension `.wasm`.
pub open spec fn wasm_file_name(crate_name: Seq<char>) -> Seq<char> {
    replace_char(crate_name, '-', '_') + ".wasm"@
}

/// The path of the wasm of crate `crate_name` built under `profile`, as
/// components below the cargo target directory.
pub open spec fn spec_wasm_artifact_path(crate_name: Seq<char>, profile: Seq<char>) -> Seq<
    Seq<char>,
> {
    seq![wasm_triple(), spec_profile_dir_name(profile), wasm_file_name(crate_name)]
}

/// Cargo maps `dev`/`test` to `debug/` and `bench` to `release/`;
/// custom profiles use their own name.
pub fn profile_dir_name(profile: &str) -> (r: &str)
    ensures
        r@ == spec_profile_dir_name(profile@),
{
    if str_eq(profile, "dev") || str_eq(profile, "test") {
        "debug"
    } else if str_eq(profile, "release") || str_eq(profile, "bench") {
        "release"
    } else {
        profile
    }
}

/// Where cargo leaves the wasm of crate `crate_name` built under `profile`:
/// the path components below the cargo target directory.
pub fn wasm_artifact_path(crate_name: &str, profile: &str) -> (r: Vec<String>)
    ensures
        r.deep_view() == spec_wasm_artifact_path(crate_name@, profile@),
{
    let wasm_name = replace_char_in(crate_name, '-', '_');
    let file_name = concat_strs(wasm_name.as_str(), ".wasm");
    let mut r: Vec<String> = Vec::new();
    r.push("wasm32-unknown-unknown".to_owned());
    r.push(profile_dir_name(profile).to_owned());
    r.push(file_name);
    assert(r.deep_view() =~= seq![
        wasm_triple(),
        spec_profile_dir_name(profile@),
        wasm_file_name(crate_name@),
    ]);
    r
}

// ---------------------------------------------------------------------------
// The order of the build
// ---------------------------------------------------------------------------

/// One step of building the wasm and its bindings.
#[derive(Clone, Copy, Debug, PartialEq, Eq, Structural)]
pub enum BuildStep {
    /// Run `cargo build` under the variant's profile and locate the wasm it
    /// produced.
    Compile(WasmVariant),
    /// Run wasm-opt, in place, on the optimized wasm.
    Optimize,
    /// Create the output directory.
    CreateOutputDir,
    /// Run wasm-bindgen for one target on the variant's wasm.
    Bindgen(WasmBindgenTarget, WasmVariant),
}

/// wasm-opt, if asked for, run on the optimized wasm.
pub open spec fn optimize_steps(wasm_opt: bool) -> Seq<BuildStep> {
    if wasm_opt {
        seq![BuildStep::Optimize]
    } else {
        seq![]
    }
}

/// wasm-bindgen run on the optimized wasm, for every target.
pub open spec fn optimized_bindings() -> Seq<BuildStep> {
    seq![
        BuildStep::Bindgen(WasmBindgenTarget::Nodejs, WasmVariant::Optimized),
        BuildStep::Bindgen(WasmBindgenTarget::Web, WasmVariant::Optimized),
        BuildStep::Bindgen(WasmBindgenTarget::Bundler, WasmVariant::Optimized),
    ]
}

/// wasm-bindgen run on the debug wasm, for the web and bundler targets.
pub open spec fn debug_bindings() -> Seq<BuildStep> {
    seq![
        BuildStep::Bindgen(WasmBindgenTarget::Web, WasmVariant::Debug),
        BuildStep::Bindgen(WasmBindgenTarget::Bundler, WasmVariant::Debug),
    ]
}

/// The steps of a build: compile the release profile, then the debug
/// profile if there is one; optimize the release wasm if asked; create the
/// output directory; bind the release wasm for every target; and bind the
/// debug wasm, if there is one, for the web and bundler targets.
///
/// wasm-opt rewrites the release wasm in place, and never touches the debug
/// wasm. So where the debug profile leaves its wasm in the same file as the
/// release profile (`same_wasm`), the debug wasm is bound first, before
/// wasm-opt runs.
pub open spec fn spec_build_plan(debug_build: bool, same_wasm: bool, wasm_opt: bool) -> Seq<
    BuildStep,
> {
    seq![BuildStep::Compile(WasmVariant::Optimized)] + (if debug_build {
        seq![BuildStep::Compile(WasmVariant::Debug)]
    } else {
        seq![]
    }) + (if debug_build && same_wasm {
        seq![BuildStep::CreateOutputDir] + debug_bindings() + optimize_steps(wasm_opt)
            + optimized_bindings()
    } else {
        optimize_steps(wasm_opt) + seq![BuildStep::CreateOutputDir] + optimized_bindings() + (
        if debug_build {
            debug_bindings()
        } else {
            seq![]
        })
    })
}

/// The profiles `release` and `debug` leave their wasm in the same file:
/// cargo writes them to the same directory.
pub open spec fn shares_wasm(release: Seq<char>, debug: Seq<char>) -> bool {
    spec_profile_dir_name(debug) == spec_profile_dir_name(release)
}

/// Appends wasm-bindgen on the optimized wasm for every target.
fn push_optimized_bindings(r: &mut Vec<BuildStep>)
    ensures
        final(r)@ == old(r)@ + optimized_bindings(),
{
    let targets = WasmBindgenTarget::all();
    let mut i: usize = 0;
    let ghost prefix = r@;
    while i < targets.len()
        invariant
            i <= targets.len(),
            targets@ == seq![
                WasmBindgenTarget::Nodejs,
                WasmBindgenTarget::Web,
                WasmBindgenTarget::Bundler,
            ],
            r@ == prefix + targets@.take(i as int).map_values(
                |t: WasmBindgenTarget| BuildStep::Bindgen(t, WasmVariant::Optimized),
            ),
        decreases targets.len() - i,
    {
        r.push(BuildStep::Bindgen(targets[i], WasmVariant::Optimized));
        assert(targets@.take(i + 1) =~= targets@.take(i as int).push(targets@[i as int]));
        assert(r@ =~= prefix + targets@.take(i + 1).map_values(
            |t: WasmBindgenTarget| BuildStep::Bindgen(t, WasmVariant::Optimized),
        ));
        i = i + 1;
    }
    assert(targets@.take(3) =~= targets@);
    assert(r@ =~= prefix + optimized_bindings());
}

/// The steps that build the wasm and run wasm-bindgen for all targets. When
/// `debug_profile` is `Some(name)`, a second wasm is built under that profile
/// and bound for the web and bundler targets; where it is the same file as
/// the release wasm, it is bound before wasm-opt rewrites that file.
pub fn build_plan(release_profile: &str, debug_profile: Option<&str>, wasm_opt: bool) -> (r: Vec<
    BuildStep,
>)
    ensures
        r@ == spec_build_plan(
            debug_profile is Some,
            debug_profile matches Some(d) && shares_wasm(release_profile@, d@),
            wasm_opt,
        ),
{
    let debug_build = debug_profile.is_some();
    let same_wasm = match debug_profile {
        Some(d) => str_eq(profile_dir_name(d), profile_dir_name(release_profile)),
        None => false,
    };
    let mut r: Vec<BuildStep> = Vec::new();
    r.push(BuildStep::Compile(WasmVariant::Optimized));
    if debug_build {
        r.push(BuildStep::Compile(WasmVariant::Debug));
    }
    if same_wasm {
        r.push(BuildStep::CreateOutputDir);
        r.push(BuildStep::Bindgen(WasmBindgenTarget::Web, WasmVariant::Debug));
        r.push(BuildStep::Bindgen(WasmBindgenTarget::Bundler, WasmVariant::Debug));
        if wasm_opt {
            r.push(BuildStep::Optimize);
        }
        push_optimized_bindings(&mut r);
    } else {
        if wasm_opt {
            r.push(BuildStep::Optimize);
        }
        r.push(BuildStep::CreateOutputDir);
        push_optimized_bindings(&mut r);
        if debug_build {
            r.push(BuildStep::Bindgen(WasmBindgenTarget::Web, WasmVariant::Debug));
            r.push(BuildStep::Bindgen(WasmBindgenTarget::Bundler, WasmVariant::Debug));
        }
    }
    assert(r@ =~= spec_build_plan(debug_build, same_wasm, wasm_opt));
    r
}

// ---------------------------------------------------------------------------
// Arguments of the external tools
// ---------------------------------------------------------------------------

/// The profile flag of `cargo build`: `--release` for the `release` profile,
/// `--profile=<name>` for any other.
pub open spec fn cargo_profile_flag(profile: Seq<char>) -> Seq<char> {
    if profile == "release"@ {
        "--release"@
    } else {
        "--profile="@ + profile
    }
}

/// The arguments of `cargo build` for the wasm target under `profile`.
pub fn cargo_build_args(profile: &str, manifest_path: &str) -> (r: Vec<String>)
    ensures
        r.deep_view() == seq![
            "build"@,
            "--target"@,
            wasm_triple(),
            cargo_profile_flag(profile@),
            "--manifest-path"@,
            manifest_path@,
        ],
{
    let profile_arg = if str_eq(profile, "release") {
        "--release".to_owned()
    } else {
        concat_strs("--profile=", profile)
    };
    let mut r: Vec<String> = Vec::new();
    r.push("build".to_owned());
    r.push("--target".to_owned());
    r.push("wasm32-unknown-unknown".to_owned());
    r.push(profile_arg);
    r.push("--manifest-path".to_owned());
    r.push(manifest_path.to_owned());
    assert(r.deep_view() =~= seq![
        "build"@,
        "--target"@,
        wasm_triple(),
        cargo_profile_flag(profile@),
        "--manifest-path"@,
        manifest_path@,
    ]);
    r
}

/// The arguments of `cargo build` for the debug variant: the profile is
/// always named with `--profile=`, so that cargo reports a profile that is
/// not declared.
pub fn cargo_build_debug_profile_args(profile: &str, manifest_path: &str) -> (r: Vec<String>)
    ensures
        r.deep_view() == seq![
            "build"@,
            "--target"@,
            wasm_triple(),
            "--profile="@ + profile@,
            "--manifest-path"@,
            manifest_path@,
        ],
{
    let mut r: Vec<String> = Vec::new();
    r.push("build".to_owned());
    r.push("--target".to_owned());
    r.push("wasm32-unknown-unknown".to_owned());
    r.push(concat_strs("--profile=", profile));
    r.push("--manifest-path".to_owned());
    r.push(manifest_path.to_owned());
    assert(r.deep_view() =~= seq![
        "build"@,
        "--target"@,
        wasm_triple(),
        "--profile="@ + profile@,
        "--manifest-path"@,
        manifest_path@,
    ]);
    r
}

/// The arguments of `wasm-opt` that optimize `wasm_path` in place.
pub fn wasm_opt_args(wasm_path: &str) -> (r: Vec<String>)
    ensures
        r.deep_view() == seq!["-O4"@, "--all-features"@, "-o"@, wasm_path@, wasm_path@],
{
    let mut r: Vec<String> = Vec::new();
    r.push("-O4".to_owned());
    r.push("--all-features".to_owned());
    r.push("-o".to_owned());
    r.push(wasm_path.to_owned());
    r.push(wasm_path.to_owned());
    assert(r.deep_view() =~= seq!["-O4"@, "--all-features"@, "-o"@, wasm_path@, wasm_path@]);
    r
}

/// The name of the directory that holds the bindings of one target and
/// variant.
pub open spec fn spec_bindgen_dir_name(target: WasmBindgenTarget, variant: WasmVariant) -> Seq<
    char,
> {
    target_name(target) + variant_suffix(variant)
}

/// The name of the directory, below the output directory, that holds the
/// bindings wasm-bindgen produces for `target` from the `variant` wasm.
pub fn bindgen_dir_name(target: WasmBindgenTarget, variant: WasmVariant) -> (r: String)
    ensures
        r@ == spec_bindgen_dir_name(target, variant),
{
    concat_strs(target.dir_name(), variant.dir_suffix())
}

/// The arguments of `wasm-bindgen`, for the wasm at `wasm_file`, writing to
/// `out_dir`. The debug variant keeps its debug information.
pub fn bindgen_args(
    wasm_file: &str,
    out_dir: &str,
    target: WasmBindgenTarget,
    variant: WasmVariant,
) -> (r: Vec<String>)
    ensures
        r.deep_view() == seq![
            wasm_file@,
            "--out-dir"@,
            out_dir@,
            "--target"@,
            target_name(target),
            "--weak-refs"@,
        ] + (if variant == WasmVariant::Debug {
            seq!["--keep-debug"@]
        } else {
            seq![]
        }),
{
    let mut r: Vec<String> = Vec::new();
    r.push(wasm_file.to_owned());
    r.push("--out-dir".to_owned());
    r.push(out_dir.to_owned());
    r.push("--target".to_owned());
    r.push(target.as_str().to_owned());
    r.push("--weak-refs".to_owned());
    if variant.is_debug() {
        r.push("--keep-debug".to_owned());
    }
    assert(r.deep_view() =~= seq![
        wasm_file@,
        "--out-dir"@,
        out_dir@,
        "--target"@,
        target_name(target),
        "--weak-refs"@,
    ] + (if variant == WasmVariant::Debug {
        seq!["--keep-debug"@]
    } else {
        seq![]
    }));
    r
}

/// The arguments of `cargo metadata` that report the target directory of
/// the crate whose manifest is `manifest_path`.
pub fn cargo_metadata_args(manifest_path: &str) -> (r: Vec<String>)
    ensures
        r.deep_view() == seq![
            "metadata"@,
            "--format-version=1"@,
            "--no-deps"@,
            "--manifest-path"@,
            manifest_path@,
        ],
{
    let mut r: Vec<String> = Vec::new();
    r.push("metadata".to_owned());
    r.push("--format-version=1".to_owned());
    r.push("--no-deps".to_owned());
    r.push("--manifest-path".to_owned());
    r.push(manifest_path.to_owned());
    assert(r.deep_view() =~= seq![
        "metadata"@,
        "--format-version=1"@,
        "--no-deps"@,
        "--manifest-path"@,
        manifest_path@,
    ]);
    r
}

// ---------------------------------------------------------------------------
// Reading a failed debug build
// ---------------------------------------------------------------------------

/// What cargo says of a profile that no manifest declares.
pub open spec fn missing_profile_message(profile: Seq<char>) -> Seq<char> {
    "profile `"@ + profile + "` is not defined"@
}

/// Cargo's error output reports that `profile` is not declared: some line
/// starts with `error:` and holds the message that says so. Other lines
/// that echo the message (from a build script, say) do not count.
pub open spec fn reports_missing_profile(stderr: Seq<char>, profile: Seq<char>) -> bool {
    exists|k: int|
        0 <= k < lines(stderr).len() && has_prefix(lines(stderr)[k], "error:"@) && contains_seq(
            #[trigger] lines(stderr)[k],
            missing_profile_message(profile),
        )
}

/// The text that `String::from_utf8_lossy` decodes from `bytes`.
pub uninterp spec fn utf8_lossy(bytes: Seq<u8>) -> Seq<char>;

/// Decodes bytes as UTF-8, each invalid sequence becoming U+FFFD.
///
/// Trusted: calls `String::from_utf8_lossy`. Its result is named
/// `utf8_lossy`; of it is stated only what std documents plainly, that
/// valid UTF-8 is decoded as it is.
#[verifier::external_body]
fn decode_lossy(bytes: &[u8]) -> (r: String)
    ensures
        r@ == utf8_lossy(bytes@),
        valid_utf8(bytes@) ==> r@ == decode_utf8(bytes@),
{
    String::from_utf8_lossy(bytes).into_owned()
}

/// Whether the text of cargo's error output reports that `profile` is not
/// declared.
pub fn reports_missing_profile_in(stderr: &str, profile: &str) -> (r: bool)
    ensures
        r == reports_missing_profile(stderr@, profile@),
{
    let text = chars_of(stderr);
    let ls = lines_of(text.as_slice());
    let message = concat_strs(&concat_strs("profile `", profile), "` is not defined");
    let needle = chars_of(message.as_str());
    let prefix = chars_of("error:");
    let ghost all = lines(stderr@);
    let mut k: usize = 0;
    while k < ls.len()
        invariant
            k <= ls.len(),
            ls.deep_view() == all,
            all == lines(stderr@),
            needle@ == missing_profile_message(profile@),
            prefix@ == "error:"@,
            forall|j: int|
                0 <= j < k ==> !(has_prefix(all[j], "error:"@) && contains_seq(
                    all[j],
                    missing_profile_message(profile@),
                )),
        decreases ls.len() - k,
    {
        let line = &ls[k];
        assert(line@ =~= all[k as int]);
        if starts_with(line.as_slice(), prefix.as_slice()) && contains(
            line.as_slice(),
            needle.as_slice(),
        ) {
            return true;
        }
        k = k + 1;
    }
    false
}

/// Whether cargo's error output, as bytes, reports that `profile` is not
/// declared. The bytes are decoded as `String::from_utf8_lossy` decodes
/// them.
pub fn debug_profile_missing(stderr: &[u8], profile: &str) -> (r: bool)
    ensures
        r == reports_missing_profile(utf8_lossy(stderr@), profile@),
        valid_utf8(stderr@) ==> r == reports_missing_profile(decode_utf8(stderr@), profile@),
{
    let text = decode_lossy(stderr);
    reports_missing_profile_in(text.as_str(), profile)
}


// ---------------------------------------------------------------------------
// The errors of a failed build
// ---------------------------------------------------------------------------

/// The error of a `cargo build` that failed under `profile`.
pub open spec fn spec_build_failed_error(profile: Seq<char>) -> Seq<char> {
    "cargo build failed for profile `"@ + profile + "`"@
}

/// The error of a debug build whose profile no manifest declares: it says
/// where to declare the profile and gives a snippet that declares it.
pub open spec fn spec_missing_profile_error(profile: Seq<char>) -> Seq<char> {
    "--debug-profile "@ + profile + " requires a [profile."@ + profile + "] section in your Cargo.toml (or in the workspace root's Cargo.toml if this crate is a workspace member -- cargo reads [profile.*] only from the workspace root).\n\nRecommended snippet:\n\n    [profile."@ + profile
        + "]\n    inherits = \"dev\"\n    debug = \"full\"\n    opt-level = 0\n    strip = \"none\"\n\nOr pass --debug-profile <other-name> to use a profile you already have."@
}

/// The error of a `cargo build` that failed under `profile`.
pub fn build_failed_error(profile: &str) -> (r: String)
    ensures
        r@ == spec_build_failed_error(profile@),
{
    concat_strs(&concat_strs("cargo build failed for profile `", profile), "`")
}

/// The error of a debug build whose profile `profile` no manifest declares.
pub fn missing_profile_error(profile: &str) -> (r: String)
    ensures
        r@ == spec_missing_profile_error(profile@),
{
    let mut r = concat_strs("--debug-profile ", profile);
    r.append(" requires a [profile.");
    r.append(profile);
    r.append("] section in your Cargo.toml (or in the workspace root's Cargo.toml if this crate is a workspace member -- cargo reads [profile.*] only from the workspace root).\n\nRecommended snippet:\n\n    [profile.");
    r.append(profile);
    r.append("]\n    inherits = \"dev\"\n    debug = \"full\"\n    opt-level = 0\n    strip = \"none\"\n\nOr pass --debug-profile <other-name> to use a profile you already have.");
    r
}

/// The error of a failed debug build, from cargo's error output: the
/// snippet where cargo reports the profile is not declared, else the
/// plain failure.
pub fn debug_build_failed_error(stderr: &[u8], profile: &str) -> (r: String)
    ensures
        r@ == (if reports_missing_profile(utf8_lossy(stderr@), profile@) {
            spec_missing_profile_error(profile@)
        } else {
            spec_build_failed_error(profile@)
        }),
{
    if debug_profile_missing(stderr, profile) {
        missing_profile_error(profile)
    } else {
        build_failed_error(profile)
    }
}
} // verus!

verus! {

// ---------------------------------------------------------------------------
// Laws
// ---------------------------------------------------------------------------

/// Naming a profile's output directory twice changes nothing: `debug` and
/// `release` are directories of their own name.
pub proof fn law_profile_dir_name_idempotent(profile: Seq<char>)
    ensures
        spec_profile_dir_name(spec_profile_dir_name(profile)) == spec_profile_dir_name(profile),
{
    reveal_strlit("dev");
    reveal_strlit("test");
    reveal_strlit("release");
    reveal_strlit("bench");
    reveal_strlit("debug");
    assert("debug"@ != "dev"@) by {
        assert("debug"@.len() != "dev"@.len());
    }
    assert("debug"@ != "test"@) by {
        assert("debug"@.len() != "test"@.len());
    }
    assert("debug"@ != "release"@) by {
        assert("debug"@.len() != "release"@.len());
    }
    assert("debug"@ != "bench"@) by {
        assert("debug"@[0] != "bench"@[0]);
    }
    assert("release"@ != "dev"@) by {
        assert("release"@.len() != "dev"@.len());
    }
    assert("release"@ != "test"@) by {
        assert("release"@.len() != "test"@.len());
    }
}

/// The name of the wasm file never holds a `-`.
pub proof fn law_wasm_file_name_has_no_hyphen(crate_name: Seq<char>)
    ensures
        forall|i: int|
            0 <= i < wasm_file_name(crate_name).len() ==> wasm_file_name(crate_name)[i] != '-',
{
    reveal_strlit(".wasm");
    let stem = replace_char(crate_name, '-', '_');
    assert forall|i: int| 0 <= i < wasm_file_name(crate_name).len() implies wasm_file_name(
        crate_name,
    )[i] != '-' by {
        if i < stem.len() {
            assert(wasm_file_name(crate_name)[i] == stem[i]);
        } else {
            assert(wasm_file_name(crate_name)[i] == ".wasm"@[i - stem.len()]);
        }
    }
}

/// Distinct targets and variants write their bindings to distinct
/// directories.
pub proof fn law_bindgen_dirs_distinct(
    t1: WasmBindgenTarget,
    v1: WasmVariant,
    t2: WasmBindgenTarget,
    v2: WasmVariant,
)
    ensures
        spec_bindgen_dir_name(t1, v1) == spec_bindgen_dir_name(t2, v2) ==> t1 == t2 && v1 == v2,
{
    reveal_strlit("nodejs");
    reveal_strlit("web");
    reveal_strlit("bundler");
    reveal_strlit("");
    reveal_strlit("-debug");
    let a = spec_bindgen_dir_name(t1, v1);
    let b = spec_bindgen_dir_name(t2, v2);
    if a == b {
        assert(a.len() == b.len());
        assert(a[0] == b[0]);
        if t1 != t2 {
            // The first letters of the targets differ.
            assert(a[0] == target_name(t1)[0]);
            assert(b[0] == target_name(t2)[0]);
        }
        if v1 != v2 {
            assert(target_name(t1).len() == target_name(t2).len());
        }
    }
}

/// A build only binds a variant's wasm after compiling it.
pub proof fn law_plan_compiles_before_binding(debug_build: bool, same_wasm: bool, wasm_opt: bool)
    ensures
        ({
            let plan = spec_build_plan(debug_build, same_wasm, wasm_opt);
            forall|i: int, t: WasmBindgenTarget, v: WasmVariant|
                0 <= i < plan.len() && plan[i] == BuildStep::Bindgen(t, v) ==> exists|j: int|
                    0 <= j < i && plan[j] == BuildStep::Compile(v)
        }),
{
    let plan = spec_build_plan(debug_build, same_wasm, wasm_opt);
    assert(plan[0] == BuildStep::Compile(WasmVariant::Optimized));
    assert(debug_build ==> plan[1] == BuildStep::Compile(WasmVariant::Debug));
    assert forall|i: int, t: WasmBindgenTarget, v: WasmVariant|
        0 <= i < plan.len() && plan[i] == BuildStep::Bindgen(t, v) implies exists|j: int|
        0 <= j < i && plan[j] == BuildStep::Compile(v) by {
        if v == WasmVariant::Debug {
            assert(debug_build);
            assert(plan[1] == BuildStep::Compile(v));
        } else {
            assert(plan[0] == BuildStep::Compile(v));
        }
    }
}

/// wasm-opt runs exactly when it is asked for, once, and only on the
/// optimized wasm: after compiling it and before any of its bindings.
pub proof fn law_plan_optimizes_release_only(debug_build: bool, same_wasm: bool, wasm_opt: bool)
    ensures
        ({
            let plan = spec_build_plan(debug_build, same_wasm, wasm_opt);
            &&& (exists|i: int| 0 <= i < plan.len() && plan[i] == BuildStep::Optimize)
                <==> wasm_opt
            &&& forall|i: int, j: int|
                0 <= i < plan.len() && 0 <= j < plan.len() && plan[i] == BuildStep::Optimize
                    && plan[j] == BuildStep::Optimize ==> i == j
            &&& forall|i: int, j: int, t: WasmBindgenTarget|
                0 <= i < plan.len() && 0 <= j < plan.len() && plan[i] == BuildStep::Optimize
                    && plan[j] == BuildStep::Bindgen(t, WasmVariant::Optimized) ==> 0 < i < j
        }),
{
    let plan = spec_build_plan(debug_build, same_wasm, wasm_opt);
    let k: int = if debug_build && same_wasm {
        5
    } else if debug_build {
        2
    } else {
        1
    };
    if wasm_opt {
        assert(plan[k] == BuildStep::Optimize);
    }
    assert forall|i: int| 0 <= i < plan.len() && plan[i] == BuildStep::Optimize implies i == k
        && wasm_opt by {}
}

/// wasm-opt never rewrites the wasm the debug bindings are made from: a
/// debug binding comes after wasm-opt only where the debug wasm is a file
/// of its own.
pub proof fn law_debug_bindings_read_unoptimized_wasm(
    debug_build: bool,
    same_wasm: bool,
    wasm_opt: bool,
)
    ensures
        ({
            let plan = spec_build_plan(debug_build, same_wasm, wasm_opt);
            forall|i: int, j: int, t: WasmBindgenTarget|
                0 <= i < j < plan.len() && plan[i] == BuildStep::Optimize && plan[j]
                    == BuildStep::Bindgen(t, WasmVariant::Debug) ==> !same_wasm
        }),
{
    let plan = spec_build_plan(debug_build, same_wasm, wasm_opt);
    if debug_build && same_wasm {
        assert forall|i: int, j: int, t: WasmBindgenTarget|
            0 <= i < j < plan.len() && plan[i] == BuildStep::Optimize implies plan[j]
            != BuildStep::Bindgen(t, WasmVariant::Debug) by {
            assert(i == 5);
        }
    }
}

/// Two profiles leave their wasm in the same file exactly when they share
/// an output directory.
pub proof fn law_shared_wasm_iff_same_directory(
    crate_name: Seq<char>,
    release: Seq<char>,
    debug: Seq<char>,
)
    ensures
        (spec_wasm_artifact_path(crate_name, debug) == spec_wasm_artifact_path(
            crate_name,
            release,
        )) <==> shares_wasm(release, debug),
{
    if spec_wasm_artifact_path(crate_name, debug) == spec_wasm_artifact_path(crate_name, release) {
        assert(spec_wasm_artifact_path(crate_name, debug)[1] == spec_wasm_artifact_path(
            crate_name,
            release,
        )[1]);
    }
}

/// The debug wasm is compiled exactly when a debug profile is given, and is
/// bound for the web and bundler targets only.
pub proof fn law_plan_debug_only_with_profile(debug_build: bool, same_wasm: bool, wasm_opt: bool)
    ensures
        ({
            let plan = spec_build_plan(debug_build, same_wasm, wasm_opt);
            &&& (exists|i: int|
                0 <= i < plan.len() && plan[i] == BuildStep::Compile(WasmVariant::Debug))
                <==> debug_build
            &&& forall|i: int, t: WasmBindgenTarget|
                0 <= i < plan.len() && plan[i] == BuildStep::Bindgen(t, WasmVariant::Debug)
                    ==> debug_build && t != WasmBindgenTarget::Nodejs
        }),
{
    let plan = spec_build_plan(debug_build, same_wasm, wasm_opt);
    if debug_build {
        assert(plan[1] == BuildStep::Compile(WasmVariant::Debug));
    }
}

/// Every target gets the bindings of the optimized wasm.
pub proof fn law_plan_binds_every_target(
    debug_build: bool,
    same_wasm: bool,
    wasm_opt: bool,
    t: WasmBindgenTarget,
)
    ensures
        ({
            let plan = spec_build_plan(debug_build, same_wasm, wasm_opt);
            exists|i: int|
                0 <= i < plan.len() && plan[i] == BuildStep::Bindgen(t, WasmVariant::Optimized)
        }),
{
    let plan = spec_build_plan(debug_build, same_wasm, wasm_opt);
    let o: int = if wasm_opt { 1 } else { 0 };
    let k: int = if debug_build && same_wasm {
        5 + o
    } else if debug_build {
        3 + o
    } else {
        2 + o
    };
    match t {
        WasmBindgenTarget::Nodejs => assert(plan[k] == BuildStep::Bindgen(t, WasmVariant::Optimized)),
        WasmBindgenTarget::Web => assert(plan[k + 1] == BuildStep::Bindgen(t, WasmVariant::Optimized)),
        WasmBindgenTarget::Bundler => assert(plan[k + 2] == BuildStep::Bindgen(t, WasmVariant::Optimized)),
    }
}

/// Whenever a debug profile is given, the debug wasm is bound for both the
/// web and the bundler target, whether or not wasm-opt runs and wherever
/// the debug wasm lies.
pub proof fn law_plan_binds_debug_wasm(debug_build: bool, same_wasm: bool, wasm_opt: bool)
    ensures
        ({
            let plan = spec_build_plan(debug_build, same_wasm, wasm_opt);
            debug_build ==> (exists|i: int|
                0 <= i < plan.len() && plan[i] == BuildStep::Bindgen(
                    WasmBindgenTarget::Web,
                    WasmVariant::Debug,
                )) && (exists|i: int|
                0 <= i < plan.len() && plan[i] == BuildStep::Bindgen(
                    WasmBindgenTarget::Bundler,
                    WasmVariant::Debug,
                ))
        }),
{
    let plan = spec_build_plan(debug_build, same_wasm, wasm_opt);
    if debug_build {
        let o: int = if wasm_opt { 1 } else { 0 };
        if same_wasm {
            assert(plan[3] == BuildStep::Bindgen(WasmBindgenTarget::Web, WasmVariant::Debug));
            assert(plan[4] == BuildStep::Bindgen(WasmBindgenTarget::Bundler, WasmVariant::Debug));
        } else {
            assert(plan[6 + o] == BuildStep::Bindgen(WasmBindgenTarget::Web, WasmVariant::Debug));
            assert(plan[7 + o] == BuildStep::Bindgen(
                WasmBindgenTarget::Bundler,
                WasmVariant::Debug,
            ));
        }
    }
}

/// A profile other than `dev`, `test`, `release` and `bench` is a directory
/// of its own name, and its wasm lies there.
pub proof fn law_custom_profile_keeps_its_name(crate_name: Seq<char>, profile: Seq<char>)
    requires
        profile != "dev"@,
        profile != "test"@,
        profile != "release"@,
        profile != "bench"@,
    ensures
        spec_profile_dir_name(profile) == profile,
        spec_wasm_artifact_path(crate_name, profile)[1] == profile,
{
}

/// The profiles cargo builds in: `dev` and `test` in `debug`, `release` and
/// `bench` in `release`.
pub proof fn law_builtin_profile_dirs()
    ensures
        spec_profile_dir_name("dev"@) == "debug"@,
        spec_profile_dir_name("test"@) == "debug"@,
        spec_profile_dir_name("release"@) == "release"@,
        spec_profile_dir_name("bench"@) == "release"@,
{
    reveal_strlit("dev");
    reveal_strlit("test");
    reveal_strlit("release");
    reveal_strlit("bench");
    assert("release"@ != "dev"@) by {
        assert("release"@.len() != "dev"@.len());
    }
    assert("release"@ != "test"@) by {
        assert("release"@.len() != "test"@.len());
    }
    assert("bench"@ != "dev"@) by {
        assert("bench"@.len() != "dev"@.len());
    }
    assert("bench"@ != "test"@) by {
        assert("bench"@.len() != "test"@.len());
    }
}

/// The bindings of each target lie in a directory of the target's own name;
/// those of the debug wasm in the same name followed by `-debug`.
pub proof fn law_bindgen_dir_names(t: WasmBindgenTarget)
    ensures
        spec_bindgen_dir_name(WasmBindgenTarget::Nodejs, WasmVariant::Optimized) == "nodejs"@,
        spec_bindgen_dir_name(WasmBindgenTarget::Web, WasmVariant::Optimized) == "web"@,
        spec_bindgen_dir_name(WasmBindgenTarget::Bundler, WasmVariant::Optimized) == "bundler"@,
        spec_bindgen_dir_name(t, WasmVariant::Debug) == spec_bindgen_dir_name(
            t,
            WasmVariant::Optimized,
        ) + "-debug"@,
{
    reveal_strlit("");
    assert(target_name(t) + ""@ =~= target_name(t));
    assert(target_name(WasmBindgenTarget::Nodejs) + ""@ =~= target_name(
        WasmBindgenTarget::Nodejs,
    ));
    assert(target_name(WasmBindgenTarget::Web) + ""@ =~= target_name(WasmBindgenTarget::Web));
    assert(target_name(WasmBindgenTarget::Bundler) + ""@ =~= target_name(
        WasmBindgenTarget::Bundler,
    ));
}

/// The line `error: profile `<p>` is not defined` holds no line feed, starts
/// with `error:` and holds the message.
proof fn lemma_error_line(profile: Seq<char>)
    requires
        forall|j: int| 0 <= j < profile.len() ==> profile[j] != '\n',
    ensures
        ({
            let line = "error: profile `"@ + profile + "` is not defined"@;
            &&& line.len() > 0
            &&& forall|j: int| 0 <= j < line.len() ==> line[j] != '\n'
            &&& strip_cr(line) == line
            &&& has_prefix(line, "error:"@)
            &&& contains_seq(line, missing_profile_message(profile))
        }),
{
    reveal_strlit("error: profile `");
    reveal_strlit("` is not defined");
    reveal_strlit("error:");
    reveal_strlit("profile `");
    let message = missing_profile_message(profile);
    let line = "error: profile `"@ + profile + "` is not defined"@;
    assert(line =~= seq!['e', 'r', 'r', 'o', 'r', ':', ' '] + message);
    assert forall|j: int| 0 <= j < line.len() implies line[j] != '\n' by {
        if j >= 16 && j < 16 + profile.len() {
            assert(line[j] == profile[j - 16]);
        }
    }
    assert(line.take(6) =~= "error:"@);
    assert(line.subrange(7, 7 + message.len() as int) =~= message);
    assert(crate::text::occurs_at(line, message, 7));
}

/// A line `error: profile `<p>` is not defined` is recognised wherever it
/// stands in cargo's error output: first, after any earlier lines and
/// before any later ones, or last without a final line feed.
pub proof fn law_missing_profile_recognised_on_any_line(
    before: Seq<char>,
    after: Seq<char>,
    profile: Seq<char>,
)
    requires
        forall|j: int| 0 <= j < profile.len() ==> profile[j] != '\n',
    ensures
        reports_missing_profile(
            "error: profile `"@ + profile + "` is not defined"@ + seq!['\n'] + after,
            profile,
        ),
        reports_missing_profile(
            before + seq!['\n'] + "error: profile `"@ + profile + "` is not defined"@ + seq![
                '\n',
            ] + after,
            profile,
        ),
        reports_missing_profile(
            before + seq!['\n'] + "error: profile `"@ + profile + "` is not defined"@,
            profile,
        ),
{
    let line = "error: profile `"@ + profile + "` is not defined"@;
    let message = missing_profile_message(profile);
    lemma_error_line(profile);
    // First.
    let first = line + seq!['\n'] + after;
    crate::text::lemma_first_line(line, after);
    assert(has_prefix(lines(first)[0], "error:"@) && contains_seq(lines(first)[0], message));
    // In the middle.
    let middle = before + seq!['\n'] + first;
    crate::text::lemma_lines_after_line_feed(before, first, 0);
    let m = choose|m: int|
        0 <= m < lines(before + seq!['\n'] + first).len() && #[trigger] lines(
            before + seq!['\n'] + first,
        )[m] == lines(first)[0];
    let middle_text = before + seq!['\n'] + "error: profile `"@ + profile + "` is not defined"@
        + seq!['\n'] + after;
    assert(middle_text =~= middle);
    assert(has_prefix(lines(middle_text)[m], "error:"@) && contains_seq(
        lines(middle_text)[m],
        message,
    ));
    // Last, without a final line feed.
    let last = before + seq!['\n'] + line;
    crate::text::lemma_single_line(line);
    crate::text::lemma_lines_after_line_feed(before, line, 0);
    let n = choose|n: int|
        0 <= n < lines(before + seq!['\n'] + line).len() && #[trigger] lines(
            before + seq!['\n'] + line,
        )[n] == lines(line)[0];
    let last_text = before + seq!['\n'] + "error: profile `"@ + profile + "` is not defined"@;
    assert(last_text =~= last);
    assert(has_prefix(lines(last_text)[n], "error:"@) && contains_seq(lines(last_text)[n], message));
}

/// No step is taken twice, and the output directory is created, once,
/// before any bindings are written to it.
pub proof fn law_plan_steps_once_output_dir_first(
    debug_build: bool,
    same_wasm: bool,
    wasm_opt: bool,
)
    ensures
        ({
            let plan = spec_build_plan(debug_build, same_wasm, wasm_opt);
            &&& forall|i: int, j: int|
                0 <= i < plan.len() && 0 <= j < plan.len() && plan[i] == plan[j] ==> i == j
            &&& exists|c: int| 0 <= c < plan.len() && plan[c] == BuildStep::CreateOutputDir
            &&& forall|c: int, j: int, t: WasmBindgenTarget, v: WasmVariant|
                0 <= c < plan.len() && 0 <= j < plan.len() && plan[c]
                    == BuildStep::CreateOutputDir && plan[j] == BuildStep::Bindgen(t, v) ==> c < j
        }),
{
    let plan = spec_build_plan(debug_build, same_wasm, wasm_opt);
    let d: int = if debug_build { 2 } else { 1 };
    let o: int = if !(debug_build && same_wasm) && wasm_opt { 1 } else { 0 };
    let c: int = d + o;
    assert(plan[c] == BuildStep::CreateOutputDir);
    assert forall|i: int, j: int| 0 <= i < plan.len() && 0 <= j < plan.len() && plan[i] == plan[j]
        implies i == j by {
        if debug_build && same_wasm {
            if wasm_opt {
                assert(plan =~= seq![
                    BuildStep::Compile(WasmVariant::Optimized),
                    BuildStep::Compile(WasmVariant::Debug),
                    BuildStep::CreateOutputDir,
                    BuildStep::Bindgen(WasmBindgenTarget::Web, WasmVariant::Debug),
                    BuildStep::Bindgen(WasmBindgenTarget::Bundler, WasmVariant::Debug),
                    BuildStep::Optimize,
                    BuildStep::Bindgen(WasmBindgenTarget::Nodejs, WasmVariant::Optimized),
                    BuildStep::Bindgen(WasmBindgenTarget::Web, WasmVariant::Optimized),
                    BuildStep::Bindgen(WasmBindgenTarget::Bundler, WasmVariant::Optimized),
                ]);
            }
        }
    }
}

/// Every profile but `release` is named to cargo as `--profile=<name>`.
pub proof fn law_profile_flag_names_the_profile(profile: Seq<char>)
    requires
        profile != "release"@,
    ensures
        cargo_profile_flag(profile).len() == 10 + profile.len(),
        cargo_profile_flag(profile).take(10) == seq!['-', '-', 'p', 'r', 'o', 'f', 'i', 'l', 'e', '='],
        cargo_profile_flag(profile).skip(10) == profile,
{
    reveal_strlit("--profile=");
    assert(cargo_profile_flag(profile).take(10) =~= seq![
        '-',
        '-',
        'p',
        'r',
        'o',
        'f',
        'i',
        'l',
        'e',
        '=',
    ]);
    assert(cargo_profile_flag(profile).skip(10) =~= profile);
}

/// The wasm file is the crate's name, each `-` turned into `_` and every
/// other character kept, followed by `.wasm`.
pub proof fn law_wasm_file_name_shape(crate_name: Seq<char>)
    ensures
        wasm_file_name(crate_name).len() == crate_name.len() + 5,
        forall|i: int|
            0 <= i < crate_name.len() ==> wasm_file_name(crate_name)[i] == (if crate_name[i]
                == '-' {
                '_'
            } else {
                crate_name[i]
            }),
        wasm_file_name(crate_name).skip(crate_name.len() as int) == seq!['.', 'w', 'a', 's', 'm'],
{
    reveal_strlit(".wasm");
    assert(wasm_file_name(crate_name).skip(crate_name.len() as int) =~= seq![
        '.',
        'w',
        'a',
        's',
        'm',
    ]);
}

/// Only an `error:` line counts: the same message on a `warning:` line
/// alone is not recognised.
pub proof fn law_missing_profile_needs_error_line(profile: Seq<char>)
    requires
        forall|j: int| 0 <= j < profile.len() ==> profile[j] != '\n',
    ensures
        !reports_missing_profile(
            "warning: profile `"@ + profile + "` is not defined"@,
            profile,
        ),
{
    reveal_strlit("warning: profile `");
    reveal_strlit("` is not defined");
    reveal_strlit("error:");
    let line = "warning: profile `"@ + profile + "` is not defined"@;
    assert forall|j: int| 0 <= j < line.len() implies line[j] != '\n' by {
        if j >= 18 && j < 18 + profile.len() {
            assert(line[j] == profile[j - 18]);
        }
    }
    crate::text::lemma_single_line(line);
    assert(!has_prefix(line, "error:"@)) by {
        assert(line.take(6)[0] != "error:"@[0]);
    }
}

/// Cargo gets `--release` exactly for the `release` profile.
pub proof fn law_release_flag_only_for_release(profile: Seq<char>)
    ensures
        (cargo_profile_flag(profile) == "--release"@) <==> (profile == "release"@),
{
    reveal_strlit("--release");
    reveal_strlit("--profile=");
    if profile != "release"@ {
        let f = "--profile="@ + profile;
        if f == "--release"@ {
            assert(f[2] == "--release"@[2]);
        }
    }
}

} // verus!
