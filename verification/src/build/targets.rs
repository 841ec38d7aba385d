//! The wasm-bindgen targets and the variants of the wasm that are packaged.
use vstd::prelude::*;

verus! {

/// A `--target` of wasm-bindgen that the package ships.
#[derive(Clone, Copy, Debug, PartialEq, Eq, Structural)]
pub enum WasmBindgenTarget {
    Nodejs,
    Web,
    Bundler,
}

/// The build of the wasm: the optimized release build, or the debug build.
#[derive(Clone, Copy, Debug, PartialEq, Eq, Structural)]
pub enum WasmVariant {
    Optimized,
    Debug,
}

/// The name wasm-bindgen gives each target.
pub open spec fn target_name(t: WasmBindgenTarget) -> Seq<char> {
    match t {
        WasmBindgenTarget::Nodejs => "nodejs"@,
        WasmBindgenTarget::Web => "web"@,
        WasmBindgenTarget::Bundler => "bundler"@,
    }
}

/// What a variant appends to the name of an output directory.
pub open spec fn variant_suffix(v: WasmVariant) -> Seq<char> {
    match v {
        WasmVariant::Optimized => ""@,
        WasmVariant::Debug => "-debug"@,
    }
}

impl WasmBindgenTarget {
    /// Every target, in the order the package is built.
    pub fn all() -> (r: Vec<WasmBindgenTarget>)
        ensures
            r@ == seq![WasmBindgenTarget::Nodejs, WasmBindgenTarget::Web, WasmBindgenTarget::Bundler],
    {
        let mut r = Vec::new();
        r.push(WasmBindgenTarget::Nodejs);
        r.push(WasmBindgenTarget::Web);
        r.push(WasmBindgenTarget::Bundler);
        assert(r@ =~= seq![WasmBindgenTarget::Nodejs, WasmBindgenTarget::Web, WasmBindgenTarget::Bundler]);
        r
    }

    /// The value passed to `wasm-bindgen --target`.
    pub fn as_str(&self) -> (r: &'static str)
        ensures
            r@ == target_name(*self),
    {
        match self {
            WasmBindgenTarget::Nodejs => "nodejs",
            WasmBindgenTarget::Web => "web",
            WasmBindgenTarget::Bundler => "bundler",
        }
    }

    /// The name of the directory that holds this target's output.
    pub fn dir_name(&self) -> (r: &'static str)
        ensures
            r@ == target_name(*self),
    {
        self.as_str()
    }
}

impl WasmVariant {
    /// Both variants: the optimized one first.
    pub fn all() -> (r: Vec<WasmVariant>)
        ensures
            r@ == seq![WasmVariant::Optimized, WasmVariant::Debug],
    {
        let mut r = Vec::new();
        r.push(WasmVariant::Optimized);
        r.push(WasmVariant::Debug);
        assert(r@ =~= seq![WasmVariant::Optimized, WasmVariant::Debug]);
        r
    }

    /// Whether this is the debug variant.
    pub fn is_debug(&self) -> (r: bool)
        ensures
            r == (*self == WasmVariant::Debug),
    {
        match self {
            WasmVariant::Optimized => false,
            WasmVariant::Debug => true,
        }
    }

    /// What this variant appends to an output directory's name.
    pub fn dir_suffix(&self) -> (r: &'static str)
        ensures
            r@ == variant_suffix(*self),
    {
        match self {
            WasmVariant::Optimized => "",
            WasmVariant::Debug => "-debug",
        }
    }
}

} // verus!
