//! What the build reads from the crate's `Cargo.toml`, from the template
//! `package.json` and from the output of `cargo metadata`.
use crate::text::{
    chars_of, find_char, find_char_in, replace_char, replace_char_in, string_of,
};
use vstd::prelude::*;

verus! {

#[verifier::external_type_specification]
#[verifier::external_body]
pub struct ExTomlError(toml::de::Error);

#[verifier::external_type_specification]
#[verifier::external_body]
pub struct ExJsonError(serde_json::Error);

/// What a document holds under a key.
#[derive(Debug)]
pub enum Member {
    /// Nothing: the key, or a table on the way to it, is not there.
    Absent,
    /// A value that is not a string.
    NotText,
    /// A string.
    Text(String),
}

impl View for Member {
    /// `None` for nothing, `Some(None)` for a value that is not a string,
    /// `Some(Some(s))` for the string `s`.
    type V = Option<Option<Seq<char>>>;

    open spec fn view(&self) -> Option<Option<Seq<char>>> {
        match self {
            Member::Absent => None,
            Member::NotText => Some(None),
            Member::Text(s) => Some(Some(s@)),
        }
    }
}

/// The string of a member, if it is one.
pub open spec fn member_text(m: Option<Option<Seq<char>>>) -> Option<Seq<char>> {
    match m {
        Some(Some(s)) => Some(s),
        _ => None,
    }
}

/// Why a name or a directory could not be read.
#[derive(Debug)]
pub enum ManifestError {
    /// `Cargo.toml` is not valid TOML.
    CargoToml(toml::de::Error),
    /// `package.name` in `Cargo.toml` is not a string.
    NoPackageName,
    /// `package.json` is not valid JSON.
    PackageJson(serde_json::Error),
    /// The output of `cargo metadata` is not valid JSON.
    Metadata(serde_json::Error),
}

// ---------------------------------------------------------------------------
// The outside parsers
// ---------------------------------------------------------------------------

/// What `toml::from_str` parses `text` into, read at `table`.`key`: `None`
/// where the text is not valid TOML, else the member there.
pub uninterp spec fn toml_table_member(text: Seq<char>, table: Seq<char>, key: Seq<char>) -> Option<
    Option<Option<Seq<char>>>,
>;

/// Parses `text` as a TOML document and reads `table`.`key` of it.
///
/// Trusted: calls `toml::from_str::<toml::Value>`, then reads the result
/// with `Value::get` and `Value::as_str`. Its result is named
/// `toml_table_member`; nothing more is stated of it.
#[verifier::external_body]
fn parse_toml_member(text: &str, table: &str, key: &str) -> (r: Result<Member, toml::de::Error>)
    ensures
        r is Err ==> toml_table_member(text@, table@, key@) is None,
        r matches Ok(m) ==> toml_table_member(text@, table@, key@) == Some(m@),
{
    let doc = match toml::from_str::<toml::Value>(text) {
        Ok(doc) => doc,
        Err(e) => return Err(e),
    };
    let found = match doc.get(table) {
        Some(t) => t.get(key),
        None => None,
    };
    Ok(match found {
        None => Member::Absent,
        Some(v) => match v.as_str() {
            Some(s) => Member::Text(s.to_string()),
            None => Member::NotText,
        },
    })
}

/// What `serde_json::from_str` parses `text` into, read at `key`: `None`
/// where the text is not valid JSON, else the member there.
pub uninterp spec fn json_text_member(text: Seq<char>, key: Seq<char>) -> Option<
    Option<Option<Seq<char>>>,
>;

/// Parses `text` as JSON and reads its member `key`.
///
/// Trusted: calls `serde_json::from_str::<serde_json::Value>`, then reads
/// the result with `Value::get` and `Value::as_str`. Its result is named
/// `json_text_member`; nothing more is stated of it.
#[verifier::external_body]
fn parse_json_member(text: &str, key: &str) -> (r: Result<Member, serde_json::Error>)
    ensures
        r is Err ==> json_text_member(text@, key@) is None,
        r matches Ok(m) ==> json_text_member(text@, key@) == Some(m@),
{
    match serde_json::from_str::<serde_json::Value>(text) {
        Err(e) => Err(e),
        Ok(doc) => Ok(match doc.get(key) {
            None => Member::Absent,
            Some(v) => match v.as_str() {
                Some(s) => Member::Text(s.to_string()),
                None => Member::NotText,
            },
        }),
    }
}

/// What `serde_json::from_slice` parses `bytes` into, read at `key`: `None`
/// where the bytes are not valid JSON, else the member there.
pub uninterp spec fn json_bytes_member(bytes: Seq<u8>, key: Seq<char>) -> Option<
    Option<Option<Seq<char>>>,
>;

/// Parses `bytes` as JSON and reads its member `key`.
///
/// Trusted: calls `serde_json::from_slice::<serde_json::Value>`, then reads
/// the result with `Value::get` and `Value::as_str`. Its result is named
/// `json_bytes_member`; nothing more is stated of it.
#[verifier::external_body]
fn parse_json_slice_member(bytes: &[u8], key: &str) -> (r: Result<Member, serde_json::Error>)
    ensures
        r is Err ==> json_bytes_member(bytes@, key@) is None,
        r matches Ok(m) ==> json_bytes_member(bytes@, key@) == Some(m@),
{
    match serde_json::from_slice::<serde_json::Value>(bytes) {
        Err(e) => Err(e),
        Ok(doc) => Ok(match doc.get(key) {
            None => Member::Absent,
            Some(v) => match v.as_str() {
                Some(s) => Member::Text(s.to_string()),
                None => Member::NotText,
            },
        }),
    }
}

// ---------------------------------------------------------------------------
// The crate name
// ---------------------------------------------------------------------------

/// The crate's name, from the `package.name` member of its manifest. The
/// member must be there: a manifest without it is not one that can be built.
pub fn crate_name_from_member(member: Member) -> (r: Result<String, ManifestError>)
    requires
        !(member is Absent),
    ensures
        member is NotText ==> r matches Err(ManifestError::NoPackageName),
        member matches Member::Text(s) ==> r matches Ok(n) && n@ == s@,
{
    match member {
        Member::Text(s) => Ok(s),
        _ => Err(ManifestError::NoPackageName),
    }
}

/// The crate's name, read from the text of its `Cargo.toml`. `None` where
/// the manifest has no `package.name` at all.
pub fn crate_name_from_manifest(content: &str) -> (r: Option<Result<String, ManifestError>>)
    ensures
        toml_table_member(content@, "package"@, "name"@) is None ==> r matches Some(
            Err(ManifestError::CargoToml(_)),
        ),
        toml_table_member(content@, "package"@, "name"@) == Some(None::<Option<Seq<char>>>)
            <==> r is None,
        toml_table_member(content@, "package"@, "name"@) == Some(Some(None::<Seq<char>>))
            ==> r matches Some(Err(ManifestError::NoPackageName)),
        forall|n: Seq<char>|
            toml_table_member(content@, "package"@, "name"@) == Some(Some(Some(n))) ==> (
            r matches Some(Ok(s)) && s@ == n),
{
    match parse_toml_member(content, "package", "name") {
        Err(e) => Some(Err(ManifestError::CargoToml(e))),
        Ok(Member::Absent) => None,
        Ok(member) => Some(crate_name_from_member(member)),
    }
}

// ---------------------------------------------------------------------------
// The package name
// ---------------------------------------------------------------------------

/// An npm name without its scope: what follows the first `/`, or the whole
/// name where there is none. `@scope/name` becomes `name`.
pub open spec fn strip_scope(name: Seq<char>) -> Seq<char> {
    match find_char(name, '/') {
        Some(i) => name.skip(i + 1),
        None => name,
    }
}

/// The name of the package's files: the `name` of `package.json` if it is a
/// string, else the crate's name with `_` turned into `-`; in either case
/// without its npm scope.
pub open spec fn spec_package_name(json_name: Option<Seq<char>>, crate_name: Seq<char>) -> Seq<
    char,
> {
    strip_scope(
        match json_name {
            Some(n) => n,
            None => replace_char(crate_name, '_', '-'),
        },
    )
}

/// `name` without its npm scope.
pub fn strip_scope_of(name: &str) -> (r: String)
    ensures
        r@ == strip_scope(name@),
{
    let cs = chars_of(name);
    match find_char_in(cs.as_slice(), '/') {
        Some(i) => {
            let mut rest: Vec<char> = Vec::new();
            assert(i < cs.len());
            let mut j = i + 1;
            while j < cs.len()
                invariant
                    i < j <= cs.len(),
                    rest@ == cs@.subrange(i + 1, j as int),
                decreases cs.len() - j,
            {
                rest.push(cs[j]);
                assert(rest@ =~= cs@.subrange(i + 1, j + 1));
                j = j + 1;
            }
            proof {
                crate::text::lemma_find_char(name@, '/');
            }
            assert(rest@ =~= name@.skip(i + 1));
            string_of(rest.as_slice())
        },
        None => name.to_owned(),
    }
}

/// The package name, from the `name` member of `package.json` and the
/// crate's name.
pub fn package_name_from_member(member: &Member, crate_name: &str) -> (r: String)
    ensures
        r@ == spec_package_name(member_text(member@), crate_name@),
{
    match member {
        Member::Text(s) => strip_scope_of(s.as_str()),
        _ => {
            let fallback = replace_char_in(crate_name, '_', '-');
            strip_scope_of(fallback.as_str())
        },
    }
}

/// The package name, read from the text of `package.json` and the crate's
/// name.
pub fn package_name_from_json(content: &str, crate_name: &str) -> (r: Result<
    String,
    ManifestError,
>)
    ensures
        json_text_member(content@, "name"@) is None ==> r matches Err(
            ManifestError::PackageJson(_),
        ),
        forall|m: Option<Option<Seq<char>>>|
            json_text_member(content@, "name"@) == Some(m) ==> (r matches Ok(s) && s@
                == spec_package_name(member_text(m), crate_name@)),
{
    match parse_json_member(content, "name") {
        Err(e) => Err(ManifestError::PackageJson(e)),
        Ok(member) => Ok(package_name_from_member(&member, crate_name)),
    }
}

// ---------------------------------------------------------------------------
// The target directory
// ---------------------------------------------------------------------------

/// Where cargo puts its build output.
#[derive(Debug)]
pub enum TargetDir {
    /// The directory `cargo metadata` reported (a workspace's, say).
    Reported(String),
    /// The `target` directory of the crate itself.
    CrateLocal,
}

/// The target directory, from the `target_directory` member of the output
/// of `cargo metadata`: the crate's own where that member is not a string.
pub fn target_dir_from_member(member: &Member) -> (r: TargetDir)
    ensures
        member_text(member@) matches Some(d) ==> r matches TargetDir::Reported(s) && s@ == d,
        member_text(member@) is None ==> r is CrateLocal,
{
    match member {
        Member::Text(s) => TargetDir::Reported(s.clone()),
        _ => TargetDir::CrateLocal,
    }
}

/// The target directory, from the outcome of `cargo metadata`: whether it
/// succeeded, and what it wrote. Where it failed, the crate's own.
pub fn target_dir_from_metadata(succeeded: bool, stdout: &[u8]) -> (r: Result<
    TargetDir,
    ManifestError,
>)
    ensures
        !succeeded ==> r matches Ok(TargetDir::CrateLocal),
        succeeded && json_bytes_member(stdout@, "target_directory"@) is None ==> r matches Err(
            ManifestError::Metadata(_),
        ),
        forall|m: Option<Option<Seq<char>>>|
            succeeded && json_bytes_member(stdout@, "target_directory"@) == Some(m) ==> (
            match member_text(m) {
                Some(d) => r matches Ok(TargetDir::Reported(s)) && s@ == d,
                None => r matches Ok(TargetDir::CrateLocal),
            }),
{
    if !succeeded {
        return Ok(TargetDir::CrateLocal);
    }
    match parse_json_slice_member(stdout, "target_directory") {
        Err(e) => Err(ManifestError::Metadata(e)),
        Ok(member) => Ok(target_dir_from_member(&member)),
    }
}

} // verus!

verus! {

// ---------------------------------------------------------------------------
// Laws
// ---------------------------------------------------------------------------

/// A name without a scope is kept as it is.
pub proof fn law_strip_scope_unscoped(name: Seq<char>)
    requires
        forall|i: int| 0 <= i < name.len() ==> name[i] != '/',
    ensures
        strip_scope(name) == name,
{
    crate::text::lemma_find_char_none(name, '/');
}

/// A scoped name `scope/name` loses its scope, whatever `name` holds.
pub proof fn law_strip_scope_scoped(scope: Seq<char>, name: Seq<char>)
    requires
        forall|i: int| 0 <= i < scope.len() ==> scope[i] != '/',
    ensures
        strip_scope(scope + seq!['/'] + name) == name,
{
    let full = scope + seq!['/'] + name;
    assert(crate::text::is_first_index(full, '/', scope.len() as int));
    crate::text::lemma_first_index_found(full, '/', scope.len() as int);
    assert(full.skip(scope.len() as int + 1) =~= name);
}

/// Without a string name in `package.json`, the package name is the crate's
/// name with each `_` turned into `-` and every other character kept.
pub proof fn law_fallback_name_turns_only_underscores(crate_name: Seq<char>)
    requires
        forall|i: int| 0 <= i < crate_name.len() ==> crate_name[i] != '/',
    ensures
        spec_package_name(None, crate_name).len() == crate_name.len(),
        forall|i: int|
            0 <= i < crate_name.len() ==> spec_package_name(None, crate_name)[i] == (if crate_name[i]
                == '_' {
                '-'
            } else {
                crate_name[i]
            }),
{
    let turned = replace_char(crate_name, '_', '-');
    law_strip_scope_unscoped(turned);
}

/// A string name of `package.json` without a scope is the package name,
/// whatever the crate is called.
pub proof fn law_json_name_is_the_package_name(json_name: Seq<char>, crate_name: Seq<char>)
    requires
        forall|i: int| 0 <= i < json_name.len() ==> json_name[i] != '/',
    ensures
        spec_package_name(Some(json_name), crate_name) == json_name,
{
    law_strip_scope_unscoped(json_name);
}

/// The name made from a crate's name holds no `_`.
pub proof fn law_fallback_name_has_no_underscore(crate_name: Seq<char>)
    ensures
        forall|i: int|
            0 <= i < replace_char(crate_name, '_', '-').len() ==> replace_char(
                crate_name,
                '_',
                '-',
            )[i] != '_',
{
}

/// The stem of the wasm file is the same whether it is made from the crate's
/// name or from the package name made from it.
pub proof fn law_wasm_stem_from_either_name(crate_name: Seq<char>)
    ensures
        replace_char(replace_char(crate_name, '_', '-'), '-', '_') == replace_char(
            crate_name,
            '-',
            '_',
        ),
{
    assert(replace_char(replace_char(crate_name, '_', '-'), '-', '_') =~= replace_char(
        crate_name,
        '-',
        '_',
    ));
}

} // verus!
