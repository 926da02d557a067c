//! Workspaces, revisions, and the package name declared in the manifest.

use vstd::prelude::*;
use vstd::string::*;

use crate::text::{hex_char, hex_text, to_hex};
use crate::utils::{generate_random_string, is_alphanumeric};

verus! {

/// Releases a workspace directory exactly once.
///
/// The directory itself is removed by the caller; this guard decides whether a
/// removal is still owed and records its outcome.
pub struct RepoCleanup {
    pub repo_path: String,
    cleaned: bool,
}

impl RepoCleanup {
    /// Whether the directory has been removed.
    pub closed spec fn cleaned(&self) -> bool {
        self.cleaned
    }

    /// The directory this guard releases.
    pub closed spec fn path(&self) -> String {
        self.repo_path
    }

    /// A guard for the workspace at `repo_path`, not yet removed.
    pub fn new(repo_path: String) -> (r: RepoCleanup)
        ensures
            r.path() == repo_path,
            !r.cleaned(),
    {
        RepoCleanup { repo_path, cleaned: false }
    }

    /// Whether the directory still has to be removed.
    pub fn needs_removal(&self) -> (r: bool)
        ensures
            r == !self.cleaned(),
    {
        !self.cleaned
    }

    /// Records the outcome of removing the directory: once it succeeded no removal
    /// is owed any more; a failure is reported and the removal stays owed.
    pub fn finish_removal(&mut self, outcome: Result<(), String>) -> (r: Result<(), String>)
        ensures
            final(self).path() == old(self).path(),
            match outcome {
                Ok(_) => r is Ok && final(self).cleaned(),
                Err(e) => final(self).cleaned() == old(self).cleaned() && r is Err && r->Err_0@
                    == "Failed to remove repository directory: "@ + e@,
            },
    {
        match outcome {
            Ok(()) => {
                self.cleaned = true;
                Ok(())
            },
            Err(e) => Err(String::from_str("Failed to remove repository directory: ").concat(e.as_str())),
        }
    }
}

/// The workspace directory named by `suffix`.
pub open spec fn workspace_path_text(suffix: Seq<char>) -> Seq<char> {
    "/tmp/cjrepo_"@ + suffix
}

/// The workspace directory named by `suffix`.
pub fn workspace_path(suffix: &str) -> (r: String)
    ensures
        r@ == workspace_path_text(suffix@),
{
    String::from_str("/tmp/cjrepo_").concat(suffix)
}

/// A fresh workspace directory under a random ten-character name.
pub fn new_workspace_path() -> (r: String)
    ensures
        exists|s: Seq<char>|
            s.len() == 10 && (forall|i: int| 0 <= i < 10 ==> is_alphanumeric(#[trigger] s[i]))
                && r@ == workspace_path_text(s),
{
    let suffix = generate_random_string(10);
    let r = workspace_path(suffix.as_str());
    assert(r@ == workspace_path_text(suffix@));
    r
}

/// A lower-case hexadecimal digit.
pub open spec fn is_hex_char(c: char) -> bool {
    ('0' <= c && c <= '9') || ('a' <= c && c <= 'f')
}

/// A full revision identifier: forty lower-case hexadecimal digits.
pub open spec fn is_revision(s: Seq<char>) -> bool {
    s.len() == 40 && forall|i: int| 0 <= i < s.len() ==> is_hex_char(#[trigger] s[i])
}

proof fn lemma_hex_text_shape(b: Seq<u8>)
    ensures
        hex_text(b).len() == 2 * b.len(),
        forall|i: int| 0 <= i < hex_text(b).len() ==> is_hex_char(#[trigger] hex_text(b)[i]),
    decreases b.len(),
{
    if b.len() > 0 {
        lemma_hex_text_shape(b.drop_last());
        let hi = b.last() as int / 16;
        let lo = b.last() as int % 16;
        assert(is_hex_char(hex_char(hi)));
        assert(is_hex_char(hex_char(lo)));
        let t = hex_text(b);
        assert forall|i: int| 0 <= i < t.len() implies is_hex_char(#[trigger] t[i]) by {
            if i < hex_text(b.drop_last()).len() {
                assert(t[i] == hex_text(b.drop_last())[i]);
            }
        }
    }
}

/// The revision identifier of a commit id: its twenty bytes in hexadecimal.
/// An id of another length names no commit.
pub fn revision_of(id: &[u8]) -> (r: Option<String>)
    ensures
        r is Some <==> id@.len() == 20,
        r matches Some(s) ==> s@ == hex_text(id@) && is_revision(s@),
{
    if id.len() == 20 {
        let s = to_hex(id);
        proof {
            lemma_hex_text_shape(id@);
        }
        Some(s)
    } else {
        None
    }
}

/// The search pattern for manifests anywhere under `repo_path`.
pub open spec fn manifest_pattern_text(repo_path: Seq<char>) -> Seq<char> {
    repo_path + "/**/cjpm.toml"@
}

/// The search pattern for manifests anywhere under `repo_path`.
pub fn manifest_pattern(repo_path: &str) -> (r: String)
    ensures
        r@ == manifest_pattern_text(repo_path@),
{
    String::from_str(repo_path).concat("/**/cjpm.toml")
}

/// Why the package name could not be resolved.
#[derive(Clone, Debug, PartialEq, Eq)]
pub enum MetadataError {
    /// No manifest matched the search pattern.
    NotFound { pattern: String },
    /// A manifest was found but could not be read.
    Unreadable(String),
    /// The manifest is not valid TOML.
    Unparsable(String),
    /// The manifest has no string field `package.name`.
    MissingName,
}

/// The description of a metadata failure.
pub open spec fn metadata_error_text(e: MetadataError) -> Seq<char> {
    match e {
        MetadataError::NotFound { .. } => "No cjpm.toml found"@,
        MetadataError::Unreadable(m) => "Failed to read cjpm.toml: "@ + m@,
        MetadataError::Unparsable(m) => "Failed to parse TOML: "@ + m@,
        MetadataError::MissingName => "package.name not found in cjpm.toml"@,
    }
}

impl MetadataError {
    /// The description of the failure.
    pub fn message(&self) -> (r: String)
        ensures
            r@ == metadata_error_text(*self),
    {
        match self {
            MetadataError::NotFound { .. } => String::from_str("No cjpm.toml found"),
            MetadataError::Unreadable(m) => String::from_str("Failed to read cjpm.toml: ").concat(m.as_str()),
            MetadataError::Unparsable(m) => String::from_str("Failed to parse TOML: ").concat(m.as_str()),
            MetadataError::MissingName => String::from_str("package.name not found in cjpm.toml"),
        }
    }
}

/// What TOML parsing finds in `doc` at `table.key`: `None` when `doc` is not valid
/// TOML, `Some(None)` when there is no string there, else the string.
pub uninterp spec fn toml_string_at(doc: Seq<char>, table: Seq<char>, key: Seq<char>) -> Option<
    Option<Seq<char>>,
>;

/// Relies on `toml::from_str` into a `toml::Value`, then `Value::get` twice and
/// `Value::as_str`: the string stored under `table.key`, if the document parses;
/// the outcome depends on the three texts alone.
#[verifier::external_body]
fn toml_lookup_str(doc: &str, table: &str, key: &str) -> (r: Result<Option<String>, String>)
    ensures
        match r {
            Err(_) => toml_string_at(doc@, table@, key@) is None,
            Ok(None) => toml_string_at(doc@, table@, key@) == Some(None::<Seq<char>>),
            Ok(Some(s)) => toml_string_at(doc@, table@, key@) == Some(Some(s@)),
        },
{
    let value: toml::Value = toml::from_str(doc).map_err(|e| e.to_string())?;
    Ok(value.get(table).and_then(|t| t.get(key)).and_then(|v| v.as_str()).map(String::from))
}

/// The package name from the outcome of looking up `package.name` in a manifest.
pub fn package_name_from_lookup(lookup: Result<Option<String>, String>) -> (r: Result<
    String,
    MetadataError,
>)
    ensures
        match lookup {
            Err(e) => r == Err::<String, MetadataError>(MetadataError::Unparsable(e)),
            Ok(None) => r == Err::<String, MetadataError>(MetadataError::MissingName),
            Ok(Some(name)) => r == Ok::<String, MetadataError>(name),
        },
{
    match lookup {
        Err(e) => Err(MetadataError::Unparsable(e)),
        Ok(None) => Err(MetadataError::MissingName),
        Ok(Some(name)) => Ok(name),
    }
}

/// The package name that the manifest text `content` declares as `package.name`.
pub fn package_name_from_manifest(content: &str) -> (r: Result<String, MetadataError>)
    ensures
        match toml_string_at(content@, "package"@, "name"@) {
            None => r matches Err(MetadataError::Unparsable(_)),
            Some(None) => r == Err::<String, MetadataError>(MetadataError::MissingName),
            Some(Some(name)) => r matches Ok(s) && s@ == name,
        },
{
    let lookup = toml_lookup_str(content, "package", "name");
    package_name_from_lookup(lookup)
}

} // verus!
