use vstd::prelude::*;

use crate::error::Error;
use crate::error::ErrorKind;

verus! {

/// The part of a project manifest that binary-target resolution reads: the
/// optional package name, the ordered binary-target entries (each with an
/// optional name), and the ordered workspace member entries (each with an
/// optional path; an entry whose path is not a plain string declares none and
/// contributes nothing).
pub struct Manifest {
    pub package_name: Option<String>,
    pub bin_names: Vec<Option<String>>,
    pub workspace_members: Vec<Option<String>>,
}

/// The mathematical content of a [`Manifest`].
pub struct ManifestView {
    pub package_name: Option<Seq<char>>,
    pub bin_names: Seq<Option<Seq<char>>>,
    pub workspace_members: Seq<Option<Seq<char>>>,
}

/// The view of an optional owned name.
pub open spec fn opt_name_view(n: Option<String>) -> Option<Seq<char>> {
    match n {
        Some(s) => Some(s@),
        None => None,
    }
}

/// The views of a sequence of optional owned names.
pub open spec fn opt_name_views(ns: Seq<Option<String>>) -> Seq<Option<Seq<char>>> {
    ns.map_values(|n: Option<String>| opt_name_view(n))
}

/// The views of a sequence of owned names.
pub open spec fn names_view(ns: Seq<String>) -> Seq<Seq<char>> {
    ns.map_values(|n: String| n@)
}

/// Whether the name list holds the target name.
pub(crate) fn contains_name(names: &Vec<String>, target: &String) -> (r: bool)
    ensures
        r == names_view(names@).contains(target@),
{
    let mut i: usize = 0;
    while i < names.len()
        invariant
            i <= names@.len(),
            forall|j: int| 0 <= j < i ==> names_view(names@)[j] != target@,
        decreases names@.len() - i,
    {
        if names[i] == *target {
            assert(names_view(names@)[i as int] == target@);
            return true;
        }
        i += 1;
    }
    false
}

impl View for Manifest {
    type V = ManifestView;

    open spec fn view(&self) -> ManifestView {
        ManifestView {
            package_name: opt_name_view(self.package_name),
            bin_names: opt_name_views(self.bin_names@),
            workspace_members: opt_name_views(self.workspace_members@),
        }
    }
}

/// What the manifest parser returns on a given text: `None` when the text is
/// not a well-formed document, otherwise the manifest fields read from it.
/// The result depends on the characters of the text alone.
pub uninterp spec fn parsed_manifest(s: Seq<char>) -> Option<ManifestView>;

/// Relies on toml_edit: `str::parse::<DocumentMut>` turns the text into a
/// document (or a parse error), and the `get`, `as_str`,
/// `as_array_of_tables` and `as_array` accessors read the `package.name`,
/// `bin` and `workspace.members` entries out of it. All of them are functions
/// of the text alone, so the returned manifest is too. Binary-target entries
/// are read in the standard array-of-tables form; an entry list written in
/// another spelling, and a name that is not a plain string, read as absent.
#[verifier::external_body]
fn parse_manifest_text(s: &str) -> (r: Result<Manifest, Error>)
    ensures
        r is Ok <==> parsed_manifest(s@) is Some,
        r matches Ok(m) ==> m@ == parsed_manifest(s@)->Some_0,
        r matches Err(e) ==> e@.kind == ErrorKind::ManifestParseError,
{
    let doc = s.parse::<toml_edit::DocumentMut>().map_err(|e| Error::new(ErrorKind::ManifestParseError, e.to_string()))?;
    let package_name = doc.get("package").and_then(|p| Some(p.get("name")?.as_str()?.to_owned()));
    let bin_names = doc.get("bin").and_then(|b| b.as_array_of_tables()).into_iter().flatten().map(|t| Some(t.get("name")?.as_str()?.to_owned())).collect();
    let workspace_members = doc.get("workspace").and_then(|w| w.get("members")?.as_array()).into_iter().flatten().map(|v| Some(v.as_str()?.to_owned())).collect();
    Ok(Manifest { package_name, bin_names, workspace_members })
}

/// Reads a manifest out of the given text. Returns the manifest fields when
/// the text is a well-formed document, and a `ManifestParseError` otherwise.
pub fn parse_manifest(toml: &str) -> (r: Result<Manifest, Error>)
    ensures
        r is Ok <==> parsed_manifest(toml@) is Some,
        r matches Ok(m) ==> m@ == parsed_manifest(toml@)->Some_0,
        r matches Err(e) ==> e@.kind == ErrorKind::ManifestParseError,
{
    parse_manifest_text(toml)
}

} // verus!
