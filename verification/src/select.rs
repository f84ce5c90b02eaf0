use vstd::prelude::*;
use vstd::string::StringExecFns;

use crate::error::Error;
use crate::error::ErrorKind;
use crate::manifest::contains_name;
use crate::manifest::names_view;
use crate::manifest::opt_name_view;
use crate::manifest::parsed_manifest;
use crate::resolve::ManifestTree;
use crate::resolve::candidates_of;
use crate::resolve::declared_names;
use crate::resolve::get_binary_name;
use crate::resolve::member_candidates;
use crate::resolve::member_tree_views;
use crate::resolve::parsed_candidates;
use crate::resolve::TreeView;

verus! {

/// Why selection failed: either no explicit target was requested and the
/// candidates do not determine one, or the requested target is not among the
/// candidates. The payload carries what diagnostics need: the full candidate
/// list, or the requested name.
pub enum SelectionError {
    Ambiguous { candidates: Vec<String> },
    NotFound { requested: String },
}

/// Whether selection succeeds: without an explicit request exactly one
/// candidate must exist; with one, the requested name must be a candidate.
pub open spec fn selection_succeeds(
    candidates: Seq<Seq<char>>,
    requested: Option<Seq<char>>,
) -> bool {
    match requested {
        None => candidates.len() == 1,
        Some(name) => candidates.contains(name),
    }
}

/// The name a successful selection yields: the requested name where one was
/// given, else the single candidate.
pub open spec fn selected_name(
    candidates: Seq<Seq<char>>,
    requested: Option<Seq<char>>,
) -> Seq<char> {
    match requested {
        None => candidates[0],
        Some(name) => name,
    }
}

/// Selects exactly one binary target from the candidates. Without an explicit
/// request the single candidate is taken; zero or several candidates are
/// ambiguous, and the error carries them all. An explicit request succeeds
/// exactly when it names a candidate, and the error carries the name
/// otherwise.
pub fn select(candidates: &Vec<String>, requested: &Option<String>) -> (r: Result<
    String,
    SelectionError,
>)
    ensures
        r is Ok <==> selection_succeeds(names_view(candidates@), opt_name_view(*requested)),
        r matches Ok(name) ==> name@ == selected_name(
            names_view(candidates@),
            opt_name_view(*requested),
        ),
        r matches Err(SelectionError::Ambiguous { candidates: cs }) ==> *requested is None
            && cs@ == candidates@,
        r matches Err(SelectionError::NotFound { requested: name }) ==> opt_name_view(*requested)
            == Some(name@),
{
    match requested {
        None => {
            if candidates.len() == 1 {
                Ok(candidates[0].clone())
            } else {
                Err(SelectionError::Ambiguous { candidates: clone_names(candidates) })
            }
        },
        Some(name) => {
            if contains_name(candidates, name) {
                Ok(name.clone())
            } else {
                Err(SelectionError::NotFound { requested: name.clone() })
            }
        },
    }
}

/// Clones a candidate list.
fn clone_names(names: &Vec<String>) -> (r: Vec<String>)
    ensures
        r@ == names@,
{
    let mut r: Vec<String> = Vec::new();
    let mut i: usize = 0;
    while i < names.len()
        invariant
            i <= names@.len(),
            r@ == names@.take(i as int),
        decreases names@.len() - i,
    {
        r.push(names[i].clone());
        proof {
            assert(r@ =~= names@.take(i + 1));
        }
        i += 1;
    }
    proof {
        assert(names@.take(names@.len() as int) =~= names@);
    }
    r
}

/// The candidate names joined with a comma and a space, in order.
pub open spec fn joined_names(names: Seq<Seq<char>>) -> Seq<char>
    decreases names,
{
    if names.len() == 0 {
        seq![]
    } else if names.len() == 1 {
        names[0]
    } else {
        joined_names(names.drop_last()) + ", "@ + names.last()
    }
}

/// The message of an ambiguous selection: it lists every candidate found.
pub open spec fn ambiguous_msg(candidates: Seq<Seq<char>>) -> Seq<char> {
    "cannot determine the binary target, candidates: ["@ + joined_names(candidates) + "]"@
}

/// The message of a failed explicit selection: it names the requested binary.
pub open spec fn not_found_msg(name: Seq<char>) -> Seq<char> {
    "binary "@ + name + " is not found"@
}

/// Joins the candidate names with a comma and a space.
fn join_names(names: &Vec<String>) -> (r: String)
    ensures
        r@ == joined_names(names_view(names@)),
{
    let ghost all = names_view(names@);
    let mut r = String::new();
    let mut i: usize = 0;
    while i < names.len()
        invariant
            i <= names@.len(),
            all == names_view(names@),
            r@ == joined_names(all.take(i as int)),
        decreases names@.len() - i,
    {
        proof {
            assert(all.take(i + 1).drop_last() =~= all.take(i as int));
            assert(all.take(i + 1).last() == all[i as int]);
        }
        if i > 0 {
            r.append(", ");
        }
        r.append(names[i].as_str());
        i += 1;
    }
    proof {
        assert(all.take(names@.len() as int) =~= all);
    }
    r
}

/// Turns a selection failure into a terminal error whose kind tells the two
/// failures apart and whose message carries the payload: the full candidate
/// list, or the requested name.
pub fn selection_error_to_error(e: SelectionError) -> (r: Error)
    ensures
        e matches SelectionError::Ambiguous { candidates } ==> r@.kind
            == ErrorKind::AmbiguousTarget && r@.msg == ambiguous_msg(names_view(candidates@)),
        e matches SelectionError::NotFound { requested } ==> r@.kind == ErrorKind::TargetNotFound
            && r@.msg == not_found_msg(requested@),
{
    match e {
        SelectionError::Ambiguous { candidates } => {
            let mut msg = String::from_str("cannot determine the binary target, candidates: [");
            let list = join_names(&candidates);
            msg.append(list.as_str());
            msg.append("]");
            Error::new(ErrorKind::AmbiguousTarget, msg)
        },
        SelectionError::NotFound { requested } => {
            let mut msg = String::from_str("binary ");
            msg.append(requested.as_str());
            msg.append(" is not found");
            Error::new(ErrorKind::TargetNotFound, msg)
        },
    }
}

/// Reads a manifest out of the given text, resolves the candidates of the
/// tree it roots (the member trees standing for the workspace members), and
/// selects the binary target that `app_name` asks for. Fails with a parse
/// error on an ill-formed text, with an ambiguity error when no request was
/// given and the candidates do not determine a target, and with a not-found
/// error when the requested name is no candidate.
pub fn find_binary_name(
    app_name: &Option<String>,
    toml: &str,
    member_trees: Vec<Option<ManifestTree>>,
) -> (r: Result<String, Error>)
    ensures
        parsed_manifest(toml@) is None ==> (r matches Err(e) && e@.kind
            == ErrorKind::ManifestParseError),
        parsed_manifest(toml@) is Some ==> {
            let cands = parsed_candidates(toml@, member_tree_views(member_trees@));
            let requested = opt_name_view(*app_name);
            &&& r is Ok <==> selection_succeeds(cands, requested)
            &&& (r matches Ok(name) ==> name@ == selected_name(cands, requested))
            &&& (r matches Err(e) ==> *app_name is None ==> e@.kind == ErrorKind::AmbiguousTarget
                && e@.msg == ambiguous_msg(cands))
            &&& (r matches Err(e) ==> *app_name is Some ==> e@.kind == ErrorKind::TargetNotFound
                && e@.msg == not_found_msg(app_name->Some_0@))
        },
{
    let names = match get_binary_name(toml, member_trees) {
        Ok(names) => names,
        Err(e) => {
            return Err(e);
        },
    };
    match select(&names, app_name) {
        Ok(name) => Ok(name),
        Err(e) => Err(selection_error_to_error(e)),
    }
}

/// Law: a manifest without workspace members whose binary-target entries
/// declare exactly one name resolves to that name alone, and selection
/// without an explicit request succeeds with it.
pub proof fn lemma_single_declared_bin_selected(t: TreeView)
    requires
        t.members.len() == 0,
        declared_names(t.manifest.bin_names).len() == 1,
    ensures
        candidates_of(t) == declared_names(t.manifest.bin_names),
        selection_succeeds(candidates_of(t), None),
        selected_name(candidates_of(t), None) == declared_names(t.manifest.bin_names)[0],
{
    assert(member_candidates(t.members).len() == 0);
    let bins = declared_names(t.manifest.bin_names);
    assert(crate::resolve::dedup_names(bins.drop_last()) == Seq::<Seq<char>>::empty());
    assert(crate::resolve::dedup_names(bins) =~= bins);
}

/// Law: without an explicit request, zero candidates or two or more
/// candidates never determine a target.
pub proof fn lemma_no_request_needs_single_candidate(candidates: Seq<Seq<char>>)
    requires
        candidates.len() != 1,
    ensures
        !selection_succeeds(candidates, None),
{
}

} // verus!
