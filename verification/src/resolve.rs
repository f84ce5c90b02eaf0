use vstd::prelude::*;

use crate::error::Error;
use crate::error::ErrorKind;
use crate::manifest::contains_name;
use crate::manifest::Manifest;
use crate::manifest::ManifestView;
use crate::manifest::names_view;
use crate::manifest::parsed_manifest;
use crate::manifest::parse_manifest;

verus! {

/// A manifest together with the manifest trees of its workspace members, in
/// member-list order. `None` stands for a member whose manifest is missing or
/// unreadable: it is skipped silently and contributes no candidates.
pub struct ManifestTree {
    pub manifest: Manifest,
    pub member_trees: Vec<Option<ManifestTree>>,
}

/// The mathematical content of a [`ManifestTree`].
pub struct TreeView {
    pub manifest: ManifestView,
    pub members: Seq<Option<TreeView>>,
}

/// The view of a manifest tree.
pub open spec fn tree_view(t: ManifestTree) -> TreeView
    decreases t,
{
    TreeView { manifest: t.manifest@, members: member_tree_views(t.member_trees@) }
}

/// The views of a list of optional member trees, in order.
pub open spec fn member_tree_views(ts: Seq<Option<ManifestTree>>) -> Seq<Option<TreeView>>
    decreases ts,
{
    if ts.len() == 0 {
        seq![]
    } else {
        member_tree_views(ts.drop_last()) + seq![
            match ts.last() {
                Some(t) => Some(tree_view(t)),
                None => None,
            },
        ]
    }
}

impl View for ManifestTree {
    type V = TreeView;

    open spec fn view(&self) -> TreeView {
        tree_view(*self)
    }
}

/// The names that the binary-target entries declare, in declaration order;
/// entries that declare no name contribute nothing.
pub open spec fn declared_names(entries: Seq<Option<Seq<char>>>) -> Seq<Seq<char>>
    decreases entries,
{
    if entries.len() == 0 {
        seq![]
    } else {
        declared_names(entries.drop_last()) + match entries.last() {
            Some(n) => seq![n],
            None => seq![],
        }
    }
}

/// The subsequence that keeps only the first occurrence of each name: the
/// candidate set is a sequence of distinct names.
pub open spec fn dedup_names(names: Seq<Seq<char>>) -> Seq<Seq<char>>
    decreases names,
{
    if names.len() == 0 {
        seq![]
    } else {
        let rest = dedup_names(names.drop_last());
        if rest.contains(names.last()) {
            rest
        } else {
            rest + seq![names.last()]
        }
    }
}

/// The candidates that workspace expansion yields: the candidates of each
/// present member tree, concatenated in member-list order; missing members
/// contribute nothing. A name that several members declare occurs here once
/// per member; the candidate set keeps only its first occurrence.
pub open spec fn member_candidates(members: Seq<Option<TreeView>>) -> Seq<Seq<char>>
    decreases members,
{
    if members.len() == 0 {
        seq![]
    } else {
        member_candidates(members.drop_last()) + match members.last() {
            Some(t) => candidates_of(t),
            None => seq![],
        }
    }
}

/// The candidate binary names of a manifest tree: a sequence of distinct
/// names, in precedence order. Workspace expansion decides where it yields
/// anything; else the declared binary names; else the package name. A name
/// declared more than once keeps its first occurrence and drops the rest.
pub open spec fn candidates_of(t: TreeView) -> Seq<Seq<char>>
    decreases t,
{
    let ws = member_candidates(t.members);
    if ws.len() > 0 {
        dedup_names(ws)
    } else {
        let bins = declared_names(t.manifest.bin_names);
        if bins.len() > 0 {
            dedup_names(bins)
        } else {
            match t.manifest.package_name {
                Some(n) => seq![n],
                None => seq![],
            }
        }
    }
}

/// Collects the declared binary names of the given entries, in order.
fn collect_declared(entries: &Vec<Option<String>>) -> (r: Vec<String>)
    ensures
        names_view(r@) == declared_names(crate::manifest::opt_name_views(entries@)),
{
    let ghost all = crate::manifest::opt_name_views(entries@);
    let mut r: Vec<String> = Vec::new();
    let mut i: usize = 0;
    while i < entries.len()
        invariant
            i <= entries@.len(),
            all == crate::manifest::opt_name_views(entries@),
            names_view(r@) == declared_names(all.take(i as int)),
        decreases entries@.len() - i,
    {
        proof {
            assert(all.take(i + 1).drop_last() =~= all.take(i as int));
            assert(all.take(i + 1).last() == all[i as int]);
        }
        match &entries[i] {
            Some(n) => {
                r.push(n.clone());
                proof {
                    assert(names_view(r@) =~= declared_names(all.take(i + 1)));
                }
            },
            None => {
                proof {
                    assert(names_view(r@) =~= declared_names(all.take(i + 1)));
                }
            },
        }
        i += 1;
    }
    proof {
        assert(all.take(entries@.len() as int) =~= all);
    }
    r
}

/// Keeps the first occurrence of each name and drops the rest.
fn dedup_names_exec(names: &Vec<String>) -> (r: Vec<String>)
    ensures
        names_view(r@) == dedup_names(names_view(names@)),
{
    let ghost all = names_view(names@);
    let mut r: Vec<String> = Vec::new();
    let mut i: usize = 0;
    while i < names.len()
        invariant
            i <= names@.len(),
            all == names_view(names@),
            names_view(r@) == dedup_names(all.take(i as int)),
        decreases names@.len() - i,
    {
        proof {
            assert(all.take(i + 1).drop_last() =~= all.take(i as int));
            assert(all.take(i + 1).last() == all[i as int]);
        }
        if !contains_name(&r, &names[i]) {
            r.push(names[i].clone());
            proof {
                assert(names_view(r@) =~= dedup_names(all.take(i + 1)));
            }
        }
        i += 1;
    }
    proof {
        assert(all.take(names@.len() as int) =~= all);
    }
    r
}

/// Resolves the candidate binary names of a manifest tree: the workspace
/// expansion where it yields at least one candidate, else the declared binary
/// names where at least one entry declares a name, else the package name.
/// The result holds each name once: of several occurrences the first stays.
pub fn resolve_candidates(tree: &ManifestTree) -> (r: Vec<String>)
    ensures
        names_view(r@) == candidates_of(tree@),
        names_view(r@).no_duplicates(),
    decreases *tree,
{
    proof {
        lemma_candidates_distinct(tree@);
    }
    let mut ws: Vec<String> = Vec::new();
    let mut i: usize = 0;
    while i < tree.member_trees.len()
        invariant
            i <= tree.member_trees@.len(),
            names_view(ws@) == member_candidates(tree@.members.take(i as int)),
        decreases tree.member_trees@.len() - i,
    {
        proof {
            assert(tree@.members == member_tree_views(tree.member_trees@));
            lemma_member_tree_views_index(tree.member_trees@, i as int);
            assert(tree@.members.take(i + 1).drop_last() =~= tree@.members.take(i as int));
            assert(tree@.members.take(i + 1).last() == tree@.members[i as int]);
        }
        match &tree.member_trees[i] {
            Some(t) => {
                proof {
                    assert(decreases_to!(*tree => tree.member_trees));
                    assert(decreases_to!(tree.member_trees => tree.member_trees@));
                    assert(decreases_to!(tree.member_trees@ => tree.member_trees@[i as int]));
                    assert(decreases_to!(tree.member_trees@[i as int] => *t));
                }
                let mut c = resolve_candidates(t);
                ws.append(&mut c);
                proof {
                    assert(names_view(ws@) =~= member_candidates(tree@.members.take(i + 1)));
                }
            },
            None => {
                proof {
                    assert(names_view(ws@) =~= member_candidates(tree@.members.take(i + 1)));
                }
            },
        }
        i += 1;
    }
    proof {
        lemma_member_tree_views_len(tree.member_trees@);
        assert(tree@.members.take(tree.member_trees@.len() as int) =~= tree@.members);
    }
    if ws.len() > 0 {
        return dedup_names_exec(&ws);
    }
    let bins = collect_declared(&tree.manifest.bin_names);
    if bins.len() > 0 {
        return dedup_names_exec(&bins);
    }
    match &tree.manifest.package_name {
        Some(n) => {
            let mut r: Vec<String> = Vec::new();
            r.push(n.clone());
            proof {
                assert(names_view(r@) =~= candidates_of(tree@));
            }
            r
        },
        None => {
            let r: Vec<String> = Vec::new();
            proof {
                assert(names_view(r@) =~= candidates_of(tree@));
            }
            r
        },
    }
}

/// The view of the i-th member tree is the i-th member view.
proof fn lemma_member_tree_views_index(ts: Seq<Option<ManifestTree>>, i: int)
    requires
        0 <= i < ts.len(),
    ensures
        member_tree_views(ts).len() == ts.len(),
        member_tree_views(ts)[i] == match ts[i] {
            Some(t) => Some(tree_view(t)),
            None => None::<TreeView>,
        },
    decreases ts,
{
    if ts.len() > 0 {
        lemma_member_tree_views_len(ts.drop_last());
        if i < ts.len() - 1 {
            lemma_member_tree_views_index(ts.drop_last(), i);
            assert(ts.drop_last()[i] == ts[i]);
        } else {
            assert(ts.last() == ts[i]);
        }
    }
}

/// Workspace expansion keeps the member count.
proof fn lemma_member_tree_views_len(ts: Seq<Option<ManifestTree>>)
    ensures
        member_tree_views(ts).len() == ts.len(),
    decreases ts,
{
    if ts.len() > 0 {
        lemma_member_tree_views_len(ts.drop_last());
    }
}

/// The candidates of the tree whose root manifest is read out of the given
/// text and whose members are the given trees.
pub open spec fn parsed_candidates(toml: Seq<char>, members: Seq<Option<TreeView>>) -> Seq<
    Seq<char>,
> {
    candidates_of(TreeView { manifest: parsed_manifest(toml)->Some_0, members })
}

/// Reads a manifest out of the given text and resolves the candidate binary
/// names of the tree it roots, with the given member trees standing for the
/// workspace members. Returns the candidates in precedence order, or a
/// `ManifestParseError` when the text is not a well-formed document.
pub fn get_binary_name(toml: &str, member_trees: Vec<Option<ManifestTree>>) -> (r: Result<
    Vec<String>,
    Error,
>)
    ensures
        r is Ok <==> parsed_manifest(toml@) is Some,
        r matches Ok(names) ==> names_view(names@) == parsed_candidates(
            toml@,
            member_tree_views(member_trees@),
        ),
        r matches Err(e) ==> e@.kind == ErrorKind::ManifestParseError,
{
    match parse_manifest(toml) {
        Ok(m) => {
            let tree = ManifestTree { manifest: m, member_trees };
            Ok(resolve_candidates(&tree))
        },
        Err(e) => Err(e),
    }
}

/// Dropping later occurrences leaves no name twice.
proof fn lemma_dedup_names_distinct(names: Seq<Seq<char>>)
    ensures
        dedup_names(names).no_duplicates(),
    decreases names,
{
    if names.len() > 0 {
        lemma_dedup_names_distinct(names.drop_last());
        let rest = dedup_names(names.drop_last());
        if !rest.contains(names.last()) {
            let d = rest + seq![names.last()];
            assert forall|i: int, j: int|
                0 <= i < d.len() && 0 <= j < d.len() && i != j implies d[i] != d[j] by {
                if i < rest.len() && j < rest.len() {
                    assert(d[i] == rest[i]);
                    assert(d[j] == rest[j]);
                } else if i < rest.len() {
                    assert(d[i] == rest[i]);
                    assert(d[j] == names.last());
                } else {
                    assert(d[i] == names.last());
                    assert(d[j] == rest[j]);
                }
            }
        }
    }
}

/// Law: the candidate set of a manifest tree holds no name twice: of several
/// occurrences of one name, only the first stays.
pub proof fn lemma_candidates_distinct(t: TreeView)
    ensures
        candidates_of(t).no_duplicates(),
{
    let ws = member_candidates(t.members);
    let bins = declared_names(t.manifest.bin_names);
    if ws.len() > 0 {
        lemma_dedup_names_distinct(ws);
    } else if bins.len() > 0 {
        lemma_dedup_names_distinct(bins);
    }
}

/// Law: where workspace expansion yields at least one candidate, it alone
/// decides the candidate set; declared binary names and the package name are
/// ignored, and of the expanded names each keeps its first occurrence.
pub proof fn lemma_workspace_precedence(t: TreeView)
    requires
        member_candidates(t.members).len() >= 1,
    ensures
        candidates_of(t) == dedup_names(member_candidates(t.members)),
{
}

/// Law: a manifest without workspace members whose binary-target entries
/// declare no name falls back to the package name: it yields exactly that one
/// candidate.
pub proof fn lemma_package_fallback(t: TreeView)
    requires
        t.members.len() == 0,
        t.manifest.bin_names.len() == 0,
        t.manifest.package_name is Some,
    ensures
        candidates_of(t) == seq![t.manifest.package_name->Some_0],
{
    assert(member_candidates(t.members).len() == 0);
    assert(declared_names(t.manifest.bin_names).len() == 0);
}

} // verus!
