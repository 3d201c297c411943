//! What holds of every built tree, proved once and for all.

use crate::builder::{spec_build, spec_build_children};
use crate::filter::skip_name;
use crate::node::{
    descendants_unfiltered, node_wf, nodes_wf, trees_unfiltered, FileNode, NodeView,
};
use crate::snapshot::{ListingOutcome, RawChild, RawEntry};
use vstd::prelude::*;

verus! {

/// A build succeeds exactly when the root's own listing did not fail.
pub proof fn lemma_build_succeeds(raw: RawEntry)
    ensures
        spec_build(raw) is Some <==> !raw.listing_failed(),
{
}

/// Building a directory snapshot that succeeds yields a directory node
/// with children present, under the snapshot's own name and path.
pub proof fn lemma_build_directory(raw: RawEntry)
    requires
        raw matches RawEntry::Dir { .. },
    ensures
        spec_build(raw) matches Some(v) ==> v.is_directory && v.children is Some
            && v.name == raw.spec_name() && v.path == raw.spec_path(),
{
}

/// Building a file snapshot always succeeds and yields exactly one
/// childless non-directory node with the snapshot's name and path.
pub proof fn lemma_build_file(raw: RawEntry)
    requires
        raw matches RawEntry::File { .. },
    ensures
        spec_build(raw) == Some(
            NodeView {
                name: raw.spec_name(),
                path: raw.spec_path(),
                is_directory: false,
                children: Option::<Seq<NodeView>>::None,
            },
        ),
{
}

/// Appending a node to a sequence keeps the sequence well formed
/// exactly when both parts are.
proof fn lemma_nodes_wf_push(cs: Seq<NodeView>, v: NodeView)
    ensures
        nodes_wf(cs.push(v)) == (nodes_wf(cs) && node_wf(v)),
{
    assert(cs.push(v).drop_last() =~= cs);
    assert(cs.push(v).last() == v);
}

/// The kept children of any listing form a sequence of well-formed trees.
proof fn lemma_build_children_wf(cs: Seq<RawChild>)
    ensures
        nodes_wf(spec_build_children(cs)),
    decreases cs,
{
    if cs.len() > 0 {
        lemma_build_children_wf(cs.drop_last());
        match cs.last() {
            RawChild::Unreadable(_) => {},
            RawChild::Found(e) => {
                if !skip_name(e.spec_name()) {
                    lemma_build_wf(e);
                    match spec_build(e) {
                        Option::None => {},
                        Option::Some(v) => {
                            lemma_nodes_wf_push(spec_build_children(cs.drop_last()), v);
                        },
                    }
                }
            },
        }
    }
}

/// Every tree a build yields is well formed: at every depth, children
/// are present if and only if the node is a directory.
pub proof fn lemma_build_wf(raw: RawEntry)
    ensures
        spec_build(raw) matches Some(v) ==> node_wf(v),
    decreases raw,
{
    match raw {
        RawEntry::File { .. } => {},
        RawEntry::Dir { listing, .. } => match listing {
            ListingOutcome::Failed(_) => {},
            ListingOutcome::Listed(cs) => {
                lemma_build_children_wf(cs@);
            },
        },
    }
}

/// Appending a tree to a sequence keeps the sequence filter-clean
/// exactly when both parts are.
proof fn lemma_trees_unfiltered_push(cs: Seq<NodeView>, v: NodeView)
    ensures
        trees_unfiltered(cs.push(v)) == (trees_unfiltered(cs) && !skip_name(v.name)
            && descendants_unfiltered(v)),
{
    assert(cs.push(v).drop_last() =~= cs);
    assert(cs.push(v).last() == v);
}

/// No kept child of any listing carries a filtered name, at any depth.
proof fn lemma_build_children_unfiltered(cs: Seq<RawChild>)
    ensures
        trees_unfiltered(spec_build_children(cs)),
    decreases cs,
{
    if cs.len() > 0 {
        lemma_build_children_unfiltered(cs.drop_last());
        match cs.last() {
            RawChild::Unreadable(_) => {},
            RawChild::Found(e) => {
                if !skip_name(e.spec_name()) {
                    lemma_build_unfiltered(e);
                    match spec_build(e) {
                        Option::None => {},
                        Option::Some(v) => {
                            lemma_trees_unfiltered_push(spec_build_children(cs.drop_last()), v);
                        },
                    }
                }
            },
        }
    }
}

/// No strict descendant of a built tree carries a filtered name: a name
/// starting with `.`, or equal to `node_modules` or `target`, appears
/// nowhere below the root. The root keeps the snapshot's own name.
pub proof fn lemma_build_unfiltered(raw: RawEntry)
    ensures
        spec_build(raw) matches Some(v) ==> descendants_unfiltered(v) && v.name
            == raw.spec_name(),
    decreases raw,
{
    match raw {
        RawEntry::File { .. } => {},
        RawEntry::Dir { listing, .. } => match listing {
            ListingOutcome::Failed(_) => {},
            ListingOutcome::Listed(cs) => {
                lemma_build_children_unfiltered(cs@);
            },
        },
    }
}

/// When the snapshot's root is itself not a filtered name, no node of
/// the built tree, the root included, carries one.
pub proof fn lemma_build_no_filtered_name(raw: RawEntry)
    requires
        !skip_name(raw.spec_name()),
    ensures
        spec_build(raw) matches Some(v) ==> !skip_name(v.name) && descendants_unfiltered(v),
{
    lemma_build_unfiltered(raw);
}

/// Building is a function of the snapshot alone: two builds of one
/// unchanged snapshot yield structurally identical trees.
pub proof fn lemma_build_idempotent(raw: RawEntry, n1: FileNode, n2: FileNode)
    requires
        Some(n1@) == spec_build(raw),
        Some(n2@) == spec_build(raw),
    ensures
        n1@ == n2@,
{
}

/// A member that could not be read contributes nothing: the kept
/// children are exactly those of the listing without it.
pub proof fn lemma_unreadable_child_omitted(cs: Seq<RawChild>, j: int)
    requires
        0 <= j < cs.len(),
        cs[j] matches RawChild::Unreadable(_),
    ensures
        spec_build_children(cs) == spec_build_children(cs.remove(j)),
    decreases cs,
{
    if j == cs.len() - 1 {
        assert(cs.remove(j) =~= cs.drop_last());
    } else {
        lemma_unreadable_child_omitted(cs.drop_last(), j);
        assert(cs.remove(j).drop_last() =~= cs.drop_last().remove(j));
        assert(cs.remove(j).last() == cs.last());
    }
}

/// A member that was readable, is not filtered, and builds, is kept:
/// its tree stands among the directory's children.
pub proof fn lemma_valid_child_kept(cs: Seq<RawChild>, j: int, e: RawEntry, v: NodeView)
    requires
        0 <= j < cs.len(),
        cs[j] == RawChild::Found(e),
        !skip_name(e.spec_name()),
        spec_build(e) == Some(v),
    ensures
        spec_build_children(cs).contains(v),
    decreases cs,
{
    let rest = spec_build_children(cs.drop_last());
    if j == cs.len() - 1 {
        assert(spec_build_children(cs)[rest.len() as int] == v);
    } else {
        lemma_valid_child_kept(cs.drop_last(), j, e, v);
        let i = choose|i: int| 0 <= i < rest.len() && rest[i] == v;
        assert(spec_build_children(cs)[i] == v);
    }
}

} // verus!
