//! The tree builder: from a snapshot to a `FileNode` tree.
//!
//! The build fails only when the listing of the snapshot's root failed.
//! Below the root, a member is left out when its name is filtered, when
//! its metadata could not be read, or when its own listing failed; its
//! siblings are kept either way.

use crate::filter::{should_skip, skip_name};
use crate::node::{lemma_nodes_view_push, nodes_view, FileNode, NodeView};
use crate::snapshot::{ListingOutcome, RawChild, RawEntry};
use vstd::prelude::*;

verus! {

/// What building a snapshot yields: the finished tree, or nothing when
/// the root's own listing failed.
pub open spec fn spec_build(raw: RawEntry) -> Option<NodeView>
    decreases raw,
{
    match raw {
        RawEntry::File { name, path } => Option::Some(
            NodeView {
                name: name@,
                path: path@,
                is_directory: false,
                children: Option::None,
            },
        ),
        RawEntry::Dir { name, path, listing } => match listing {
            ListingOutcome::Failed(_) => Option::None,
            ListingOutcome::Listed(cs) => Option::Some(
                NodeView {
                    name: name@,
                    path: path@,
                    is_directory: true,
                    children: Option::Some(spec_build_children(cs@)),
                },
            ),
        },
    }
}

/// The kept children of a listed directory, in listing order: one built
/// tree per member that is not filtered, was readable, and whose own
/// build succeeded.
pub open spec fn spec_build_children(cs: Seq<RawChild>) -> Seq<NodeView>
    decreases cs,
{
    if cs.len() == 0 {
        Seq::empty()
    } else {
        let rest = spec_build_children(cs.drop_last());
        match cs.last() {
            RawChild::Unreadable(_) => rest,
            RawChild::Found(e) => if skip_name(e.spec_name()) {
                rest
            } else {
                match spec_build(e) {
                    Option::None => rest,
                    Option::Some(v) => rest.push(v),
                }
            },
        }
    }
}

/// Builds the tree for one snapshot.
///
/// Succeeds for every snapshot but a directory whose own listing
/// failed; in that case the listing's message is returned and no node
/// is. The tree of a successful build is exactly `spec_build` of the
/// snapshot.
pub fn build_file_tree(raw: &RawEntry) -> (r: Result<FileNode, String>)
    ensures
        match spec_build(*raw) {
            Option::Some(v) => r matches Ok(n) && n@ == v,
            Option::None => r matches Err(m) && m@ == raw.failure_message(),
        },
    decreases *raw,
{
    match raw {
        RawEntry::File { name, path } => Ok(
            FileNode {
                name: name.clone(),
                path: path.clone(),
                is_directory: false,
                children: Option::None,
            },
        ),
        RawEntry::Dir { name, path, listing } => match listing {
            ListingOutcome::Failed(m) => Err(m.clone()),
            ListingOutcome::Listed(cs) => {
                let children = build_children(cs);
                Ok(
                    FileNode {
                        name: name.clone(),
                        path: path.clone(),
                        is_directory: true,
                        children: Option::Some(children),
                    },
                )
            },
        },
    }
}

/// Builds the kept children of a listed directory, in listing order.
fn build_children(cs: &Vec<RawChild>) -> (out: Vec<FileNode>)
    ensures
        nodes_view(out@) == spec_build_children(cs@),
    decreases *cs,
{
    let mut out: Vec<FileNode> = Vec::new();
    let n = cs.len();
    for i in 0..n
        invariant
            n == cs@.len(),
            nodes_view(out@) == spec_build_children(cs@.subrange(0, i as int)),
        decreases n - i,
    {
        proof {
            assert(cs@.subrange(0, i + 1).drop_last() =~= cs@.subrange(0, i as int));
            assert(cs@.subrange(0, i + 1).last() == cs@[i as int]);
        }
        match &cs[i] {
            RawChild::Unreadable(_) => {},
            RawChild::Found(e) => {
                let skip = match e {
                    RawEntry::File { name, .. } => should_skip(name),
                    RawEntry::Dir { name, .. } => should_skip(name),
                };
                if !skip {
                    match build_file_tree(e) {
                        Ok(child) => {
                            proof {
                                lemma_nodes_view_push(out@, child);
                            }
                            out.push(child);
                        },
                        Err(_) => {},
                    }
                }
            },
        }
    }
    proof {
        assert(cs@.subrange(0, n as int) =~= cs@);
    }
    out
}

} // verus!
