//! The produced tree: one record per filesystem entry that was kept.

use crate::filter::skip_name;
use vstd::prelude::*;

verus! {

/// One entry of the built tree.
///
/// `children` is present exactly when `is_directory` is true; for a
/// directory it holds one fully built node per kept member, in the order
/// the members were listed.
pub struct FileNode {
    pub name: String,
    pub path: String,
    pub is_directory: bool,
    pub children: Option<Vec<FileNode>>,
}

/// The mathematical image of a [`FileNode`]: the same shape over
/// sequences of characters.
pub struct NodeView {
    pub name: Seq<char>,
    pub path: Seq<char>,
    pub is_directory: bool,
    pub children: Option<Seq<NodeView>>,
}

/// The image of a node.
pub open spec fn node_view(n: FileNode) -> NodeView
    decreases n,
{
    NodeView {
        name: n.name@,
        path: n.path@,
        is_directory: n.is_directory,
        children: match n.children {
            Option::None => Option::None,
            Option::Some(cs) => Option::Some(nodes_view(cs@)),
        },
    }
}

/// The image of a sequence of nodes, element by element.
pub open spec fn nodes_view(cs: Seq<FileNode>) -> Seq<NodeView>
    decreases cs,
{
    if cs.len() == 0 {
        Seq::empty()
    } else {
        nodes_view(cs.drop_last()).push(node_view(cs.last()))
    }
}

impl View for FileNode {
    type V = NodeView;

    open spec fn view(&self) -> NodeView {
        node_view(*self)
    }
}

/// Well-formedness of a built tree: at every depth, `children` is
/// present if and only if the node is a directory.
pub open spec fn node_wf(v: NodeView) -> bool
    decreases v,
{
    &&& (v.children is Some <==> v.is_directory)
    &&& match v.children {
        Option::None => true,
        Option::Some(cs) => nodes_wf(cs),
    }
}

/// Well-formedness of every tree in a sequence.
pub open spec fn nodes_wf(cs: Seq<NodeView>) -> bool
    decreases cs,
{
    cs.len() == 0 || (nodes_wf(cs.drop_last()) && node_wf(cs.last()))
}

/// No strict descendant of `v` carries a filtered name. The name of `v`
/// itself is not constrained: the filter never applies to the root a
/// caller asked for.
pub open spec fn descendants_unfiltered(v: NodeView) -> bool
    decreases v,
{
    match v.children {
        Option::None => true,
        Option::Some(cs) => trees_unfiltered(cs),
    }
}

/// Every tree in the sequence has an unfiltered root name and no
/// filtered name below it.
pub open spec fn trees_unfiltered(cs: Seq<NodeView>) -> bool
    decreases cs,
{
    cs.len() == 0 || (trees_unfiltered(cs.drop_last()) && !skip_name(cs.last().name)
        && descendants_unfiltered(cs.last()))
}

/// Pushing a node onto a sequence pushes its image onto the image.
pub proof fn lemma_nodes_view_push(cs: Seq<FileNode>, n: FileNode)
    ensures
        nodes_view(cs.push(n)) == nodes_view(cs).push(node_view(n)),
{
    assert(cs.push(n).drop_last() =~= cs);
    assert(cs.push(n).last() == n);
}

} // verus!
