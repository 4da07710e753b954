//! The tree that the node records spell out, as a mathematical value.

use vstd::prelude::*;
use super::{Split, ViewportInfo, ViewportNode, ViewportNodeID};

verus! {

/// A viewport tree. It exists in specifications and proofs only.
pub enum ViewportTree {
    Leaf { id: ViewportNodeID, info: ViewportInfo },
    Split { id: ViewportNodeID, split: Split, first: Box<ViewportTree>, second: Box<ViewportTree> },
}

impl ViewportTree {
    pub open spec fn id(self) -> ViewportNodeID {
        match self {
            ViewportTree::Leaf { id, .. } => id,
            ViewportTree::Split { id, .. } => id,
        }
    }

    /// Some node of the tree has the identifier `x`.
    pub open spec fn contains(self, x: ViewportNodeID) -> bool
        decreases self,
    {
        match self {
            ViewportTree::Leaf { id, .. } => id == x,
            ViewportTree::Split { id, first, second, .. } => id == x || first.contains(x)
                || second.contains(x),
        }
    }

    /// The identifiers of the nodes of the tree.
    pub open spec fn id_set(self) -> Set<ViewportNodeID> {
        Set::new(|x: ViewportNodeID| self.contains(x))
    }

    /// Some leaf of the tree has the identifier `x`.
    pub open spec fn has_leaf(self, x: ViewportNodeID) -> bool
        decreases self,
    {
        match self {
            ViewportTree::Leaf { id, .. } => id == x,
            ViewportTree::Split { first, second, .. } => first.has_leaf(x) || second.has_leaf(x),
        }
    }

    /// No identifier occurs twice.
    pub open spec fn distinct(self) -> bool
        decreases self,
    {
        match self {
            ViewportTree::Leaf { .. } => true,
            ViewportTree::Split { id, first, second, .. } => {
                &&& !first.contains(id)
                &&& !second.contains(id)
                &&& first.distinct()
                &&& second.distinct()
                &&& forall|x: ViewportNodeID| !(first.contains(x) && second.contains(x))
            },
        }
    }

    /// The identifiers in the order of a walk from the root: a node, then
    /// all of its first child, then all of its second child.
    pub open spec fn ids(self) -> Seq<ViewportNodeID>
        decreases self,
    {
        match self {
            ViewportTree::Leaf { id, .. } => seq![id],
            ViewportTree::Split { id, first, second, .. } => seq![id] + first.ids() + second.ids(),
        }
    }

    /// The record that the root of this tree has when it hangs below `parent`.
    pub open spec fn record(self, parent: Option<ViewportNodeID>) -> ViewportNode {
        match self {
            ViewportTree::Leaf { info, .. } => ViewportNode::Whole { parent, info },
            ViewportTree::Split { split, first, second, .. } => ViewportNode::Split {
                parent,
                split,
                children: (first.id(), second.id()),
            },
        }
    }

    /// Every node of the tree has its record in `nodes`, with the parent and
    /// the children that the tree gives it.
    pub open spec fn agrees(
        self,
        nodes: Map<ViewportNodeID, ViewportNode>,
        parent: Option<ViewportNodeID>,
    ) -> bool
        decreases self,
    {
        &&& nodes.contains_key(self.id())
        &&& nodes[self.id()] == self.record(parent)
        &&& match self {
            ViewportTree::Leaf { .. } => true,
            ViewportTree::Split { id, first, second, .. } => first.agrees(nodes, Some(id))
                && second.agrees(nodes, Some(id)),
        }
    }

    /// The subtree whose root is `target`. It means something only where
    /// the tree contains `target`.
    pub open spec fn subtree(self, target: ViewportNodeID) -> ViewportTree
        decreases self,
    {
        if self.id() == target {
            self
        } else {
            match self {
                ViewportTree::Leaf { .. } => self,
                ViewportTree::Split { first, second, .. } => if first.contains(target) {
                    first.subtree(target)
                } else {
                    second.subtree(target)
                },
            }
        }
    }

    /// The parent of the node `target`, where this tree hangs below `parent`.
    pub open spec fn parent_of(
        self,
        target: ViewportNodeID,
        parent: Option<ViewportNodeID>,
    ) -> Option<ViewportNodeID>
        decreases self,
    {
        if self.id() == target {
            parent
        } else {
            match self {
                ViewportTree::Leaf { .. } => parent,
                ViewportTree::Split { id, first, second, .. } => if first.contains(target) {
                    first.parent_of(target, Some(id))
                } else {
                    second.parent_of(target, Some(id))
                },
            }
        }
    }

    /// The tree with the subtree at `target` exchanged for `sub`.
    pub open spec fn replace(self, target: ViewportNodeID, sub: ViewportTree) -> ViewportTree
        decreases self,
    {
        if self.id() == target {
            sub
        } else {
            match self {
                ViewportTree::Leaf { .. } => self,
                ViewportTree::Split { id, split, first, second } => ViewportTree::Split {
                    id,
                    split,
                    first: Box::new(first.replace(target, sub)),
                    second: Box::new(second.replace(target, sub)),
                },
            }
        }
    }

    /// The same nodes with the same splits; only what the leaves show may
    /// differ.
    pub open spec fn same_shape(self, other: ViewportTree) -> bool
        decreases self,
    {
        match self {
            ViewportTree::Leaf { id, .. } => other matches ViewportTree::Leaf { id: id2, .. } && id2
                == id,
            ViewportTree::Split { id, split, first, second } => {
                &&& other matches ViewportTree::Split {
                    id: id2,
                    split: split2,
                    first: first2,
                    second: second2,
                }
                &&& id2 == id && split2 == split
                &&& first.same_shape(*first2)
                &&& second.same_shape(*second2)
            },
        }
    }
}


/// A leaf of the tree is a node of the tree.
pub proof fn lemma_has_leaf_contains(t: ViewportTree, x: ViewportNodeID)
    requires
        t.has_leaf(x),
    ensures
        t.contains(x),
    decreases t,
{
    match t {
        ViewportTree::Leaf { .. } => {},
        ViewportTree::Split { first, second, .. } => {
            if first.has_leaf(x) {
                lemma_has_leaf_contains(*first, x);
            } else {
                lemma_has_leaf_contains(*second, x);
            }
        },
    }
}

/// The subtree at a node of the tree has that node as its root and lies
/// within the tree.
pub proof fn lemma_subtree(t: ViewportTree, x: ViewportNodeID)
    requires
        t.contains(x),
    ensures
        t.subtree(x).id() == x,
        forall|y: ViewportNodeID| #[trigger] t.subtree(x).contains(y) ==> t.contains(y),
        forall|y: ViewportNodeID| #[trigger] t.subtree(x).has_leaf(y) ==> t.has_leaf(y),
        t.distinct() ==> t.subtree(x).distinct(),
        t.distinct() ==> (t.has_leaf(x) <==> t.subtree(x) is Leaf),
    decreases t,
{
    if t.id() == x {
        if t.distinct() && t.has_leaf(x) {
            match t {
                ViewportTree::Leaf { .. } => {},
                ViewportTree::Split { first, second, .. } => {
                    if first.has_leaf(x) {
                        lemma_has_leaf_contains(*first, x);
                    } else {
                        lemma_has_leaf_contains(*second, x);
                    }
                },
            }
        }
    } else {
        match t {
            ViewportTree::Leaf { .. } => {},
            ViewportTree::Split { first, second, .. } => {
                if first.contains(x) {
                    lemma_subtree(*first, x);
                    if t.distinct() && second.has_leaf(x) {
                        lemma_has_leaf_contains(*second, x);
                    }
                } else {
                    lemma_subtree(*second, x);
                    if t.distinct() && first.has_leaf(x) {
                        lemma_has_leaf_contains(*first, x);
                    }
                }
            },
        }
    }
}

/// Where the tree agrees with the records, the record of each of its nodes
/// is the one that the subtree at that node asks for.
pub proof fn lemma_agrees_lookup(
    t: ViewportTree,
    nodes: Map<ViewportNodeID, ViewportNode>,
    parent: Option<ViewportNodeID>,
    x: ViewportNodeID,
)
    requires
        t.agrees(nodes, parent),
        t.contains(x),
    ensures
        nodes.contains_key(x),
        nodes[x] == t.subtree(x).record(t.parent_of(x, parent)),
        t.subtree(x).agrees(nodes, t.parent_of(x, parent)),
    decreases t,
{
    if t.id() != x {
        match t {
            ViewportTree::Leaf { .. } => {},
            ViewportTree::Split { id, first, second, .. } => {
                if first.contains(x) {
                    lemma_agrees_lookup(*first, nodes, Some(id), x);
                } else {
                    lemma_agrees_lookup(*second, nodes, Some(id), x);
                }
            },
        }
    }
}

/// Agreement looks only at the records of the tree's own nodes.
pub proof fn lemma_agrees_stable(
    t: ViewportTree,
    nodes: Map<ViewportNodeID, ViewportNode>,
    nodes2: Map<ViewportNodeID, ViewportNode>,
    parent: Option<ViewportNodeID>,
)
    requires
        t.agrees(nodes, parent),
        forall|x: ViewportNodeID| #[trigger]
            t.contains(x) ==> nodes2.contains_key(x) && nodes2[x] == nodes[x],
    ensures
        t.agrees(nodes2, parent),
    decreases t,
{
    assert(t.contains(t.id()));
    match t {
        ViewportTree::Leaf { .. } => {},
        ViewportTree::Split { id, first, second, .. } => {
            assert forall|x: ViewportNodeID| #[trigger] first.contains(x) implies nodes2.contains_key(x)
                && nodes2[x] == nodes[x] by {
                assert(t.contains(x));
            }
            assert forall|x: ViewportNodeID| #[trigger] second.contains(x) implies nodes2.contains_key(x)
                && nodes2[x] == nodes[x] by {
                assert(t.contains(x));
            }
            lemma_agrees_stable(*first, nodes, nodes2, Some(id));
            lemma_agrees_stable(*second, nodes, nodes2, Some(id));
        },
    }
}

/// Exchanging the subtree at a node that the tree does not have changes
/// nothing.
pub proof fn lemma_replace_absent(t: ViewportTree, target: ViewportNodeID, sub: ViewportTree)
    requires
        !t.contains(target),
    ensures
        t.replace(target, sub) == t,
    decreases t,
{
    match t {
        ViewportTree::Leaf { .. } => {},
        ViewportTree::Split { first, second, .. } => {
            lemma_replace_absent(*first, target, sub);
            lemma_replace_absent(*second, target, sub);
        },
    }
}

/// The nodes and leaves after an exchange: those of the new subtree, and
/// those of the tree that were not in the old subtree.
pub proof fn lemma_replace(t: ViewportTree, target: ViewportNodeID, sub: ViewportTree)
    requires
        t.distinct(),
        t.contains(target),
        sub.id() == target,
    ensures
        t.replace(target, sub).id() == t.id(),
        forall|y: ViewportNodeID| #[trigger]
            t.replace(target, sub).contains(y) <==> sub.contains(y) || (t.contains(y)
                && !t.subtree(target).contains(y)),
        forall|y: ViewportNodeID| #[trigger]
            t.replace(target, sub).has_leaf(y) <==> sub.has_leaf(y) || (t.has_leaf(y)
                && !t.subtree(target).contains(y)),
    decreases t,
{
    let r = t.replace(target, sub);
    if t.id() == target {
        assert forall|y: ViewportNodeID| t.has_leaf(y) implies t.contains(y) by {
            lemma_has_leaf_contains(t, y);
        }
    } else {
        match t {
            ViewportTree::Leaf { .. } => {},
            ViewportTree::Split { id, first, second, .. } => {
                lemma_subtree(t, target);
                if first.contains(target) {
                    lemma_replace(*first, target, sub);
                    lemma_replace_absent(*second, target, sub);
                    lemma_subtree(*first, target);
                    assert forall|y: ViewportNodeID| #[trigger] second.has_leaf(y) implies second.contains(y) by {
                        lemma_has_leaf_contains(*second, y);
                    }
                    let f2 = first.replace(target, sub);
                    assert(r == ViewportTree::Split { id, split: t->split, first: Box::new(f2), second });
                    assert(t.subtree(target) == first.subtree(target));
                    assert forall|y: ViewportNodeID| #[trigger] r.contains(y) <==> sub.contains(y) || (t.contains(y)
                        && !t.subtree(target).contains(y)) by {
                        assert(first.subtree(target).contains(y) ==> first.contains(y));
                        assert(r.contains(y) <==> id == y || f2.contains(y) || second.contains(y));
                    }
                    assert forall|y: ViewportNodeID| #[trigger] r.has_leaf(y) <==> sub.has_leaf(y) || (t.has_leaf(y)
                        && !t.subtree(target).contains(y)) by {
                        assert(first.subtree(target).contains(y) ==> first.contains(y));
                        assert(r.has_leaf(y) <==> f2.has_leaf(y) || second.has_leaf(y));
                    }
                } else {
                    lemma_replace(*second, target, sub);
                    lemma_replace_absent(*first, target, sub);
                    lemma_subtree(*second, target);
                    assert forall|y: ViewportNodeID| #[trigger] first.has_leaf(y) implies first.contains(y) by {
                        lemma_has_leaf_contains(*first, y);
                    }
                    let s2 = second.replace(target, sub);
                    assert(r == ViewportTree::Split { id, split: t->split, first, second: Box::new(s2) });
                    assert(t.subtree(target) == second.subtree(target));
                    assert forall|y: ViewportNodeID| #[trigger] r.contains(y) <==> sub.contains(y) || (t.contains(y)
                        && !t.subtree(target).contains(y)) by {
                        assert(second.subtree(target).contains(y) ==> second.contains(y));
                        assert(r.contains(y) <==> id == y || first.contains(y) || s2.contains(y));
                    }
                    assert forall|y: ViewportNodeID| #[trigger] r.has_leaf(y) <==> sub.has_leaf(y) || (t.has_leaf(y)
                        && !t.subtree(target).contains(y)) by {
                        assert(second.subtree(target).contains(y) ==> second.contains(y));
                        assert(r.has_leaf(y) <==> first.has_leaf(y) || s2.has_leaf(y));
                    }
                }
            },
        }
    }
}

/// An exchange keeps the identifiers distinct where the new subtree's are,
/// and where it brings none that the rest of the tree already has.
pub proof fn lemma_replace_distinct(t: ViewportTree, target: ViewportNodeID, sub: ViewportTree)
    requires
        t.distinct(),
        t.contains(target),
        sub.id() == target,
        sub.distinct(),
        forall|y: ViewportNodeID|
            sub.contains(y) && #[trigger] t.contains(y) ==> t.subtree(target).contains(y),
    ensures
        t.replace(target, sub).distinct(),
    decreases t,
{
    if t.id() != target {
        match t {
            ViewportTree::Leaf { .. } => {},
            ViewportTree::Split { id, first, second, .. } => {
                lemma_subtree(t, target);
                if first.contains(target) {
                    lemma_subtree(*first, target);
                    assert forall|y: ViewportNodeID| sub.contains(y) && #[trigger] first.contains(y) implies first.subtree(
                        target,
                    ).contains(y) by {
                        assert(t.contains(y));
                    }
                    lemma_replace_distinct(*first, target, sub);
                    lemma_replace(*first, target, sub);
                    lemma_replace_absent(*second, target, sub);
                    let f2 = first.replace(target, sub);
                    assert forall|x: ViewportNodeID| !(f2.contains(x) && second.contains(x)) by {
                        if f2.contains(x) && second.contains(x) {
                            assert(t.contains(x));
                            assert(first.subtree(target).contains(x) ==> first.contains(x));
                        }
                    }
                    assert(!f2.contains(id)) by {
                        assert(t.contains(id));
                        assert(first.subtree(target).contains(id) ==> first.contains(id));
                    }
                } else {
                    lemma_subtree(*second, target);
                    assert forall|y: ViewportNodeID| sub.contains(y) && #[trigger] second.contains(y) implies second.subtree(
                        target,
                    ).contains(y) by {
                        assert(t.contains(y));
                    }
                    lemma_replace_distinct(*second, target, sub);
                    lemma_replace(*second, target, sub);
                    lemma_replace_absent(*first, target, sub);
                    let s2 = second.replace(target, sub);
                    assert forall|x: ViewportNodeID| !(first.contains(x) && s2.contains(x)) by {
                        if first.contains(x) && s2.contains(x) {
                            assert(t.contains(x));
                            assert(second.subtree(target).contains(x) ==> second.contains(x));
                        }
                    }
                    assert(!s2.contains(id)) by {
                        assert(t.contains(id));
                        assert(second.subtree(target).contains(id) ==> second.contains(id));
                    }
                }
            },
        }
    }
}

/// After an exchange the tree agrees with records that kept what was
/// outside the old subtree and that the new subtree agrees with.
pub proof fn lemma_replace_agrees(
    t: ViewportTree,
    parent: Option<ViewportNodeID>,
    nodes: Map<ViewportNodeID, ViewportNode>,
    nodes2: Map<ViewportNodeID, ViewportNode>,
    target: ViewportNodeID,
    sub: ViewportTree,
)
    requires
        t.agrees(nodes, parent),
        t.distinct(),
        t.contains(target),
        sub.id() == target,
        forall|x: ViewportNodeID| #[trigger]
            t.contains(x) && !t.subtree(target).contains(x) ==> nodes2.contains_key(x) && nodes2[x]
                == nodes[x],
        sub.agrees(nodes2, t.parent_of(target, parent)),
    ensures
        t.replace(target, sub).agrees(nodes2, parent),
    decreases t,
{
    if t.id() != target {
        match t {
            ViewportTree::Leaf { .. } => {},
            ViewportTree::Split { id, first, second, .. } => {
                lemma_subtree(t, target);
                assert(t.contains(id));
                if first.contains(target) {
                    lemma_subtree(*first, target);
                    assert(first.subtree(target).contains(id) ==> first.contains(id));
                    assert forall|x: ViewportNodeID| #[trigger]
                        first.contains(x) && !first.subtree(target).contains(x) implies nodes2.contains_key(
                        x,
                    ) && nodes2[x] == nodes[x] by {
                        assert(t.contains(x));
                    }
                    lemma_replace_agrees(*first, Some(id), nodes, nodes2, target, sub);
                    lemma_replace(*first, target, sub);
                    lemma_replace_absent(*second, target, sub);
                    assert forall|x: ViewportNodeID| #[trigger] second.contains(x) implies nodes2.contains_key(
                        x,
                    ) && nodes2[x] == nodes[x] by {
                        assert(t.contains(x));
                        assert(first.subtree(target).contains(x) ==> first.contains(x));
                    }
                    lemma_agrees_stable(*second, nodes, nodes2, Some(id));
                } else {
                    lemma_subtree(*second, target);
                    assert(second.subtree(target).contains(id) ==> second.contains(id));
                    assert forall|x: ViewportNodeID| #[trigger]
                        second.contains(x) && !second.subtree(target).contains(x) implies nodes2.contains_key(
                        x,
                    ) && nodes2[x] == nodes[x] by {
                        assert(t.contains(x));
                    }
                    lemma_replace_agrees(*second, Some(id), nodes, nodes2, target, sub);
                    lemma_replace(*second, target, sub);
                    lemma_replace_absent(*first, target, sub);
                    assert forall|x: ViewportNodeID| #[trigger] first.contains(x) implies nodes2.contains_key(
                        x,
                    ) && nodes2[x] == nodes[x] by {
                        assert(t.contains(x));
                        assert(second.subtree(target).contains(x) ==> second.contains(x));
                    }
                    lemma_agrees_stable(*first, nodes, nodes2, Some(id));
                }
            },
        }
    }
}

/// After an exchange, the new subtree is what hangs at the node.
pub proof fn lemma_replace_subtree(t: ViewportTree, target: ViewportNodeID, sub: ViewportTree)
    requires
        t.distinct(),
        t.contains(target),
        sub.id() == target,
    ensures
        t.replace(target, sub).subtree(target) == sub,
    decreases t,
{
    if t.id() != target {
        match t {
            ViewportTree::Leaf { .. } => {},
            ViewportTree::Split { first, second, .. } => {
                assert(sub.contains(target));
                if first.contains(target) {
                    lemma_replace_subtree(*first, target, sub);
                    lemma_replace(*first, target, sub);
                } else {
                    lemma_replace_subtree(*second, target, sub);
                    lemma_replace_absent(*first, target, sub);
                }
            },
        }
    }
}

/// A node other than the root has a parent in the tree: a split with the
/// node as one of its two children.
pub proof fn lemma_parent(t: ViewportTree, parent: Option<ViewportNodeID>, x: ViewportNodeID)
    requires
        t.distinct(),
        t.contains(x),
        t.id() != x,
    ensures
        t.parent_of(x, parent) is Some,
        t.contains(t.parent_of(x, parent)->0),
        t.subtree(t.parent_of(x, parent)->0) matches ViewportTree::Split { first, second, .. }
            && (first.id() == x || second.id() == x),
        t.subtree(t.parent_of(x, parent)->0).contains(x),
    decreases t,
{
    match t {
        ViewportTree::Leaf { .. } => {},
        ViewportTree::Split { id, first, second, .. } => {
            if first.contains(x) {
                if first.id() != x {
                    lemma_parent(*first, Some(id), x);
                }
            } else {
                if second.id() != x {
                    lemma_parent(*second, Some(id), x);
                }
            }
        },
    }
}

/// Trees of the same shape have the same nodes and the same leaves.
pub proof fn lemma_same_shape(a: ViewportTree, b: ViewportTree)
    requires
        a.same_shape(b),
    ensures
        a.id() == b.id(),
        a.ids() == b.ids(),
        a.distinct() == b.distinct(),
        forall|x: ViewportNodeID| #[trigger] a.contains(x) <==> b.contains(x),
        forall|x: ViewportNodeID| #[trigger] a.has_leaf(x) <==> b.has_leaf(x),
    decreases a,
{
    match a {
        ViewportTree::Leaf { .. } => {
            assert(b is Leaf);
            assert forall|x: ViewportNodeID| #[trigger] a.contains(x) <==> b.contains(x) by {}
            assert forall|x: ViewportNodeID| #[trigger] a.has_leaf(x) <==> b.has_leaf(x) by {}
        },
        ViewportTree::Split { first, second, .. } => {
            match b {
                ViewportTree::Leaf { .. } => {},
                ViewportTree::Split { first: first2, second: second2, .. } => {
                    lemma_same_shape(*first, *first2);
                    lemma_same_shape(*second, *second2);
                    assert forall|x: ViewportNodeID| #[trigger] a.contains(x) <==> b.contains(x) by {
                        assert(first.contains(x) <==> first2.contains(x));
                        assert(second.contains(x) <==> second2.contains(x));
                    }
                    assert forall|x: ViewportNodeID| #[trigger] a.has_leaf(x) <==> b.has_leaf(x) by {
                        assert(first.has_leaf(x) <==> first2.has_leaf(x));
                        assert(second.has_leaf(x) <==> second2.has_leaf(x));
                    }
                    assert(a.distinct() == b.distinct()) by {
                        assert(forall|x: ViewportNodeID| first.contains(x) <==> first2.contains(x));
                        assert(forall|x: ViewportNodeID| second.contains(x) <==> second2.contains(x));
                    }
                },
            }
        },
    }
}

/// Exchanging a leaf for a leaf of the same identifier keeps the shape.
pub proof fn lemma_replace_same_shape(t: ViewportTree, target: ViewportNodeID, sub: ViewportTree)
    requires
        t.has_leaf(target),
        t.distinct(),
        sub is Leaf,
        sub.id() == target,
    ensures
        t.same_shape(t.replace(target, sub)),
    decreases t,
{
    match t {
        ViewportTree::Leaf { .. } => {},
        ViewportTree::Split { id, first, second, .. } => {
            if first.has_leaf(target) {
                lemma_has_leaf_contains(*first, target);
                lemma_replace_same_shape(*first, target, sub);
                lemma_replace_absent(*second, target, sub);
                lemma_same_shape_refl(*second);
            } else {
                lemma_has_leaf_contains(*second, target);
                lemma_replace_same_shape(*second, target, sub);
                lemma_replace_absent(*first, target, sub);
                lemma_same_shape_refl(*first);
            }
        },
    }
}

/// A tree has its own shape.
pub proof fn lemma_same_shape_refl(t: ViewportTree)
    ensures
        t.same_shape(t),
    decreases t,
{
    match t {
        ViewportTree::Leaf { .. } => {},
        ViewportTree::Split { first, second, .. } => {
            lemma_same_shape_refl(*first);
            lemma_same_shape_refl(*second);
        },
    }
}

/// The walk from the root meets exactly the nodes of the tree, and meets
/// none twice exactly where the identifiers are distinct.
pub proof fn lemma_ids(t: ViewportTree)
    ensures
        forall|x: ViewportNodeID| #[trigger] t.ids().contains(x) <==> t.contains(x),
        t.ids().no_duplicates() <==> t.distinct(),
        t.ids().len() >= 1,
        t.ids()[0] == t.id(),
    decreases t,
{
    match t {
        ViewportTree::Leaf { id, .. } => {
            assert forall|x: ViewportNodeID| #[trigger] t.ids().contains(x) <==> t.contains(x) by {
                if t.contains(x) {
                    assert(t.ids()[0] == x);
                }
            }
        },
        ViewportTree::Split { id, first, second, .. } => {
            lemma_ids(*first);
            lemma_ids(*second);
            let a = first.ids();
            let b = second.ids();
            let s = t.ids();
            assert(s.len() == 1 + a.len() + b.len());
            assert(s[0] == id);
            assert(forall|i: int| 0 <= i < a.len() ==> s[1 + i] == a[i]);
            assert(forall|i: int| 0 <= i < b.len() ==> s[1 + a.len() + i] == b[i]);
            assert forall|x: ViewportNodeID| #[trigger] s.contains(x) <==> t.contains(x) by {
                if s.contains(x) {
                    let i = choose|i: int| 0 <= i < s.len() && s[i] == x;
                    if i == 0 {
                    } else if i < 1 + a.len() {
                        assert(a[i - 1] == x);
                        assert(a.contains(x));
                    } else {
                        assert(b[i - 1 - a.len()] == x);
                        assert(b.contains(x));
                    }
                }
                if t.contains(x) {
                    if id == x {
                        assert(s[0] == x);
                    } else if first.contains(x) {
                        assert(a.contains(x));
                        let i = choose|i: int| 0 <= i < a.len() && a[i] == x;
                        assert(s[1 + i] == x);
                    } else {
                        assert(b.contains(x));
                        let i = choose|i: int| 0 <= i < b.len() && b[i] == x;
                        assert(s[1 + a.len() + i] == x);
                    }
                }
            }
            if t.distinct() {
                assert forall|i: int, j: int| 0 <= i < s.len() && 0 <= j < s.len() && i != j implies s[i]
                    != s[j] by {
                    if s[i] == s[j] {
                        let x = s[i];
                        if i >= 1 && i < 1 + a.len() {
                            assert(a[i - 1] == x);
                            assert(a.contains(x));
                        }
                        if i >= 1 + a.len() {
                            assert(b[i - 1 - a.len()] == x);
                            assert(b.contains(x));
                        }
                        if j >= 1 && j < 1 + a.len() {
                            assert(a[j - 1] == x);
                            assert(a.contains(x));
                        }
                        if j >= 1 + a.len() {
                            assert(b[j - 1 - a.len()] == x);
                            assert(b.contains(x));
                        }
                    }
                }
            }
            if s.no_duplicates() {
                assert(!first.contains(id)) by {
                    if first.contains(id) {
                        assert(a.contains(id));
                        let i = choose|i: int| 0 <= i < a.len() && a[i] == id;
                        assert(s[1 + i] == s[0]);
                    }
                }
                assert(!second.contains(id)) by {
                    if second.contains(id) {
                        assert(b.contains(id));
                        let i = choose|i: int| 0 <= i < b.len() && b[i] == id;
                        assert(s[1 + a.len() + i] == s[0]);
                    }
                }
                assert(a.no_duplicates()) by {
                    assert forall|i: int, j: int| 0 <= i < a.len() && 0 <= j < a.len() && i != j implies a[i]
                        != a[j] by {
                        assert(s[1 + i] != s[1 + j]);
                    }
                }
                assert(b.no_duplicates()) by {
                    assert forall|i: int, j: int| 0 <= i < b.len() && 0 <= j < b.len() && i != j implies b[i]
                        != b[j] by {
                        assert(s[1 + a.len() + i] != s[1 + a.len() + j]);
                    }
                }
                assert forall|x: ViewportNodeID| !(first.contains(x) && second.contains(x)) by {
                    if first.contains(x) && second.contains(x) {
                        assert(a.contains(x));
                        assert(b.contains(x));
                        let i = choose|i: int| 0 <= i < a.len() && a[i] == x;
                        let j = choose|j: int| 0 <= j < b.len() && b[j] == x;
                        assert(s[1 + i] == s[1 + a.len() + j]);
                    }
                }
            }
        },
    }
}

} // verus!
