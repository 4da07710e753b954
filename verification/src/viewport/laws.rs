//! Laws of the viewport tree, stated over its mathematical view.

use vstd::prelude::*;
use crate::math::Rgba;
use super::tree::{
    lemma_agrees_lookup, lemma_has_leaf_contains, lemma_ids, lemma_parent, lemma_replace,
    lemma_replace_absent, lemma_replace_agrees, lemma_replace_distinct, lemma_replace_subtree,
    lemma_subtree, ViewportTree,
};
use super::visit::{calls, lemma_calls_match_records};
use super::{SplitDirection, ViewportDBView, ViewportInfo, ViewportNodeID};

verus! {

/// One operation on the tree.
#[allow(inconsistent_fields)]
pub enum ViewportOp {
    Split { direction: SplitDirection, color: Rgba },
    Merge,
    Focus { id: ViewportNodeID },
    Hover { id: Option<ViewportNodeID> },
}

impl ViewportDBView {
    /// The state after one operation.
    pub open spec fn step(self, op: ViewportOp) -> ViewportDBView {
        match op {
            ViewportOp::Split { direction, color } => self.split(direction, color),
            ViewportOp::Merge => self.merge(),
            ViewportOp::Focus { id } => ViewportDBView { focused: id, ..self },
            ViewportOp::Hover { id } => ViewportDBView { hovered: id, ..self },
        }
    }

    /// The operation may be called: a split needs two identifiers that are
    /// still free, and the focus and the pointer can only go to a leaf.
    pub open spec fn allows(self, op: ViewportOp) -> bool {
        match op {
            ViewportOp::Split { .. } => self.highest_id.0 <= u32::MAX - 2,
            ViewportOp::Merge => true,
            ViewportOp::Focus { id } => self.tree.has_leaf(id),
            ViewportOp::Hover { id } => id is Some ==> self.tree.has_leaf(id->0),
        }
    }

    /// The state after the operations `ops`, in order.
    pub open spec fn run(self, ops: Seq<ViewportOp>) -> ViewportDBView
        decreases ops.len(),
    {
        if ops.len() == 0 {
            self
        } else {
            self.run(ops.drop_last()).step(ops.last())
        }
    }

    /// Every one of the operations `ops` may be called in the state that it
    /// is called in.
    pub open spec fn allows_all(self, ops: Seq<ViewportOp>) -> bool
        decreases ops.len(),
    {
        ops.len() == 0 || (self.allows_all(ops.drop_last()) && self.run(ops.drop_last()).allows(
            ops.last(),
        ))
    }
}

/// The focus is on a leaf: its record is a `Whole`, and it shows what the
/// tree's leaf shows.
pub proof fn lemma_focus_is_leaf(v: ViewportDBView)
    requires
        v.wf(),
    ensures
        v.nodes.contains_key(v.focused),
        v.nodes[v.focused] is Whole,
        v.tree.contains(v.focused),
        v.tree.subtree(v.focused) == (ViewportTree::Leaf {
            id: v.focused,
            info: v.leaf_info(v.focused),
        }),
        v.nodes[v.focused].parent() == v.tree.parent_of(v.focused, None),
        v.focused == v.root <==> v.nodes[v.focused].parent() is None,
{
    lemma_leaf_record(v, v.focused);
}

/// The record of a leaf of the tree is a `Whole`, and only the root's has
/// no parent.
pub proof fn lemma_leaf_record(v: ViewportDBView, id: ViewportNodeID)
    requires
        v.wf(),
        v.tree.has_leaf(id),
    ensures
        v.nodes.contains_key(id),
        v.nodes[id] is Whole,
        v.tree.contains(id),
        v.tree.subtree(id) == (ViewportTree::Leaf { id, info: v.leaf_info(id) }),
        v.nodes[id].parent() == v.tree.parent_of(id, None),
        id == v.root <==> v.nodes[id].parent() is None,
{
    lemma_has_leaf_contains(v.tree, id);
    lemma_agrees_lookup(v.tree, v.nodes, None, id);
    lemma_subtree(v.tree, id);
    if id != v.root {
        lemma_parent(v.tree, None, id);
    }
}

/// The parent of a leaf other than the root is a split of the tree with the
/// leaf as one of its two children.
pub proof fn lemma_parent_record(v: ViewportDBView, id: ViewportNodeID)
    requires
        v.wf(),
        v.tree.contains(id),
        id != v.root,
    ensures
        v.nodes.contains_key(id),
        v.has_parent_naming_it(id),
        ({
            let p = v.nodes[id].parent()->0;
            let children = v.nodes[p]->children;
            &&& v.tree.contains(p)
            &&& children.0 != children.1
            &&& v.tree.contains(children.0)
            &&& v.tree.contains(children.1)
            &&& v.tree.subtree(p) is Split
            &&& v.tree.subtree(p)->first.id() == children.0
            &&& v.tree.subtree(p)->second.id() == children.1
        }),
{
    lemma_agrees_lookup(v.tree, v.nodes, None, id);
    lemma_parent(v.tree, None, id);
    let p = v.tree.parent_of(id, None)->0;
    lemma_subtree(v.tree, p);
    lemma_agrees_lookup(v.tree, v.nodes, None, p);
    let sub = v.tree.subtree(p);
    assert(sub.distinct());
    let a = *sub->first;
    let b = *sub->second;
    assert(a.contains(a.id()) && b.contains(b.id()));
    assert(sub.contains(a.id()) && sub.contains(b.id()));
}

/// Where a walk left the tree as it was, it left everything as it was.
pub proof fn lemma_same_tree_same_state(before: ViewportDBView, after: ViewportDBView)
    requires
        before.wf(),
        after.wf(),
        after.same_but_infos(before),
        after.tree == before.tree,
    ensures
        after == before,
{
    assert(after.nodes =~= before.nodes) by {
        assert forall|id: ViewportNodeID| before.nodes.contains_key(id) implies after.nodes[id]
            == before.nodes[id] by {
            if before.tree.contains(id) {
                lemma_agrees_lookup(before.tree, before.nodes, None, id);
                lemma_agrees_lookup(before.tree, after.nodes, None, id);
            }
        }
    }
}

/// The state that a database starts in keeps the invariant.
pub proof fn lemma_initial()
    ensures
        ViewportDBView::initial().wf(),
{
}

/// A split keeps the invariant.
pub proof fn lemma_split(v: ViewportDBView, direction: SplitDirection, color: Rgba)
    requires
        v.wf(),
        v.highest_id.0 <= u32::MAX - 2,
    ensures
        v.split(direction, color).wf(),
{
    let tree = v.tree;
    let id = v.focused;
    let after = v.split(direction, color);
    let sub = after.tree.subtree(id);
    let c0_id = v.next_first();
    let c1_id = v.next_second();
    lemma_focus_is_leaf(v);
    let info = v.leaf_info(id);
    let l0 = ViewportTree::Leaf { id: c0_id, info };
    let l1 = ViewportTree::Leaf {
        id: c1_id,
        info: ViewportInfo { clear_color: color, ..info },
    };
    let sub = ViewportTree::Split {
        id,
        split: super::Split::even(direction),
        first: Box::new(l0),
        second: Box::new(l1),
    };
    assert(after.tree == tree.replace(id, sub));
    assert(forall|y: ViewportNodeID| l0.contains(y) <==> y == c0_id);
    assert(forall|y: ViewportNodeID| l1.contains(y) <==> y == c1_id);
    assert(forall|y: ViewportNodeID|
        sub.contains(y) <==> y == id || l0.contains(y) || l1.contains(y));
    assert(l0.distinct() && l1.distinct());
    assert(sub.distinct());
    assert(l0.has_leaf(c0_id));
    assert(sub.has_leaf(c0_id));
    assert(tree.subtree(id).contains(id));
    assert forall|y: ViewportNodeID| sub.contains(y) && #[trigger] tree.contains(y) implies tree.subtree(
        id,
    ).contains(y) by {
        lemma_agrees_lookup(tree, v.nodes, None, y);
    }
    assert forall|x: ViewportNodeID| #[trigger]
        tree.contains(x) && !tree.subtree(id).contains(x) implies after.nodes.contains_key(x)
        && after.nodes[x] == v.nodes[x] by {
        lemma_agrees_lookup(tree, v.nodes, None, x);
    }
    assert(l0.agrees(after.nodes, Some(id)));
    assert(l1.agrees(after.nodes, Some(id)));
    assert(sub.agrees(after.nodes, tree.parent_of(id, None)));
    lemma_replace_distinct(tree, id, sub);
    lemma_replace_agrees(tree, None, v.nodes, after.nodes, id, sub);
    lemma_replace(tree, id, sub);
    assert forall|y: ViewportNodeID| #[trigger] after.nodes.contains_key(y) implies after.tree.contains(
        y,
    ) by {
        if y != c0_id && y != c1_id && y != id {
            assert(v.nodes.contains_key(y));
        } else {
            assert(sub.contains(y));
        }
    }
    assert(tree.subtree(id) == (ViewportTree::Leaf { id, info }));
    if after.hovered is Some {
        assert(tree.has_leaf(after.hovered->0));
        assert(!tree.subtree(id).contains(after.hovered->0));
    }
}

/// A merge keeps the invariant: nothing that it removes is left allocated,
/// and nothing that stays names a node that is gone.
pub proof fn lemma_merge(v: ViewportDBView)
    requires
        v.wf(),
    ensures
        v.merge().wf(),
        v.focused != v.root ==> v.has_parent_naming_it(v.focused),
{
    let tree = v.tree;
    let focus_id = v.focused;
    lemma_focus_is_leaf(v);
    if focus_id != v.root {
        lemma_parent_record(v, focus_id);
        let merge_id = v.nodes[focus_id].parent()->0;
        let info = v.leaf_info(focus_id);
        let after = v.merge();
        let sub = ViewportTree::Leaf { id: merge_id, info };
        let old_sub = tree.subtree(merge_id);
        lemma_subtree(tree, merge_id);
        lemma_agrees_lookup(tree, v.nodes, None, merge_id);
        assert(after.tree == tree.replace(merge_id, sub));
        assert(old_sub.contains(merge_id));
        assert forall|x: ViewportNodeID| #[trigger]
            tree.contains(x) && !old_sub.contains(x) implies after.nodes.contains_key(x)
            && after.nodes[x] == v.nodes[x] by {
            lemma_agrees_lookup(tree, v.nodes, None, x);
        }
        assert(sub.agrees(after.nodes, tree.parent_of(merge_id, None)));
        lemma_replace_distinct(tree, merge_id, sub);
        lemma_replace_agrees(tree, None, v.nodes, after.nodes, merge_id, sub);
        lemma_replace(tree, merge_id, sub);
        assert forall|y: ViewportNodeID| #[trigger] after.nodes.contains_key(y) implies after.tree.contains(
            y,
        ) by {
            if y != merge_id {
                assert(v.nodes.contains_key(y));
                assert(tree.contains(y));
            }
        }
    }
}

/// One operation that may be called keeps the invariant.
pub proof fn lemma_step(v: ViewportDBView, op: ViewportOp)
    requires
        v.wf(),
        v.allows(op),
    ensures
        v.step(op).wf(),
{
    match op {
        ViewportOp::Split { direction, color } => lemma_split(v, direction, color),
        ViewportOp::Merge => lemma_merge(v),
        ViewportOp::Focus { .. } => {},
        ViewportOp::Hover { .. } => {},
    }
}

/// Identifiers are handed out in increasing order and never twice: a split
/// takes the two after the highest, which no record has, and no operation
/// lowers the highest.
pub proof fn lemma_fresh_identifiers(v: ViewportDBView, op: ViewportOp)
    requires
        v.wf(),
        v.allows(op),
    ensures
        v.step(op).highest_id.0 >= v.highest_id.0,
        op is Split ==> {
            &&& !v.nodes.contains_key(v.next_first())
            &&& !v.nodes.contains_key(v.next_second())
            &&& v.step(op).tree.has_leaf(v.next_first())
            &&& v.step(op).tree.has_leaf(v.next_second())
            &&& v.step(op).highest_id == v.next_second()
        },
{
    match op {
        ViewportOp::Split { direction, color } => {
            let id = v.focused;
            let info = v.leaf_info(id);
            let l0 = ViewportTree::Leaf { id: v.next_first(), info };
            let l1 = ViewportTree::Leaf {
                id: v.next_second(),
                info: ViewportInfo { clear_color: color, ..info },
            };
            let sub = ViewportTree::Split {
                id,
                split: super::Split::even(direction),
                first: Box::new(l0),
                second: Box::new(l1),
            };
            lemma_focus_is_leaf(v);
            lemma_replace(v.tree, id, sub);
            assert(l0.has_leaf(v.next_first()) && l1.has_leaf(v.next_second()));
            assert(sub.has_leaf(v.next_first()) && sub.has_leaf(v.next_second()));
        },
        ViewportOp::Merge => {},
        ViewportOp::Focus { .. } => {},
        ViewportOp::Hover { .. } => {},
    }
}

/// Tree connectivity. From a single leaf, after any operations that may
/// each be called, the invariant holds: every node but the root has a
/// parent whose record names it, and every allocated record belongs to a
/// node of the tree.
pub proof fn lemma_reachable_states(ops: Seq<ViewportOp>)
    requires
        ViewportDBView::initial().allows_all(ops),
    ensures
        ViewportDBView::initial().run(ops).wf(),
        ViewportDBView::initial().run(ops).connected(),
    decreases ops.len(),
{
    if ops.len() > 0 {
        lemma_reachable_states(ops.drop_last());
        lemma_step(ViewportDBView::initial().run(ops.drop_last()), ops.last());
    }
}

/// The focus stays on a leaf. Whatever operations are called, as long as
/// each may be called, the invariant holds after them: above all the
/// focused node is a leaf of the tree, and its record says so.
pub proof fn lemma_focus_stays_on_leaf(v: ViewportDBView, ops: Seq<ViewportOp>)
    requires
        v.wf(),
        v.allows_all(ops),
    ensures
        v.run(ops).wf(),
        v.run(ops).tree.has_leaf(v.run(ops).focused),
        v.run(ops).nodes[v.run(ops).focused] is Whole,
    decreases ops.len(),
{
    if ops.len() > 0 {
        lemma_focus_stays_on_leaf(v, ops.drop_last());
        lemma_step(v.run(ops.drop_last()), ops.last());
    }
    lemma_focus_is_leaf(v.run(ops));
}

/// Under the invariant every node but the root has a parent whose record
/// names it as a child, and the walk from the root meets every allocated
/// node once and no other.
pub proof fn lemma_connected_walk(v: ViewportDBView)
    requires
        v.wf(),
    ensures
        v.tree.ids().no_duplicates(),
        v.tree.ids()[0] == v.root,
        forall|id: ViewportNodeID| #[trigger] v.tree.ids().contains(id) <==> v.nodes.contains_key(id),
        v.nodes[v.root].parent() is None,
        forall|id: ViewportNodeID|
            v.nodes.contains_key(id) && id != v.root ==> #[trigger] v.has_parent_naming_it(id),
{
    lemma_ids(v.tree);
    assert forall|id: ViewportNodeID| #[trigger] v.tree.ids().contains(id) <==> v.nodes.contains_key(
        id,
    ) by {
        if v.tree.contains(id) {
            lemma_agrees_lookup(v.tree, v.nodes, None, id);
        }
    }
    assert forall|id: ViewportNodeID|
        v.nodes.contains_key(id) && id != v.root implies #[trigger] v.has_parent_naming_it(id) by {
        lemma_parent_record(v, id);
    }
}

/// A walk calls the visitor once for every allocated node and for nothing
/// else: the calls are for the identifiers of `ids` in that order, which
/// are the keys of the records without repeats, and a call is for a leaf
/// exactly where the node's record is one.
pub proof fn lemma_walk_meets_every_node(v: ViewportDBView)
    requires
        v.wf(),
    ensures
        calls(v.tree).len() == v.tree.ids().len(),
        v.tree.ids().no_duplicates(),
        forall|id: ViewportNodeID| #[trigger] v.tree.ids().contains(id) <==> v.nodes.contains_key(id),
        forall|i: int|
            0 <= i < calls(v.tree).len() ==> {
                &&& (#[trigger] calls(v.tree)[i]).id() == v.tree.ids()[i]
                &&& (calls(v.tree)[i] is Leaf <==> v.nodes[v.tree.ids()[i]] is Whole)
            },
{
    lemma_connected_walk(v);
    lemma_calls_match_records(v.tree, v.nodes, None);
}

/// Exchanging twice at the same node is exchanging once, for the last
/// subtree.
pub proof fn lemma_replace_twice(
    t: ViewportTree,
    target: ViewportNodeID,
    s1: ViewportTree,
    s2: ViewportTree,
)
    requires
        s1.id() == target,
    ensures
        t.replace(target, s1).replace(target, s2) == t.replace(target, s2),
    decreases t,
{
    if t.id() != target {
        match t {
            ViewportTree::Leaf { .. } => {},
            ViewportTree::Split { first, second, .. } => {
                lemma_replace_twice(*first, target, s1, s2);
                lemma_replace_twice(*second, target, s1, s2);
            },
        }
    }
}

/// Exchanging a subtree for itself changes nothing.
pub proof fn lemma_replace_self(t: ViewportTree, target: ViewportNodeID)
    requires
        t.distinct(),
        t.contains(target),
    ensures
        t.replace(target, t.subtree(target)) == t,
    decreases t,
{
    if t.id() != target {
        match t {
            ViewportTree::Leaf { .. } => {},
            ViewportTree::Split { first, second, .. } => {
                if first.contains(target) {
                    lemma_replace_self(*first, target);
                    lemma_replace_absent(*second, target, t.subtree(target));
                } else {
                    lemma_replace_self(*second, target);
                    lemma_replace_absent(*first, target, t.subtree(target));
                }
            },
        }
    }
}

/// A split followed at once by a merge gives back the state before the
/// split: the same tree, the same records, the same focus. Only the two
/// identifiers that the split handed out are spent, and a hover on the leaf
/// that was split is cleared.
pub proof fn lemma_split_then_merge(v: ViewportDBView, direction: SplitDirection, color: Rgba)
    requires
        v.wf(),
        v.highest_id.0 <= u32::MAX - 2,
    ensures
        v.split(direction, color).merge() == (ViewportDBView {
            highest_id: v.next_second(),
            hovered: if v.hovered == Some(v.focused) {
                None
            } else {
                v.hovered
            },
            ..v
        }),
{
    let s = v.split(direction, color);
    let m = s.merge();
    let id = v.focused;
    lemma_focus_is_leaf(v);
    let info = v.leaf_info(id);
    let leaf = ViewportTree::Leaf { id, info };
    let l0 = ViewportTree::Leaf { id: v.next_first(), info };
    let l1 = ViewportTree::Leaf {
        id: v.next_second(),
        info: ViewportInfo { clear_color: color, ..info },
    };
    let sub = ViewportTree::Split {
        id,
        split: super::Split::even(direction),
        first: Box::new(l0),
        second: Box::new(l1),
    };
    assert(!v.nodes.contains_key(v.next_first()));
    assert(!v.nodes.contains_key(v.next_second()));
    lemma_replace_subtree(v.tree, id, sub);
    assert(s.tree.subtree(id) == sub);
    assert(forall|y: ViewportNodeID| l0.contains(y) <==> y == v.next_first());
    assert(forall|y: ViewportNodeID| l1.contains(y) <==> y == v.next_second());
    assert(forall|y: ViewportNodeID|
        sub.contains(y) <==> y == id || l0.contains(y) || l1.contains(y));
    assert(m.nodes =~= v.nodes);
    if v.hovered is Some {
        lemma_has_leaf_contains(v.tree, v.hovered->0);
        lemma_agrees_lookup(v.tree, v.nodes, None, v.hovered->0);
    }
    assert(m.tree == s.tree.replace(id, leaf));
    lemma_replace_twice(v.tree, id, sub, leaf);
    lemma_replace_self(v.tree, id);
}

} // verus!
