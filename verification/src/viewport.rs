//! The viewport tree: a rectangle cut again and again into two halves.
//!
//! Nodes live in a map from identifier to record. A record is either a leaf
//! (`Whole`), which shows something, or a `Split`, which names its two
//! children. The map is only an index: what the records mean together is the
//! [`tree::ViewportTree`] that hangs below the root, and every operation is
//! specified as a step on that tree.
//!
//! Decisions that callers should know of:
//!
//! * every split cuts its rectangle into two equal halves, whatever the
//!   stored `Split::value`, `Split::origin` and `Split::unit` say; they are kept
//!   for a later proportional cut and read by nothing;
//! * a rectangle owns its left and bottom edges and not its right and top
//!   edges (see [`crate::math::Rect::contains`]), so a point on a divider
//!   belongs to the right or upper viewport;
//! * a merge removes all that hangs below the split that it collapses, the
//!   neighbour of the focused leaf with its descendants too, so that no
//!   record is ever left without a place in the tree;
//! * the hovered node is a leaf at all times: when it is split, or removed
//!   by a merge, the hover is cleared until the pointer moves again.

use std::collections::HashMap;
use vstd::prelude::*;
use vstd::pervasive::unreached;
use vstd::std_specs::hash::group_hash_axioms;
use crate::device::{ButtonState, Key, Keysym, MouseButton};
use crate::math::{Extent2, Rect, Rgba, Vec2};
use crate::mouse_cursor::{MouseCursor, SystemCursor};
use crate::cubemap::CubemapSelector;
use self::laws::{
    lemma_focus_is_leaf, lemma_leaf_record, lemma_merge, lemma_same_tree_same_state, lemma_split,
};
use self::tree::{lemma_has_leaf_contains, lemma_subtree};
use self::tree::{
    lemma_agrees_lookup, lemma_agrees_stable, lemma_replace, lemma_replace_agrees,
    lemma_replace_distinct, lemma_replace_same_shape, lemma_same_shape, ViewportTree,
};
use self::visit::{
    calls, leaf_rects, lemma_leaf_rects_walk, lemma_node_calls_walk, lemma_pick,
    lemma_picker_walk, passes_through, pick, visited, AcceptLeafViewport, AcceptSplitViewport,
    LeafRects, NodeCall, NodeCalls, ViewportPicker, ViewportVisitor,
};

pub mod laws;
pub mod node;
pub mod tree;
pub mod visit;

verus! {

/// The identity of a node. Identifiers are handed out in increasing order and
/// never used twice.
#[derive(Debug, Default, Copy, Clone, Hash, PartialEq, Eq, Structural, PartialOrd, Ord)]
pub struct ViewportNodeID(pub u32);

/// What a leaf shows.
#[derive(Debug, Copy, Clone, PartialEq, Eq, Structural)]
pub struct ViewportInfo {
    pub clear_color: Rgba,
    pub skybox_cubemap_selector: Option<CubemapSelector>,
}

/// What a leaf shows, under the name that the other form of the record
/// uses.
pub type LeafViewport = ViewportInfo;

/// From which side a split's `value` is measured.
#[derive(Debug, Copy, Clone, Hash, PartialEq, Eq, Structural)]
pub enum SplitOrigin {
    LeftOrBottom,
    Middle,
    RightOrTop,
}

/// The unit of a split's `value`.
#[derive(Debug, Copy, Clone, Hash, PartialEq, Eq, Structural)]
pub enum SplitUnit {
    Ratio,
    Px,
}

/// `Horizontal` divides the height (one viewport above the other),
/// `Vertical` divides the width (one viewport beside the other).
#[derive(Debug, Copy, Clone, Hash, PartialEq, Eq, Structural)]
pub enum SplitDirection {
    Horizontal,
    Vertical,
}

/// How a split node divides its rectangle. `value` is the divider's offset
/// from `origin`: pixels for `Px`, thousandths of the divided side for
/// `Ratio`.
#[derive(Debug, Copy, Clone, PartialEq, Eq, Structural)]
pub struct Split {
    pub origin: SplitOrigin,
    pub unit: SplitUnit,
    pub value: i32,
    pub direction: SplitDirection,
}

/// The record of one node.
#[derive(Debug, Copy, Clone, PartialEq, Eq)]
pub enum ViewportNode {
    Whole { parent: Option<ViewportNodeID>, info: ViewportInfo },
    Split {
        parent: Option<ViewportNodeID>,
        split: Split,
        children: (ViewportNodeID, ViewportNodeID),
    },
}

impl ViewportInfo {
    /// Transparent black and no skybox.
    pub open spec fn blank() -> ViewportInfo {
        ViewportInfo {
            clear_color: Rgba { r: 0, g: 0, b: 0, a: 0 },
            skybox_cubemap_selector: None,
        }
    }
}

impl Default for ViewportInfo {
    fn default() -> (info: Self)
        ensures
            info == ViewportInfo::blank(),
    {
        ViewportInfo { clear_color: Rgba::zero(), skybox_cubemap_selector: None }
    }
}

impl Split {
    /// The split that `ViewportDB::split` makes: through the middle.
    pub open spec fn even(direction: SplitDirection) -> Split {
        Split { origin: SplitOrigin::Middle, unit: SplitUnit::Ratio, value: 0, direction }
    }
}

impl ViewportNode {
    pub open spec fn parent(self) -> Option<ViewportNodeID> {
        match self {
            ViewportNode::Whole { parent, .. } => parent,
            ViewportNode::Split { parent, .. } => parent,
        }
    }
}

impl Default for ViewportNode {
    /// A leaf without a parent, showing the default.
    fn default() -> (node: Self)
        ensures
            node == (ViewportNode::Whole { parent: None, info: ViewportInfo::blank() }),
    {
        ViewportNode::Whole { parent: None, info: ViewportInfo::default() }
    }
}


/// The viewport tree and what goes with it: which leaf has the focus, which
/// one the pointer is over, and how the borders are to be drawn.
pub struct ViewportDB {
    border_color: Rgba,
    border_px: u32,
    highest_id: ViewportNodeID,
    root: ViewportNodeID,
    focused: ViewportNodeID,
    hovered: Option<ViewportNodeID>,
    nodes: HashMap<u32, ViewportNode>,
    tree: Ghost<ViewportTree>,
}

/// What a `ViewportDB` holds, as a mathematical value.
///
/// `nodes` is every record that is allocated; `tree` is what hangs below the
/// root. Under the invariant the two hold the same nodes.
pub struct ViewportDBView {
    pub border_color: Rgba,
    pub border_px: u32,
    pub highest_id: ViewportNodeID,
    pub root: ViewportNodeID,
    pub focused: ViewportNodeID,
    pub hovered: Option<ViewportNodeID>,
    pub nodes: Map<ViewportNodeID, ViewportNode>,
    pub tree: ViewportTree,
}

/// The records keyed by identifier instead of by number.
pub open spec fn records_by_id(m: Map<u32, ViewportNode>) -> Map<ViewportNodeID, ViewportNode> {
    Map::new(|id: ViewportNodeID| m.contains_key(id.0), |id: ViewportNodeID| m[id.0])
}

impl ViewportDBView {
    /// The invariant of the tree: it hangs below the root, no identifier
    /// occurs twice, every node has its record with the parent and children
    /// that the tree gives it (so the root, and only the root, has no
    /// parent), no record is allocated but those of the tree's nodes, the
    /// focus is on a leaf, so is the pointer where it is over a viewport, and
    /// no identifier above `highest_id` is in use.
    pub open spec fn wf(self) -> bool {
        &&& self.tree.id() == self.root
        &&& self.tree.distinct()
        &&& self.tree.agrees(self.nodes, None)
        &&& self.connected()
        &&& self.tree.has_leaf(self.focused)
        &&& self.hovered is Some ==> self.tree.has_leaf(self.hovered->0)
        &&& forall|id: ViewportNodeID| #[trigger]
            self.nodes.contains_key(id) ==> id.0 <= self.highest_id.0
    }

    /// Every allocated record belongs to a node of the tree.
    pub open spec fn connected(self) -> bool {
        forall|id: ViewportNodeID| #[trigger]
            self.nodes.contains_key(id) ==> self.tree.contains(id)
    }

    /// A single leaf, the root, with the focus on it.
    pub open spec fn initial() -> ViewportDBView {
        let root = ViewportNodeID(0);
        ViewportDBView {
            border_color: Rgba { r: 245, g: 245, b: 245, a: 255 },
            border_px: 1,
            highest_id: root,
            root,
            focused: root,
            hovered: None,
            nodes: Map::empty().insert(
                root,
                ViewportNode::Whole { parent: None, info: ViewportInfo::blank() },
            ),
            tree: ViewportTree::Leaf { id: root, info: ViewportInfo::blank() },
        }
    }

    /// What the leaf `id` shows.
    pub open spec fn leaf_info(self, id: ViewportNodeID) -> ViewportInfo {
        match self.nodes[id] {
            ViewportNode::Whole { info, .. } => info,
            ViewportNode::Split { .. } => ViewportInfo::blank(),
        }
    }

    /// The first of the two identifiers that the next split hands out.
    pub open spec fn next_first(self) -> ViewportNodeID {
        ViewportNodeID((self.highest_id.0 + 1) as u32)
    }

    /// The second of the two identifiers that the next split hands out.
    pub open spec fn next_second(self) -> ViewportNodeID {
        ViewportNodeID((self.highest_id.0 + 2) as u32)
    }

    /// What becomes of the hover when the nodes in `gone` stop being leaves:
    /// a hover on one of them is cleared, until the pointer moves again.
    pub open spec fn hover_outside(self, gone: ViewportTree) -> Option<ViewportNodeID> {
        if self.hovered is Some && gone.contains(self.hovered->0) {
            None
        } else {
            self.hovered
        }
    }

    /// The focused leaf becomes a split with two new leaves. Both show what
    /// the leaf showed, but the second is cleared with `color`. The focus
    /// goes to the first. A hover on the leaf is cleared.
    pub open spec fn split(self, direction: SplitDirection, color: Rgba) -> ViewportDBView {
        let id = self.focused;
        let c0 = self.next_first();
        let c1 = self.next_second();
        let info = self.leaf_info(id);
        let parent = self.nodes[id].parent();
        let c1_info = ViewportInfo { clear_color: color, ..info };
        let split = Split::even(direction);
        ViewportDBView {
            highest_id: c1,
            focused: c0,
            hovered: self.hover_outside(ViewportTree::Leaf { id, info }),
            nodes: self.nodes.insert(
                id,
                ViewportNode::Split { parent, split, children: (c0, c1) },
            ).insert(c0, ViewportNode::Whole { parent: Some(id), info }).insert(
                c1,
                ViewportNode::Whole { parent: Some(id), info: c1_info },
            ),
            tree: self.tree.replace(
                id,
                ViewportTree::Split {
                    id,
                    split,
                    first: Box::new(ViewportTree::Leaf { id: c0, info }),
                    second: Box::new(ViewportTree::Leaf { id: c1, info: c1_info }),
                },
            ),
            ..self
        }
    }

    /// The parent of the focused leaf becomes a leaf that shows what the
    /// focused leaf showed. Every node below it is removed with its record:
    /// the focused leaf, its neighbour, and all that hangs below the
    /// neighbour. The focus goes to the new leaf, and a hover on a removed
    /// node is cleared. With the focus on the root nothing changes.
    pub open spec fn merge(self) -> ViewportDBView {
        match self.nodes[self.focused] {
            ViewportNode::Whole { parent: Some(p), info } => match self.nodes[p] {
                ViewportNode::Split { parent, .. } => {
                    let gone = self.tree.subtree(p);
                    ViewportDBView {
                        focused: p,
                        hovered: self.hover_outside(gone),
                        nodes: self.nodes.remove_keys(gone.id_set()).insert(
                            p,
                            ViewportNode::Whole { parent, info },
                        ),
                        tree: self.tree.replace(p, ViewportTree::Leaf { id: p, info }),
                        ..self
                    }
                },
                _ => self,
            },
            _ => self,
        }
    }

    /// The record of `id` names a parent, and the parent's record is a split
    /// that names `id` as one of its children.
    pub open spec fn has_parent_naming_it(self, id: ViewportNodeID) -> bool {
        match self.nodes[id].parent() {
            Some(p) => self.nodes.contains_key(p) && match self.nodes[p] {
                ViewportNode::Split { children, .. } => children.0 == id || children.1 == id,
                ViewportNode::Whole { .. } => false,
            },
            None => false,
        }
    }

    /// Nothing differs from `before` but what the leaves of the tree show.
    pub open spec fn same_but_infos(self, before: ViewportDBView) -> bool {
        &&& self.border_color == before.border_color
        &&& self.border_px == before.border_px
        &&& self.highest_id == before.highest_id
        &&& self.root == before.root
        &&& self.focused == before.focused
        &&& self.hovered == before.hovered
        &&& before.tree.same_shape(self.tree)
        &&& forall|id: ViewportNodeID|
            self.nodes.contains_key(id) <==> before.nodes.contains_key(id)
        &&& forall|id: ViewportNodeID|
            before.nodes.contains_key(id) && !(#[trigger] before.tree.contains(id))
                ==> self.nodes[id] == before.nodes[id]
    }

    /// The leaf `id` shows `info`; nothing else changes.
    pub open spec fn set_leaf_info(self, id: ViewportNodeID, info: ViewportInfo) -> ViewportDBView {
        ViewportDBView {
            nodes: self.nodes.insert(
                id,
                ViewportNode::Whole { parent: self.nodes[id].parent(), info },
            ),
            tree: self.tree.replace(id, ViewportTree::Leaf { id, info }),
            ..self
        }
    }
}

impl View for ViewportDB {
    type V = ViewportDBView;

    closed spec fn view(&self) -> ViewportDBView {
        ViewportDBView {
            border_color: self.border_color,
            border_px: self.border_px,
            highest_id: self.highest_id,
            root: self.root,
            focused: self.focused,
            hovered: self.hovered,
            nodes: records_by_id(self.nodes@),
            tree: self.tree@,
        }
    }
}

impl ViewportDB {
    /// The invariant that every operation keeps: see [`ViewportDBView::wf`].
    pub open spec fn wf(&self) -> bool {
        self@.wf()
    }

    pub fn new() -> (db: Self)
        ensures
            db.wf(),
            db@ == ViewportDBView::initial(),
    {
        broadcast use group_hash_axioms;

        let mut nodes: HashMap<u32, ViewportNode> = HashMap::new();
        let root = ViewportNodeID(0);
        nodes.insert(root.0, ViewportNode::default());
        let highest_id = root;
        let db = Self {
            nodes,
            highest_id,
            root,
            focused: root,
            hovered: None,
            border_px: 1,
            border_color: Rgba::grey(245),
            tree: Ghost(ViewportTree::Leaf { id: root, info: ViewportInfo::blank() }),
        };
        assert(db@.nodes =~= ViewportDBView::initial().nodes);
        db
    }

    pub fn border_color(&self) -> (color: Rgba)
        ensures
            color == self@.border_color,
    {
        self.border_color
    }

    pub fn border_px(&self) -> (px: u32)
        ensures
            px == self@.border_px,
    {
        self.border_px
    }

    pub fn root(&self) -> (id: ViewportNodeID)
        ensures
            id == self@.root,
    {
        self.root
    }

    pub fn hovered(&self) -> (id: Option<ViewportNodeID>)
        ensures
            id == self@.hovered,
    {
        self.hovered
    }

    /// Records which leaf the pointer is over, if any.
    pub fn hover(&mut self, id: Option<ViewportNodeID>)
        requires
            id is Some ==> old(self)@.tree.has_leaf(id->0),
        ensures
            final(self)@ == (ViewportDBView { hovered: id, ..old(self)@ }),
            old(self).wf() ==> final(self).wf(),
    {
        self.hovered = id;
    }

    pub fn focused(&self) -> (id: ViewportNodeID)
        ensures
            id == self@.focused,
    {
        self.focused
    }

    /// Moves the focus to the leaf `id`.
    pub fn focus(&mut self, id: ViewportNodeID)
        requires
            old(self)@.tree.has_leaf(id),
        ensures
            final(self)@ == (ViewportDBView { focused: id, ..old(self)@ }),
            old(self).wf() ==> final(self).wf(),
    {
        self.focused = id;
    }

    /// The record of the node `id`, if one is allocated.
    pub fn node(&self, id: ViewportNodeID) -> (node: Option<&ViewportNode>)
        ensures
            match node {
                Some(n) => self@.nodes.contains_key(id) && *n == self@.nodes[id],
                None => !self@.nodes.contains_key(id),
            },
    {
        broadcast use group_hash_axioms;

        self.nodes.get(&id.0)
    }

    /// The record of the root, with the parent apart from what the node is.
    pub fn root_node(&self) -> (node: self::node::ViewportNode)
        requires
            self.wf(),
        ensures
            node.record() == self@.nodes[self@.root],
            node.parent is None,
    {
        broadcast use group_hash_axioms;

        match self.nodes.get(&self.root.0) {
            Some(record) => self::node::ViewportNode::from_record(record),
            None => unreached(),
        }
    }

    /// Whether two more identifiers can be handed out, which a split asks
    /// for.
    pub fn can_split(&self) -> (b: bool)
        ensures
            b == (self@.highest_id.0 <= u32::MAX - 2),
    {
        self.highest_id.0 <= u32::MAX - 2
    }

    /// Splits the focused leaf in two, one above the other.
    pub fn split_h(&mut self)
        requires
            old(self).wf(),
            old(self)@.highest_id.0 <= u32::MAX - 2,
        ensures
            final(self).wf(),
            final(self)@.leaf_info(old(self)@.next_second()).clear_color.a == 255,
            final(self)@ == old(self)@.split(
                SplitDirection::Horizontal,
                final(self)@.leaf_info(old(self)@.next_second()).clear_color,
            ),
    {
        self.split(SplitDirection::Horizontal)
    }

    /// Splits the focused leaf in two, side by side.
    pub fn split_v(&mut self)
        requires
            old(self).wf(),
            old(self)@.highest_id.0 <= u32::MAX - 2,
        ensures
            final(self).wf(),
            final(self)@.leaf_info(old(self)@.next_second()).clear_color.a == 255,
            final(self)@ == old(self)@.split(
                SplitDirection::Vertical,
                final(self)@.leaf_info(old(self)@.next_second()).clear_color,
            ),
    {
        self.split(SplitDirection::Vertical)
    }

    /// Splits the focused leaf and clears the second new leaf with an opaque
    /// colour drawn at random. The state after the call is the split of the
    /// state before it with the colour that the second leaf came to have.
    pub fn split(&mut self, direction: SplitDirection)
        requires
            old(self).wf(),
            old(self)@.highest_id.0 <= u32::MAX - 2,
        ensures
            final(self).wf(),
            final(self)@.leaf_info(old(self)@.next_second()).clear_color.a == 255,
            final(self)@ == old(self)@.split(
                direction,
                final(self)@.leaf_info(old(self)@.next_second()).clear_color,
            ),
    {
        let color = Rgba::new_opaque(random_channel(), random_channel(), random_channel());
        self.split_with_color(direction, color);
        assert(self@.nodes[old(self)@.next_second()] == (ViewportNode::Whole {
            parent: Some(old(self)@.focused),
            info: ViewportInfo { clear_color: color, ..old(self)@.leaf_info(old(self)@.focused) },
        }));
    }

    /// Splits the focused leaf and clears the second new leaf with `color`.
    pub fn split_with_color(&mut self, direction: SplitDirection, color: Rgba)
        requires
            old(self).wf(),
            old(self)@.highest_id.0 <= u32::MAX - 2,
        ensures
            final(self).wf(),
            final(self)@ == old(self)@.split(direction, color),
    {
        broadcast use group_hash_axioms;

        let id = self.focused;
        let c0_id = ViewportNodeID(self.highest_id.0 + 1);
        let c1_id = ViewportNodeID(self.highest_id.0 + 2);
        let ghost before = self@;
        proof {
            lemma_focus_is_leaf(before);
        }
        let (parent, info) = match self.nodes.get(&id.0) {
            Some(ViewportNode::Whole { parent, info }) => (*parent, *info),
            _ => unreached(),
        };
        let split = Split {
            direction,
            origin: SplitOrigin::Middle,
            unit: SplitUnit::Ratio,
            value: 0,
        };
        self.nodes.insert(id.0, ViewportNode::Split { parent, children: (c0_id, c1_id), split });
        self.highest_id = ViewportNodeID(self.highest_id.0 + 2);
        let c0_info = info;
        let mut c1_info = info;
        self.focused = c0_id;
        if let Some(hovered) = self.hovered {
            if hovered.0 == id.0 {
                self.hovered = None;
            }
        }
        c1_info.clear_color = color;
        let c0_node = ViewportNode::Whole { info: c0_info, parent: Some(id) };
        let c1_node = ViewportNode::Whole { info: c1_info, parent: Some(id) };
        self.nodes.insert(c0_id.0, c0_node);
        self.nodes.insert(c1_id.0, c1_node);
        proof {
            let sub = ViewportTree::Split {
                id,
                split,
                first: Box::new(ViewportTree::Leaf { id: c0_id, info: c0_info }),
                second: Box::new(ViewportTree::Leaf { id: c1_id, info: c1_info }),
            };
            self.tree = Ghost(before.tree.replace(id, sub));
            assert(self@.nodes =~= before.split(direction, color).nodes);
            assert(self@ == before.split(direction, color));
            lemma_split(before, direction, color);
        }
    }

    /// Merges the focused leaf with its neighbour: their parent becomes a
    /// leaf that shows what the focused leaf showed, and takes the focus.
    /// Whatever hung below the parent is removed.
    pub fn merge(&mut self)
        requires
            old(self).wf(),
        ensures
            final(self).wf(),
            final(self)@ == old(self)@.merge(),
    {
        broadcast use group_hash_axioms;

        let focus_id = self.focused;
        let ghost before = self@;
        proof {
            lemma_focus_is_leaf(before);
            lemma_merge(before);
        }
        let (merge_id, info) = match self.nodes.get(&focus_id.0) {
            Some(ViewportNode::Whole { parent, info }) => (*parent, *info),
            _ => unreached(),
        };
        let merge_id = match merge_id {
            None => return ,
            Some(x) => x,
        };
        let ghost gone = before.tree.subtree(merge_id);
        proof {
            lemma_subtree(before.tree, merge_id);
            lemma_agrees_lookup(before.tree, before.nodes, None, merge_id);
        }
        let parent = match self.nodes.get(&merge_id.0) {
            Some(ViewportNode::Split { parent, .. }) => *parent,
            _ => unreached(),
        };
        Self::remove_subtree(
            &mut self.nodes,
            merge_id,
            Ghost(gone),
            Ghost(before.tree.parent_of(merge_id, None)),
        );
        self.nodes.insert(merge_id.0, ViewportNode::Whole { info, parent });
        proof {
            assert(records_by_id(self.nodes@) =~= before.merge().nodes);
            assert(gone.contains(merge_id));
            if before.hovered is Some {
                let h = before.hovered->0;
                lemma_has_leaf_contains(before.tree, h);
                lemma_agrees_lookup(before.tree, before.nodes, None, h);
                assert(before.nodes.contains_key(h));
                assert(h != merge_id);
                assert(records_by_id(self.nodes@).contains_key(h) <==> !gone.contains(h));
            }
        }
        if let Some(hovered) = self.hovered {
            if !self.nodes.contains_key(&hovered.0) {
                self.hovered = None;
            }
        }
        self.focused = merge_id;
        proof {
            self.tree = Ghost(
                before.tree.replace(merge_id, ViewportTree::Leaf { id: merge_id, info }),
            );
            assert(self@.hovered == before.merge().hovered);
            assert(self@ == before.merge());
        }
    }

    /// Removes the records of a subtree, the node first and then what hangs
    /// below it.
    fn remove_subtree(
        nodes: &mut HashMap<u32, ViewportNode>,
        id: ViewportNodeID,
        Ghost(sub): Ghost<ViewportTree>,
        Ghost(up): Ghost<Option<ViewportNodeID>>,
    )
        requires
            sub.agrees(records_by_id(old(nodes)@), up),
            sub.id() == id,
            sub.distinct(),
        ensures
            records_by_id(final(nodes)@) == records_by_id(old(nodes)@).remove_keys(sub.id_set()),
        decreases sub,
    {
        broadcast use group_hash_axioms;

        let ghost nodes0 = records_by_id(nodes@);
        let node = match nodes.remove(&id.0) {
            Some(node) => node,
            None => unreached(),
        };
        let ghost nodes1 = records_by_id(nodes@);
        match node {
            ViewportNode::Split { children: (c0, c1), .. } => {
                let ghost a = *sub->first;
                let ghost b = *sub->second;
                proof {
                    assert forall|x: ViewportNodeID| #[trigger] a.contains(x) implies nodes1.contains_key(
                        x,
                    ) && nodes1[x] == nodes0[x] by {
                        lemma_agrees_lookup(a, nodes0, Some(id), x);
                    }
                    lemma_agrees_stable(a, nodes0, nodes1, Some(id));
                }
                Self::remove_subtree(nodes, c0, Ghost(a), Ghost(Some(id)));
                let ghost nodes2 = records_by_id(nodes@);
                proof {
                    assert forall|x: ViewportNodeID| #[trigger] b.contains(x) implies nodes2.contains_key(
                        x,
                    ) && nodes2[x] == nodes0[x] by {
                        assert(!a.contains(x));
                        lemma_agrees_lookup(b, nodes0, Some(id), x);
                    }
                    lemma_agrees_stable(b, nodes0, nodes2, Some(id));
                }
                Self::remove_subtree(nodes, c1, Ghost(b), Ghost(Some(id)));
                assert(records_by_id(nodes@) =~= nodes0.remove_keys(sub.id_set()));
            },
            ViewportNode::Whole { .. } => {
                assert(records_by_id(nodes@) =~= nodes0.remove_keys(sub.id_set()));
            },
        }
    }
}

impl ViewportDB {
    /// Whether `id` is a leaf of the tree.
    pub fn is_leaf(&self, id: ViewportNodeID) -> (b: bool)
        requires
            self.wf(),
        ensures
            b == self@.tree.has_leaf(id),
    {
        Self::find_leaf(&self.nodes, self.root, id, Ghost(self.tree@), Ghost(None))
    }

    fn find_leaf(
        nodes: &HashMap<u32, ViewportNode>,
        at: ViewportNodeID,
        target: ViewportNodeID,
        Ghost(sub): Ghost<ViewportTree>,
        Ghost(parent): Ghost<Option<ViewportNodeID>>,
    ) -> (b: bool)
        requires
            sub.agrees(records_by_id(nodes@), parent),
            sub.id() == at,
        ensures
            b == sub.has_leaf(target),
        decreases sub,
    {
        broadcast use group_hash_axioms;

        match nodes.get(&at.0) {
            Some(ViewportNode::Whole { .. }) => at.0 == target.0,
            Some(ViewportNode::Split { children, .. }) => {
                Self::find_leaf(nodes, children.0, target, Ghost(*sub->first), Ghost(Some(at)))
                    || Self::find_leaf(
                    nodes,
                    children.1,
                    target,
                    Ghost(*sub->second),
                    Ghost(Some(at)),
                )
            },
            None => unreached(),
        }
    }

    /// Lets the leaf `id` show `info`.
    pub fn set_leaf_info(&mut self, id: ViewportNodeID, info: ViewportInfo)
        requires
            old(self).wf(),
            old(self)@.tree.has_leaf(id),
        ensures
            final(self).wf(),
            final(self)@ == old(self)@.set_leaf_info(id, info),
            final(self)@.same_but_infos(old(self)@),
    {
        broadcast use group_hash_axioms;

        let ghost before = self@;
        let ghost tree = self.tree@;
        proof {
            lemma_leaf_record(before, id);
        }
        let parent = match self.nodes.get(&id.0) {
            Some(ViewportNode::Whole { parent, .. }) => *parent,
            _ => unreached(),
        };
        self.nodes.insert(id.0, ViewportNode::Whole { parent, info });
        proof {
            let sub = ViewportTree::Leaf { id, info };
            self.tree = Ghost(tree.replace(id, sub));
            let after = self@;
            assert(after.nodes =~= before.set_leaf_info(id, info).nodes);
            assert forall|x: ViewportNodeID| #[trigger]
                tree.contains(x) && !tree.subtree(id).contains(x) implies after.nodes.contains_key(
                x,
            ) && after.nodes[x] == before.nodes[x] by {
                lemma_agrees_lookup(tree, before.nodes, None, x);
            }
            lemma_replace_distinct(tree, id, sub);
            lemma_replace_agrees(tree, None, before.nodes, after.nodes, id, sub);
            lemma_replace(tree, id, sub);
            lemma_replace_same_shape(tree, id, sub);
        }
    }

    /// Walks the tree laid out in `rect` and calls `f` for every node: a
    /// node first, then its first child's nodes, then its second child's.
    /// Every leaf is left showing what `f` left in it, and nothing else
    /// changes.
    pub fn visit<V: ViewportVisitor>(&mut self, rect: Rect, f: &mut V)
        requires
            old(self).wf(),
            rect.fits(),
        ensures
            final(self).wf(),
            final(self)@.same_but_infos(old(self)@),
            visited(
                old(self)@.tree,
                None,
                rect,
                old(self)@.border_px,
                *old(f),
                final(self)@.tree,
                *final(f),
            ),
    {
        let root_id = self.root();
        let border_px = self.border_px();
        let ghost before = self@;
        let after = Self::visit_viewport(
            &mut self.nodes,
            root_id,
            rect,
            f,
            border_px,
            Ghost(self.tree@),
            Ghost(None),
        );
        self.tree = after;
        proof {
            lemma_same_shape(before.tree, after@);
            assert forall|id: ViewportNodeID| #[trigger] self@.nodes.contains_key(id) implies id.0
                <= self@.highest_id.0 by {
                assert(before.nodes.contains_key(id));
            }
            assert forall|id: ViewportNodeID| #[trigger] self@.nodes.contains_key(id) implies self@.tree.contains(
                id,
            ) by {
                assert(before.nodes.contains_key(id));
                assert(before.tree.contains(id));
            }
        }
    }

    /// The leaves with their rectangles where the tree is laid out in
    /// `rect`, in the order of the walk. Nothing changes.
    pub fn leaf_rects(&mut self, rect: Rect) -> (rects: Vec<(ViewportNodeID, Rect)>)
        requires
            old(self).wf(),
            rect.fits(),
        ensures
            final(self).wf(),
            final(self)@ == old(self)@,
            rects@ == leaf_rects(old(self)@.tree, rect),
    {
        let mut visitor = LeafRects::new();
        let ghost before = self@;
        let ghost empty = visitor;
        self.visit(rect, &mut visitor);
        proof {
            lemma_leaf_rects_walk(
                before.tree,
                None,
                rect,
                before.border_px,
                empty,
                self@.tree,
                visitor,
            );
            lemma_same_tree_same_state(before, self@);
            assert(empty.rects@ + leaf_rects(before.tree, rect) =~= leaf_rects(before.tree, rect));
        }
        visitor.rects
    }

    /// The calls that a walk makes, in order: one for every node of the
    /// tree. Nothing changes.
    pub fn calls(&mut self) -> (made: Vec<NodeCall>)
        requires
            old(self).wf(),
        ensures
            final(self).wf(),
            final(self)@ == old(self)@,
            made@ == calls(old(self)@.tree),
    {
        let mut visitor = NodeCalls::new();
        let rect = Rect { x: 0, y: 0, w: 0, h: 0 };
        let ghost before = self@;
        let ghost empty = visitor;
        self.visit(rect, &mut visitor);
        proof {
            lemma_node_calls_walk(
                before.tree,
                None,
                rect,
                before.border_px,
                empty,
                self@.tree,
                visitor,
            );
            lemma_same_tree_same_state(before, self@);
            assert(empty.calls@ + calls(before.tree) =~= calls(before.tree));
        }
        visitor.calls
    }

    fn visit_viewport<V: ViewportVisitor>(
        nodes: &mut HashMap<u32, ViewportNode>,
        id: ViewportNodeID,
        rect: Rect,
        f: &mut V,
        border_px: u32,
        Ghost(sub): Ghost<ViewportTree>,
        Ghost(up): Ghost<Option<ViewportNodeID>>,
    ) -> (after: Ghost<ViewportTree>)
        requires
            sub.agrees(records_by_id(old(nodes)@), up),
            sub.id() == id,
            sub.distinct(),
            rect.fits(),
        ensures
            after@.agrees(records_by_id(final(nodes)@), up),
            sub.same_shape(after@),
            visited(sub, up, rect, border_px, *old(f), after@, *final(f)),
            forall|x: ViewportNodeID|
                records_by_id(final(nodes)@).contains_key(x) <==> records_by_id(
                    old(nodes)@,
                ).contains_key(x),
            forall|x: ViewportNodeID|
                records_by_id(old(nodes)@).contains_key(x) && !(#[trigger] sub.contains(x))
                    ==> records_by_id(final(nodes)@)[x] == records_by_id(old(nodes)@)[x],
        decreases sub,
    {
        broadcast use group_hash_axioms;

        let ghost nodes0 = records_by_id(nodes@);
        let ghost f0 = *f;
        let node = match nodes.get(&id.0) {
            Some(node) => *node,
            None => unreached(),
        };
        match node {
            ViewportNode::Split { children: (c0, c1), split, parent } => {
                let Split { direction, .. } = split;
                let (r0, r1) = match direction {
                    SplitDirection::Horizontal => rect.cut_horizontal(),
                    SplitDirection::Vertical => rect.cut_vertical(),
                };
                let mut distance_from_left_or_bottom_px = match direction {
                    SplitDirection::Horizontal => r1.y,
                    SplitDirection::Vertical => r1.x,
                };
                let own_border_px = if parent.is_some() {
                    border_px
                } else {
                    0
                };
                f.accept_split_viewport(
                    AcceptSplitViewport {
                        id,
                        rect,
                        split_direction: direction,
                        distance_from_left_or_bottom_px: &mut distance_from_left_or_bottom_px,
                        parent,
                        border_px: own_border_px,
                    },
                );
                let ghost f1 = *f;
                let ghost a = *sub->first;
                let ghost b = *sub->second;
                let Ghost(a2) = Self::visit_viewport(nodes, c0, r0, f, border_px, Ghost(a), Ghost(Some(id)));
                let ghost nodes1 = records_by_id(nodes@);
                let ghost f2 = *f;
                proof {
                    lemma_same_shape(a, a2);
                    assert forall|x: ViewportNodeID| #[trigger] b.contains(x) implies nodes1.contains_key(
                        x,
                    ) && nodes1[x] == nodes0[x] by {
                        assert(!a.contains(x));
                        lemma_agrees_lookup(b, nodes0, Some(id), x);
                    }
                    lemma_agrees_stable(b, nodes0, nodes1, Some(id));
                }
                let Ghost(b2) = Self::visit_viewport(nodes, c1, r1, f, border_px, Ghost(b), Ghost(Some(id)));
                let ghost nodes2 = records_by_id(nodes@);
                let ghost after = ViewportTree::Split {
                    id,
                    split,
                    first: Box::new(a2),
                    second: Box::new(b2),
                };
                proof {
                    lemma_same_shape(b, b2);
                    assert forall|x: ViewportNodeID| #[trigger] a2.contains(x) implies nodes2.contains_key(
                        x,
                    ) && nodes2[x] == nodes1[x] by {
                        assert(a.contains(x));
                        assert(!b.contains(x));
                        lemma_agrees_lookup(a2, nodes1, Some(id), x);
                    }
                    lemma_agrees_stable(a2, nodes1, nodes2, Some(id));
                    assert(!a.contains(id) && !b.contains(id));
                    assert(nodes2[id] == nodes0[id]);
                    assert(passes_through(f1, f2));
                    assert(after.agrees(nodes2, up));
                    assert(visited(sub, up, rect, border_px, f0, after, *f));
                    assert forall|x: ViewportNodeID|
                        nodes0.contains_key(x) && !(#[trigger] sub.contains(x)) implies nodes2[x]
                        == nodes0[x] by {
                        assert(!a.contains(x) && !b.contains(x));
                        assert(nodes1.contains_key(x));
                    }
                }
                Ghost(after)
            },
            ViewportNode::Whole { info, parent } => {
                let mut info = info;
                let own_border_px = if parent.is_some() {
                    border_px
                } else {
                    0
                };
                f.accept_leaf_viewport(
                    AcceptLeafViewport { id, rect, info: &mut info, parent, border_px: own_border_px },
                );
                nodes.insert(id.0, ViewportNode::Whole { info, parent });
                let ghost after = ViewportTree::Leaf { id, info };
                proof {
                    let nodes1 = records_by_id(nodes@);
                    assert(nodes1.contains_key(id));
                    assert(nodes1[id] == after.record(up));
                    assert forall|x: ViewportNodeID|
                        nodes1.contains_key(x) <==> nodes0.contains_key(x) by {
                        if x.0 == id.0 {
                            assert(x == id);
                        }
                    }
                }
                Ghost(after)
            },
        }
    }
}

/// Turns pointer and key events into operations on the viewport tree.
#[derive(Debug)]
pub struct ViewportInputHandler;

impl ViewportInputHandler {
    pub fn new() -> (handler: Self)
        ensures
            handler == ViewportInputHandler,
    {
        ViewportInputHandler
    }

    /// The pointer position in the tree's coordinates, whose origin is the
    /// bottom-left corner: the row is counted down from the canvas height.
    pub open spec fn flipped(canvas_size: Extent2, pos: Vec2) -> Vec2 {
        Vec2 {
            x: pos.x,
            y: if pos.y >= canvas_size.h {
                0
            } else {
                (canvas_size.h - pos.y) as u32
            },
        }
    }

    /// What a pointer motion does: the leaf under the pointer becomes the
    /// hovered one, and the pointer turns into a hand.
    pub open spec fn moved(
        before: ViewportDB,
        canvas_size: Extent2,
        pos: Vec2,
        after: ViewportDB,
        cursor: MouseCursor,
    ) -> bool {
        &&& cursor == MouseCursor::System(SystemCursor::Hand)
        &&& after@ == (ViewportDBView {
            hovered: pick(
                before@.tree,
                Rect { x: 0, y: 0, w: canvas_size.w, h: canvas_size.h },
                Self::flipped(canvas_size, pos),
                None,
            ),
            ..before@
        })
    }

    /// What the pointer's leaving does: no leaf is hovered any more.
    pub open spec fn left(before: ViewportDB, after: ViewportDB) -> bool {
        after@ == (ViewportDBView { hovered: None, ..before@ })
    }

    /// What a button event does: a press of the left button moves the focus
    /// to the hovered leaf, and every other one changes nothing.
    pub open spec fn clicked(
        before: ViewportDB,
        btn: MouseButton,
        state: ButtonState,
        after: ViewportDB,
    ) -> bool {
        after@ == if btn == MouseButton::Left && state.down() && before@.hovered is Some {
            ViewportDBView { focused: before@.hovered->0, ..before@ }
        } else {
            before@
        }
    }

    /// What a key event does: a press of `V` or `H` splits the focused
    /// leaf, side by side or one above the other, and clears the second new
    /// leaf with an opaque colour; a press of `M` merges it with its
    /// neighbour; and every other one changes nothing.
    pub open spec fn keyed(
        before: ViewportDB,
        key: Key,
        state: ButtonState,
        after: ViewportDB,
    ) -> bool {
        &&& state.down() && (key.sym == Some(Keysym::V) || key.sym == Some(Keysym::H))
            ==> after@.leaf_info(before@.next_second()).clear_color.a == 255
        &&& after@ == if !state.down() {
            before@
        } else if key.sym == Some(Keysym::V) {
            before@.split(
                SplitDirection::Vertical,
                after@.leaf_info(before@.next_second()).clear_color,
            )
        } else if key.sym == Some(Keysym::H) {
            before@.split(
                SplitDirection::Horizontal,
                after@.leaf_info(before@.next_second()).clear_color,
            )
        } else if key.sym == Some(Keysym::M) {
            before@.merge()
        } else {
            before@
        }
    }

    /// The pointer moved to `pos`, given in pixels from the top-left corner of
    /// a canvas of size `canvas_size`.
    pub fn on_mouse_motion(
        &mut self,
        db: &mut ViewportDB,
        canvas_size: Extent2,
        pos: Vec2,
    ) -> (cursor: MouseCursor)
        requires
            old(db).wf(),
        ensures
            final(db).wf(),
            Self::moved(*old(db), canvas_size, pos, *final(db), cursor),
    {
        let mut pos = pos;
        pos.y = canvas_size.h.saturating_sub(pos.y);
        let rect = Rect::from_extent(canvas_size);
        let mut visitor = ViewportPicker { pos, found: None, on_border: None };
        let ghost before = db@;
        let ghost picker = visitor;
        db.visit(rect, &mut visitor);
        proof {
            lemma_picker_walk(before.tree, None, rect, before.border_px, picker, db@.tree, visitor);
            lemma_pick(before.tree, rect, pos, None);
            lemma_same_tree_same_state(before, db@);
        }
        db.hover(visitor.found);
        MouseCursor::System(SystemCursor::Hand)
    }

    /// The pointer left the canvas.
    pub fn on_mouse_leave(&mut self, db: &mut ViewportDB)
        ensures
            Self::left(*old(db), *final(db)),
    {
        db.hover(None);
    }

    /// A button of the pointing device was pressed or released. The hovered
    /// node, where there is one, is a leaf, so the focus can go to it.
    pub fn on_mouse_button(&mut self, db: &mut ViewportDB, btn: MouseButton, state: ButtonState)
        requires
            old(db).wf(),
        ensures
            final(db).wf(),
            Self::clicked(*old(db), btn, state, *final(db)),
    {
        match btn {
            MouseButton::Left => {
                if state.is_down() {
                    if let Some(hovered) = db.hovered() {
                        db.focus(hovered);
                    }
                }
            },
            _ => {},
        }
    }

    /// A key was pressed or released. A split asks for two identifiers
    /// that are still free.
    pub fn on_key(&mut self, db: &mut ViewportDB, key: Key, state: ButtonState)
        requires
            old(db).wf(),
            state.down() && (key.sym == Some(Keysym::V) || key.sym == Some(Keysym::H))
                ==> old(db)@.highest_id.0 <= u32::MAX - 2,
        ensures
            final(db).wf(),
            Self::keyed(*old(db), key, state, *final(db)),
    {
        if state.is_down() {
            match key.sym {
                Some(Keysym::V) => db.split_v(),
                Some(Keysym::H) => db.split_h(),
                Some(Keysym::M) => db.merge(),
                _ => {},
            }
        }
    }
}

/// A channel value drawn by `rand::random` from the generator of the
/// thread. Nothing is claimed of the value: every `u8` may come back, and
/// two calls may give different ones. The call itself is taken to return;
/// `rand` gives up only where the operating system has no randomness to
/// seed the generator with.
#[verifier::external_body]
fn random_channel() -> (c: u8) {
    rand::random::<u8>()
}

} // verus!
