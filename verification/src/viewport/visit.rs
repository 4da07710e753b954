//! Walking the tree: what a visitor is told, in which order, and the laws
//! of the rectangles that it is told.

use vstd::prelude::*;
use crate::math::{Rect, Vec2};
use super::tree::ViewportTree;
use super::{SplitDirection, ViewportInfo, ViewportNodeID};

verus! {

/// What a visitor is handed for a leaf. It may change what the leaf shows.
#[derive(Debug)]
pub struct AcceptLeafViewport<'a> {
    pub id: ViewportNodeID,
    pub rect: Rect,
    pub info: &'a mut ViewportInfo,
    pub parent: Option<ViewportNodeID>,
    pub border_px: u32,
}

/// What a visitor is handed for a split. What it writes to the divider's
/// position is not read back.
#[derive(Debug)]
pub struct AcceptSplitViewport<'a> {
    pub id: ViewportNodeID,
    pub rect: Rect,
    pub split_direction: SplitDirection,
    pub distance_from_left_or_bottom_px: &'a mut u32,
    pub parent: Option<ViewportNodeID>,
    pub border_px: u32,
}

/// The values of one call for a leaf.
pub struct LeafVisit {
    pub id: ViewportNodeID,
    pub rect: Rect,
    pub info: ViewportInfo,
    pub parent: Option<ViewportNodeID>,
    pub border_px: u32,
}

/// The values of one call for a split.
pub struct SplitVisit {
    pub id: ViewportNodeID,
    pub rect: Rect,
    pub split_direction: SplitDirection,
    pub distance_from_left_or_bottom_px: u32,
    pub parent: Option<ViewportNodeID>,
    pub border_px: u32,
}

/// A consumer of a walk over the tree. An implementation says, with its two
/// relations, what a call may do to it; the walk is specified over them. A
/// visitor that leaves the relations as they are promises nothing.
pub trait ViewportVisitor: Sized {
    /// A call for the leaf `visit` may take the visitor from `pre` to `post`
    /// and leave the leaf showing `info_after`.
    open spec fn leaf_accepted(
        pre: Self,
        visit: LeafVisit,
        post: Self,
        info_after: ViewportInfo,
    ) -> bool {
        true
    }

    /// A call for the split `visit` may take the visitor from `pre` to
    /// `post`.
    open spec fn split_accepted(pre: Self, visit: SplitVisit, post: Self) -> bool {
        true
    }

    fn accept_leaf_viewport(&mut self, args: AcceptLeafViewport<'_>)
        ensures
            Self::leaf_accepted(
                *old(self),
                (LeafVisit {
                    id: args.id,
                    rect: args.rect,
                    info: *old(args.info),
                    parent: args.parent,
                    border_px: args.border_px,
                }),
                *final(self),
                *final(args.info),
            ),
    ;

    fn accept_split_viewport(&mut self, args: AcceptSplitViewport<'_>)
        ensures
            Self::split_accepted(
                *old(self),
                (SplitVisit {
                    id: args.id,
                    rect: args.rect,
                    split_direction: args.split_direction,
                    distance_from_left_or_bottom_px: *old(args.distance_from_left_or_bottom_px),
                    parent: args.parent,
                    border_px: args.border_px,
                }),
                *final(self),
            ),
    ;
}

/// The rectangle of a split's first child: the lower or the left half.
pub open spec fn first_rect(rect: Rect, direction: SplitDirection) -> Rect {
    match direction {
        SplitDirection::Horizontal => rect.bottom_half(),
        SplitDirection::Vertical => rect.left_half(),
    }
}

/// The rectangle of a split's second child: the upper or the right half.
pub open spec fn second_rect(rect: Rect, direction: SplitDirection) -> Rect {
    match direction {
        SplitDirection::Horizontal => rect.top_half(),
        SplitDirection::Vertical => rect.right_half(),
    }
}

/// Where the divider lies: the bottom edge of the upper half, or the left
/// edge of the right half.
pub open spec fn divider(rect: Rect, direction: SplitDirection) -> u32 {
    match direction {
        SplitDirection::Horizontal => rect.top_half().y,
        SplitDirection::Vertical => rect.right_half().x,
    }
}

/// The border width that a node is visited with: none for the root, the
/// configured width for every other node.
pub open spec fn border_for(parent: Option<ViewportNodeID>, border_px: u32) -> u32 {
    if parent is Some {
        border_px
    } else {
        0
    }
}

/// Names the two states that a visitor passes through on the walk over a
/// split: after the call for the split itself, and after the walk over the
/// first child. It holds of every pair.
pub open spec fn passes_through<V>(mid1: V, mid2: V) -> bool {
    true
}

/// A walk over `tree`, laid out in `rect` below `parent`, may take the
/// visitor from `pre` to `post` and leave the tree as `after`.
///
/// The walk calls the visitor for a node, then walks the node's first child,
/// then its second. A leaf is left showing what the visitor left in it; the
/// splits stay as they are.
pub open spec fn visited<V: ViewportVisitor>(
    tree: ViewportTree,
    parent: Option<ViewportNodeID>,
    rect: Rect,
    border_px: u32,
    pre: V,
    after: ViewportTree,
    post: V,
) -> bool
    decreases tree,
{
    match tree {
        ViewportTree::Leaf { id, info } => {
            &&& after matches ViewportTree::Leaf { id: id2, info: info2 }
            &&& id2 == id
            &&& V::leaf_accepted(
                pre,
                LeafVisit { id, rect, info, parent, border_px: border_for(parent, border_px) },
                post,
                info2,
            )
        },
        ViewportTree::Split { id, split, first, second } => {
            &&& after matches ViewportTree::Split {
                id: id2,
                split: split2,
                first: first2,
                second: second2,
            }
            &&& id2 == id && split2 == split
            &&& exists|mid1: V, mid2: V|
                {
                    &&& #[trigger] passes_through(mid1, mid2)
                    &&& V::split_accepted(
                        pre,
                        SplitVisit {
                            id,
                            rect,
                            split_direction: split.direction,
                            distance_from_left_or_bottom_px: divider(rect, split.direction),
                            parent,
                            border_px: border_for(parent, border_px),
                        },
                        mid1,
                    )
                    &&& visited(
                        *first,
                        Some(id),
                        first_rect(rect, split.direction),
                        border_px,
                        mid1,
                        *first2,
                        mid2,
                    )
                    &&& visited(
                        *second,
                        Some(id),
                        second_rect(rect, split.direction),
                        border_px,
                        mid2,
                        *second2,
                        post,
                    )
                }
        },
    }
}

/// The leaves with their rectangles, in the order of the walk.
pub open spec fn leaf_rects(tree: ViewportTree, rect: Rect) -> Seq<(ViewportNodeID, Rect)>
    decreases tree,
{
    match tree {
        ViewportTree::Leaf { id, .. } => seq![(id, rect)],
        ViewportTree::Split { split, first, second, .. } => leaf_rects(
            *first,
            first_rect(rect, split.direction),
        ) + leaf_rects(*second, second_rect(rect, split.direction)),
    }
}

/// How many of the rectangles contain the point.
pub open spec fn count_containing(rects: Seq<(ViewportNodeID, Rect)>, p: Vec2) -> nat
    decreases rects.len(),
{
    if rects.len() == 0 {
        0
    } else {
        count_containing(rects.drop_last(), p) + if rects.last().1.contains(p) {
            1nat
        } else {
            0nat
        }
    }
}

/// The leaf that a pointer at `pos` is over: the last leaf of the walk whose
/// rectangle contains `pos`, or `found` where there is none.
pub open spec fn pick(
    tree: ViewportTree,
    rect: Rect,
    pos: Vec2,
    found: Option<ViewportNodeID>,
) -> Option<ViewportNodeID>
    decreases tree,
{
    match tree {
        ViewportTree::Leaf { id, .. } => if rect.contains(pos) {
            Some(id)
        } else {
            found
        },
        ViewportTree::Split { split, first, second, .. } => pick(
            *second,
            second_rect(rect, split.direction),
            pos,
            pick(*first, first_rect(rect, split.direction), pos, found),
        ),
    }
}

/// The visitor that finds the leaf under the pointer.
#[derive(Debug, Clone, Copy)]
pub struct ViewportPicker {
    pub pos: Vec2,
    pub found: Option<ViewportNodeID>,
    pub on_border: Option<ViewportNodeID>,
}

impl ViewportPicker {
    /// A picker for the position `pos` that has found nothing yet.
    pub fn new(pos: Vec2) -> (picker: Self)
        ensures
            picker == (ViewportPicker { pos, found: None, on_border: None }),
    {
        ViewportPicker { pos, found: None, on_border: None }
    }
}

impl ViewportVisitor for ViewportPicker {
    /// The picker takes note of the leaf if the leaf's rectangle contains the
    /// position, and leaves the leaf as it is.
    open spec fn leaf_accepted(
        pre: Self,
        visit: LeafVisit,
        post: Self,
        info_after: ViewportInfo,
    ) -> bool {
        &&& info_after == visit.info
        &&& post == if visit.rect.contains(pre.pos) {
            ViewportPicker { found: Some(visit.id), ..pre }
        } else {
            pre
        }
    }

    /// The picker passes over splits: hits on a divider are not recorded.
    open spec fn split_accepted(pre: Self, visit: SplitVisit, post: Self) -> bool {
        post == pre
    }

    fn accept_leaf_viewport(&mut self, args: AcceptLeafViewport<'_>) {
        if args.rect.contains_point(self.pos) {
            self.found = Some(args.id);
        }
    }

    fn accept_split_viewport(&mut self, args: AcceptSplitViewport<'_>) {
    }
}

/// Counting over two runs of rectangles adds up.
pub proof fn lemma_count_concat(
    a: Seq<(ViewportNodeID, Rect)>,
    b: Seq<(ViewportNodeID, Rect)>,
    p: Vec2,
)
    ensures
        count_containing(a + b, p) == count_containing(a, p) + count_containing(b, p),
    decreases b.len(),
{
    if b.len() == 0 {
        assert(a + b =~= a);
    } else {
        assert((a + b).drop_last() =~= a + b.drop_last());
        assert((a + b).last() == b.last());
        lemma_count_concat(a, b.drop_last(), p);
    }
}

/// The two halves of a cut share no point, and together hold exactly the
/// points of the rectangle that was cut.
pub proof fn lemma_halves_partition(rect: Rect, direction: SplitDirection, p: Vec2)
    requires
        rect.fits(),
    ensures
        first_rect(rect, direction).fits(),
        second_rect(rect, direction).fits(),
        rect.contains(p) <==> first_rect(rect, direction).contains(p) || second_rect(
            rect,
            direction,
        ).contains(p),
        !(first_rect(rect, direction).contains(p) && second_rect(rect, direction).contains(p)),
{
}

/// The leaf rectangles of a walk over `rect` divide it exactly: every point
/// of `rect` lies in one and only one of them, and a point outside `rect`
/// lies in none. So their union is `rect` and no two of them overlap.
pub proof fn lemma_leaf_rects_partition(tree: ViewportTree, rect: Rect, p: Vec2)
    requires
        rect.fits(),
    ensures
        count_containing(leaf_rects(tree, rect), p) == if rect.contains(p) {
            1nat
        } else {
            0nat
        },
    decreases tree,
{
    match tree {
        ViewportTree::Leaf { id, .. } => {
            let s = leaf_rects(tree, rect);
            assert(s.drop_last().len() == 0);
            assert(count_containing(s.drop_last(), p) == 0);
            assert(s.last() == (id, rect));
        },
        ViewportTree::Split { split, first, second, .. } => {
            let r0 = first_rect(rect, split.direction);
            let r1 = second_rect(rect, split.direction);
            lemma_halves_partition(rect, split.direction, p);
            lemma_leaf_rects_partition(*first, r0, p);
            lemma_leaf_rects_partition(*second, r1, p);
            lemma_count_concat(leaf_rects(*first, r0), leaf_rects(*second, r1), p);
        },
    }
}

/// The walk reports one rectangle for each leaf of the tree and for nothing
/// else, and each of them lies within the rectangle that was walked.
pub proof fn lemma_leaf_rects_are_leaves(tree: ViewportTree, rect: Rect)
    requires
        rect.fits(),
    ensures
        forall|i: int|
            0 <= i < leaf_rects(tree, rect).len() ==> tree.has_leaf(
                (#[trigger] leaf_rects(tree, rect)[i]).0,
            ),
        forall|i: int, p: Vec2|
            0 <= i < leaf_rects(tree, rect).len() && (#[trigger] leaf_rects(tree, rect)[i]).1.contains(p)
                ==> #[trigger] rect.contains(p),
        forall|x: ViewportNodeID|
            tree.has_leaf(x) ==> exists|i: int|
                0 <= i < leaf_rects(tree, rect).len() && (#[trigger] leaf_rects(tree, rect)[i]).0
                    == x,
    decreases tree,
{
    match tree {
        ViewportTree::Leaf { id, .. } => {
            assert(leaf_rects(tree, rect)[0].0 == id);
        },
        ViewportTree::Split { split, first, second, .. } => {
            let r0 = first_rect(rect, split.direction);
            let r1 = second_rect(rect, split.direction);
            let a = leaf_rects(*first, r0);
            let b = leaf_rects(*second, r1);
            let s = leaf_rects(tree, rect);
            lemma_leaf_rects_are_leaves(*first, r0);
            lemma_leaf_rects_are_leaves(*second, r1);
            assert(s == a + b);
            assert forall|i: int| 0 <= i < s.len() implies tree.has_leaf((#[trigger] s[i]).0) by {
                if i < a.len() {
                    assert(s[i] == a[i]);
                } else {
                    assert(s[i] == b[i - a.len()]);
                }
            }
            assert forall|i: int, p: Vec2| 0 <= i < s.len() && (#[trigger] s[i]).1.contains(p) implies #[trigger] rect.contains(
                p,
            ) by {
                lemma_halves_partition(rect, split.direction, p);
                if i < a.len() {
                    assert(s[i] == a[i]);
                    assert(r0.contains(p));
                } else {
                    assert(s[i] == b[i - a.len()]);
                    assert(r1.contains(p));
                }
            }
            assert forall|x: ViewportNodeID| tree.has_leaf(x) implies exists|i: int|
                0 <= i < s.len() && (#[trigger] s[i]).0 == x by {
                if first.has_leaf(x) {
                    let i = choose|i: int| 0 <= i < a.len() && (#[trigger] a[i]).0 == x;
                    assert(s[i] == a[i]);
                } else {
                    assert(second.has_leaf(x));
                    let i = choose|i: int| 0 <= i < b.len() && (#[trigger] b[i]).0 == x;
                    assert(s[a.len() + i] == b[i]);
                }
            }
        },
    }
}

/// For a point of the rectangle that is walked, the pick is a leaf whose
/// rectangle contains the point, which by `lemma_leaf_rects_partition` is the
/// only such leaf. For a point outside, the pick is what was found before.
pub proof fn lemma_pick(tree: ViewportTree, rect: Rect, pos: Vec2, found: Option<ViewportNodeID>)
    requires
        rect.fits(),
    ensures
        !rect.contains(pos) ==> pick(tree, rect, pos, found) == found,
        rect.contains(pos) ==> exists|i: int|
            0 <= i < leaf_rects(tree, rect).len() && (#[trigger] leaf_rects(tree, rect)[i]).1.contains(
                pos,
            ) && pick(tree, rect, pos, found) == Some(leaf_rects(tree, rect)[i].0),
        rect.contains(pos) ==> pick(tree, rect, pos, found) is Some && tree.has_leaf(
            pick(tree, rect, pos, found)->0,
        ),
    decreases tree,
{
    match tree {
        ViewportTree::Leaf { id, .. } => {
            if rect.contains(pos) {
                assert(leaf_rects(tree, rect)[0].1.contains(pos));
            }
        },
        ViewportTree::Split { split, first, second, .. } => {
            let r0 = first_rect(rect, split.direction);
            let r1 = second_rect(rect, split.direction);
            let a = leaf_rects(*first, r0);
            let b = leaf_rects(*second, r1);
            let s = leaf_rects(tree, rect);
            let mid = pick(*first, r0, pos, found);
            lemma_halves_partition(rect, split.direction, pos);
            lemma_pick(*first, r0, pos, found);
            lemma_pick(*second, r1, pos, mid);
            assert(s == a + b);
            if r1.contains(pos) {
                let i = choose|i: int|
                    0 <= i < b.len() && (#[trigger] b[i]).1.contains(pos) && pick(
                        *second,
                        r1,
                        pos,
                        mid,
                    ) == Some(b[i].0);
                assert(s[a.len() + i] == b[i]);
            } else if r0.contains(pos) {
                let i = choose|i: int|
                    0 <= i < a.len() && (#[trigger] a[i]).1.contains(pos) && mid == Some(a[i].0);
                assert(s[i] == a[i]);
            }
        },
    }
}

/// A walk with the picker changes nothing in the tree and leaves the picker
/// with the pick.
pub proof fn lemma_picker_walk(
    tree: ViewportTree,
    parent: Option<ViewportNodeID>,
    rect: Rect,
    border_px: u32,
    pre: ViewportPicker,
    after: ViewportTree,
    post: ViewportPicker,
)
    requires
        visited(tree, parent, rect, border_px, pre, after, post),
    ensures
        after == tree,
        post == (ViewportPicker { found: pick(tree, rect, pre.pos, pre.found), ..pre }),
    decreases tree,
{
    match tree {
        ViewportTree::Leaf { .. } => {},
        ViewportTree::Split { id, split, first, second } => {
            let r0 = first_rect(rect, split.direction);
            let r1 = second_rect(rect, split.direction);
            let first2 = after->first;
            let second2 = after->second;
            let (mid1, mid2) = choose|mid1: ViewportPicker, mid2: ViewportPicker|
                {
                    &&& #[trigger] passes_through(mid1, mid2)
                    &&& mid1 == pre
                    &&& visited(*first, Some(id), r0, border_px, mid1, *first2, mid2)
                    &&& visited(*second, Some(id), r1, border_px, mid2, *second2, post)
                };
            lemma_picker_walk(*first, Some(id), r0, border_px, mid1, *first2, mid2);
            lemma_picker_walk(*second, Some(id), r1, border_px, mid2, *second2, post);
        },
    }
}

/// The visitor that writes down every leaf with its rectangle.
#[derive(Debug)]
pub struct LeafRects {
    pub rects: Vec<(ViewportNodeID, Rect)>,
}

impl LeafRects {
    pub fn new() -> (visitor: Self)
        ensures
            visitor.rects@ == Seq::<(ViewportNodeID, Rect)>::empty(),
    {
        LeafRects { rects: Vec::new() }
    }
}

impl ViewportVisitor for LeafRects {
    /// The leaf and its rectangle are added to the list, and the leaf is
    /// left as it is.
    open spec fn leaf_accepted(
        pre: Self,
        visit: LeafVisit,
        post: Self,
        info_after: ViewportInfo,
    ) -> bool {
        &&& info_after == visit.info
        &&& post.rects@ == pre.rects@.push((visit.id, visit.rect))
    }

    /// Splits are passed over.
    open spec fn split_accepted(pre: Self, visit: SplitVisit, post: Self) -> bool {
        post.rects@ == pre.rects@
    }

    fn accept_leaf_viewport(&mut self, args: AcceptLeafViewport<'_>) {
        self.rects.push((args.id, args.rect));
    }

    fn accept_split_viewport(&mut self, args: AcceptSplitViewport<'_>) {
    }
}

/// A walk with `LeafRects` changes nothing in the tree and adds the leaves
/// with their rectangles to the list, in the order of the walk.
pub proof fn lemma_leaf_rects_walk(
    tree: ViewportTree,
    parent: Option<ViewportNodeID>,
    rect: Rect,
    border_px: u32,
    pre: LeafRects,
    after: ViewportTree,
    post: LeafRects,
)
    requires
        visited(tree, parent, rect, border_px, pre, after, post),
    ensures
        after == tree,
        post.rects@ == pre.rects@ + leaf_rects(tree, rect),
    decreases tree,
{
    match tree {
        ViewportTree::Leaf { id, .. } => {
            assert(pre.rects@.push((id, rect)) =~= pre.rects@ + leaf_rects(tree, rect));
        },
        ViewportTree::Split { id, split, first, second } => {
            let r0 = first_rect(rect, split.direction);
            let r1 = second_rect(rect, split.direction);
            let first2 = after->first;
            let second2 = after->second;
            let (mid1, mid2) = choose|mid1: LeafRects, mid2: LeafRects|
                {
                    &&& #[trigger] passes_through(mid1, mid2)
                    &&& mid1.rects@ == pre.rects@
                    &&& visited(*first, Some(id), r0, border_px, mid1, *first2, mid2)
                    &&& visited(*second, Some(id), r1, border_px, mid2, *second2, post)
                };
            lemma_leaf_rects_walk(*first, Some(id), r0, border_px, mid1, *first2, mid2);
            lemma_leaf_rects_walk(*second, Some(id), r1, border_px, mid2, *second2, post);
            assert(post.rects@ =~= pre.rects@ + leaf_rects(tree, rect));
        },
    }
}

/// One call of a walk: for a leaf or for a split, with the node's
/// identifier.
#[derive(Debug, Copy, Clone, Hash, PartialEq, Eq, Structural)]
pub enum NodeCall {
    Leaf(ViewportNodeID),
    Split(ViewportNodeID),
}

impl NodeCall {
    /// The node that the call was for.
    pub open spec fn id(self) -> ViewportNodeID {
        match self {
            NodeCall::Leaf(id) => id,
            NodeCall::Split(id) => id,
        }
    }
}

/// The calls of a walk over the tree, in order: one for a node, then those
/// of its first child, then those of its second.
pub open spec fn calls(tree: ViewportTree) -> Seq<NodeCall>
    decreases tree,
{
    match tree {
        ViewportTree::Leaf { id, .. } => seq![NodeCall::Leaf(id)],
        ViewportTree::Split { id, first, second, .. } => seq![NodeCall::Split(id)] + calls(*first)
            + calls(*second),
    }
}

/// The visitor that writes down every call that it gets.
#[derive(Debug)]
pub struct NodeCalls {
    pub calls: Vec<NodeCall>,
}

impl NodeCalls {
    pub fn new() -> (visitor: Self)
        ensures
            visitor.calls@ == Seq::<NodeCall>::empty(),
    {
        NodeCalls { calls: Vec::new() }
    }
}

impl ViewportVisitor for NodeCalls {
    /// The call is added to the list, and the leaf is left as it is.
    open spec fn leaf_accepted(
        pre: Self,
        visit: LeafVisit,
        post: Self,
        info_after: ViewportInfo,
    ) -> bool {
        &&& info_after == visit.info
        &&& post.calls@ == pre.calls@.push(NodeCall::Leaf(visit.id))
    }

    /// The call is added to the list.
    open spec fn split_accepted(pre: Self, visit: SplitVisit, post: Self) -> bool {
        post.calls@ == pre.calls@.push(NodeCall::Split(visit.id))
    }

    fn accept_leaf_viewport(&mut self, args: AcceptLeafViewport<'_>) {
        self.calls.push(NodeCall::Leaf(args.id));
    }

    fn accept_split_viewport(&mut self, args: AcceptSplitViewport<'_>) {
        self.calls.push(NodeCall::Split(args.id));
    }
}

/// A walk with `NodeCalls` changes nothing in the tree and adds the calls of
/// the walk to the list: the visitor is called for every node of the tree,
/// in the order of the walk, and for nothing else.
pub proof fn lemma_node_calls_walk(
    tree: ViewportTree,
    parent: Option<ViewportNodeID>,
    rect: Rect,
    border_px: u32,
    pre: NodeCalls,
    after: ViewportTree,
    post: NodeCalls,
)
    requires
        visited(tree, parent, rect, border_px, pre, after, post),
    ensures
        after == tree,
        post.calls@ == pre.calls@ + calls(tree),
    decreases tree,
{
    match tree {
        ViewportTree::Leaf { id, .. } => {
            assert(pre.calls@.push(NodeCall::Leaf(id)) =~= pre.calls@ + calls(tree));
        },
        ViewportTree::Split { id, split, first, second } => {
            let r0 = first_rect(rect, split.direction);
            let r1 = second_rect(rect, split.direction);
            let first2 = after->first;
            let second2 = after->second;
            let (mid1, mid2) = choose|mid1: NodeCalls, mid2: NodeCalls|
                {
                    &&& #[trigger] passes_through(mid1, mid2)
                    &&& mid1.calls@ == pre.calls@.push(NodeCall::Split(id))
                    &&& visited(*first, Some(id), r0, border_px, mid1, *first2, mid2)
                    &&& visited(*second, Some(id), r1, border_px, mid2, *second2, post)
                };
            lemma_node_calls_walk(*first, Some(id), r0, border_px, mid1, *first2, mid2);
            lemma_node_calls_walk(*second, Some(id), r1, border_px, mid2, *second2, post);
            assert(post.calls@ =~= pre.calls@ + calls(tree));
        },
    }
}

/// The calls of a walk are for the nodes of the tree in the order of
/// `ids`, one call each; a call is for a leaf exactly where the node's
/// record is one.
pub proof fn lemma_calls_match_records(
    tree: ViewportTree,
    nodes: Map<ViewportNodeID, super::ViewportNode>,
    parent: Option<ViewportNodeID>,
)
    requires
        tree.agrees(nodes, parent),
    ensures
        calls(tree).len() == tree.ids().len(),
        forall|i: int|
            0 <= i < calls(tree).len() ==> {
                &&& (#[trigger] calls(tree)[i]).id() == tree.ids()[i]
                &&& nodes.contains_key(tree.ids()[i])
                &&& (calls(tree)[i] is Leaf <==> nodes[tree.ids()[i]] is Whole)
            },
    decreases tree,
{
    match tree {
        ViewportTree::Leaf { .. } => {},
        ViewportTree::Split { id, first, second, .. } => {
            lemma_calls_match_records(*first, nodes, Some(id));
            lemma_calls_match_records(*second, nodes, Some(id));
            let c = calls(tree);
            let a = calls(*first);
            let b = calls(*second);
            let ia = first.ids();
            let ib = second.ids();
            assert(c.len() == 1 + a.len() + b.len());
            assert(tree.ids().len() == 1 + ia.len() + ib.len());
            assert forall|i: int| 0 <= i < c.len() implies {
                &&& (#[trigger] c[i]).id() == tree.ids()[i]
                &&& nodes.contains_key(tree.ids()[i])
                &&& (c[i] is Leaf <==> nodes[tree.ids()[i]] is Whole)
            } by {
                if i == 0 {
                } else if i < 1 + a.len() {
                    assert(c[i] == a[i - 1]);
                    assert(tree.ids()[i] == ia[i - 1]);
                } else {
                    assert(c[i] == b[i - 1 - a.len()]);
                    assert(tree.ids()[i] == ib[i - 1 - ia.len()]);
                }
            }
        },
    }
}

} // verus!
