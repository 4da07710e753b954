use game::math::{Rect, Rgba, Vec2};
use game::viewport::visit::{
    AcceptLeafViewport, AcceptSplitViewport, NodeCall, ViewportPicker, ViewportVisitor,
};
use game::viewport::{
    Split, SplitDirection, SplitOrigin, SplitUnit, ViewportDB, ViewportInfo, ViewportNode,
    ViewportNodeID,
};

fn whole(db: &ViewportDB, id: u32) -> (Option<ViewportNodeID>, ViewportInfo) {
    match db.node(ViewportNodeID(id)) {
        Some(ViewportNode::Whole { parent, info }) => (*parent, *info),
        other => panic!("node {} is not a leaf: {:?}", id, other),
    }
}

fn split_of(db: &ViewportDB, id: u32) -> (Option<ViewportNodeID>, Split, (ViewportNodeID, ViewportNodeID)) {
    match db.node(ViewportNodeID(id)) {
        Some(ViewportNode::Split { parent, split, children }) => (*parent, *split, *children),
        other => panic!("node {} is not a split: {:?}", id, other),
    }
}

#[test]
fn new_is_a_single_focused_leaf() {
    let db = ViewportDB::new();
    assert_eq!(db.root(), ViewportNodeID(0));
    assert_eq!(db.focused(), ViewportNodeID(0));
    assert_eq!(db.hovered(), None);
    assert_eq!(db.border_px(), 1);
    assert_eq!(db.border_color(), Rgba::grey(245));
    let (parent, info) = whole(&db, 0);
    assert_eq!(parent, None);
    assert_eq!(info, ViewportInfo::default());
    assert_eq!(info.clear_color, Rgba::new(0, 0, 0, 0));
    assert!(db.node(ViewportNodeID(1)).is_none());
    assert!(db.is_leaf(ViewportNodeID(0)));
    assert!(!db.is_leaf(ViewportNodeID(1)));
}

#[test]
fn split_split_merge_merge() {
    let mut db = ViewportDB::new();

    db.split_v();
    let (parent, split, children) = split_of(&db, 0);
    assert_eq!(parent, None);
    assert_eq!(split.direction, SplitDirection::Vertical);
    assert_eq!(split.origin, SplitOrigin::Middle);
    assert_eq!(split.unit, SplitUnit::Ratio);
    assert_eq!(split.value, 0);
    assert_eq!(children, (ViewportNodeID(1), ViewportNodeID(2)));
    assert_eq!(db.focused(), ViewportNodeID(1));
    assert_eq!(whole(&db, 1).0, Some(ViewportNodeID(0)));
    assert_eq!(whole(&db, 2).0, Some(ViewportNodeID(0)));

    db.split_h();
    let (parent, split, children) = split_of(&db, 1);
    assert_eq!(parent, Some(ViewportNodeID(0)));
    assert_eq!(split.direction, SplitDirection::Horizontal);
    assert_eq!(children, (ViewportNodeID(3), ViewportNodeID(4)));
    assert_eq!(db.focused(), ViewportNodeID(3));

    db.merge();
    assert_eq!(whole(&db, 1).0, Some(ViewportNodeID(0)));
    assert!(db.node(ViewportNodeID(3)).is_none());
    assert!(db.node(ViewportNodeID(4)).is_none());
    assert_eq!(db.focused(), ViewportNodeID(1));

    db.merge();
    assert_eq!(whole(&db, 0).0, None);
    assert!(db.node(ViewportNodeID(1)).is_none());
    assert!(db.node(ViewportNodeID(2)).is_none());
    assert_eq!(db.focused(), ViewportNodeID(0));
    assert_eq!(db.root(), ViewportNodeID(0));
}

#[test]
fn merge_on_the_root_changes_nothing() {
    let mut db = ViewportDB::new();
    db.merge();
    assert_eq!(db.focused(), ViewportNodeID(0));
    assert_eq!(whole(&db, 0), (None, ViewportInfo::default()));
}

#[test]
fn split_copies_the_info_and_colors_the_second_child() {
    let mut db = ViewportDB::new();
    let shown = ViewportInfo { clear_color: Rgba::new(1, 2, 3, 4), skybox_cubemap_selector: None };
    db.set_leaf_info(ViewportNodeID(0), shown);
    db.split_with_color(SplitDirection::Horizontal, Rgba::new_opaque(10, 20, 30));
    assert_eq!(whole(&db, 1), (Some(ViewportNodeID(0)), shown));
    let (parent, info) = whole(&db, 2);
    assert_eq!(parent, Some(ViewportNodeID(0)));
    assert_eq!(info.clear_color, Rgba::new(10, 20, 30, 255));
    assert_eq!(info.skybox_cubemap_selector, None);
}

#[test]
fn random_split_color_is_opaque() {
    let mut db = ViewportDB::new();
    db.split(SplitDirection::Vertical);
    assert_eq!(whole(&db, 2).1.clear_color.a, 255);
    assert_eq!(whole(&db, 1).1, ViewportInfo::default());
}

#[test]
fn split_then_merge_restores_the_leaf_for_both_directions() {
    for direction in [SplitDirection::Horizontal, SplitDirection::Vertical] {
        let mut db = ViewportDB::new();
        db.split_v();
        db.focus(ViewportNodeID(2));
        let before = whole(&db, 2);
        db.split(direction);
        assert_eq!(db.focused(), ViewportNodeID(3));
        db.merge();
        assert_eq!(db.focused(), ViewportNodeID(2));
        assert_eq!(whole(&db, 2), before);
        assert!(db.node(ViewportNodeID(3)).is_none());
        assert!(db.node(ViewportNodeID(4)).is_none());
        assert_eq!(split_of(&db, 0).2, (ViewportNodeID(1), ViewportNodeID(2)));
    }
}

#[derive(Default)]
struct Recorder {
    leaves: Vec<(u32, Rect, Option<ViewportNodeID>, u32)>,
    splits: Vec<(u32, Rect, SplitDirection, u32, Option<ViewportNodeID>, u32)>,
    order: Vec<u32>,
}

impl ViewportVisitor for Recorder {
    fn accept_leaf_viewport(&mut self, args: AcceptLeafViewport<'_>) {
        self.leaves.push((args.id.0, args.rect, args.parent, args.border_px));
        self.order.push(args.id.0);
        args.info.clear_color = Rgba::new(args.id.0 as u8, 0, 0, 255);
    }
    fn accept_split_viewport(&mut self, args: AcceptSplitViewport<'_>) {
        self.splits.push((
            args.id.0,
            args.rect,
            args.split_direction,
            *args.distance_from_left_or_bottom_px,
            args.parent,
            args.border_px,
        ));
        self.order.push(args.id.0);
        *args.distance_from_left_or_bottom_px = 0;
    }
}

#[test]
fn visit_walks_in_preorder_with_halved_rectangles() {
    let mut db = ViewportDB::new();
    db.split_v();
    db.split_h();
    let mut rec = Recorder::default();
    db.visit(Rect::new(10, 20, 101, 51), &mut rec);
    assert_eq!(rec.order, vec![0, 1, 3, 4, 2]);
    assert_eq!(
        rec.splits,
        vec![
            (0, Rect::new(10, 20, 101, 51), SplitDirection::Vertical, 60, None, 0),
            (1, Rect::new(10, 20, 50, 51), SplitDirection::Horizontal, 45, Some(ViewportNodeID(0)), 1),
        ]
    );
    assert_eq!(
        rec.leaves,
        vec![
            (3, Rect::new(10, 20, 50, 25), Some(ViewportNodeID(1)), 1),
            (4, Rect::new(10, 45, 50, 26), Some(ViewportNodeID(1)), 1),
            (2, Rect::new(60, 20, 51, 51), Some(ViewportNodeID(0)), 1),
        ]
    );
    assert_eq!(whole(&db, 3).1.clear_color, Rgba::new(3, 0, 0, 255));
    assert_eq!(whole(&db, 4).1.clear_color, Rgba::new(4, 0, 0, 255));
    assert_eq!(whole(&db, 2).1.clear_color, Rgba::new(2, 0, 0, 255));
    assert_eq!(db.focused(), ViewportNodeID(3));
}

#[test]
fn visit_of_a_single_leaf_has_no_border() {
    let mut db = ViewportDB::new();
    let mut rec = Recorder::default();
    db.visit(Rect::new(0, 0, 8, 8), &mut rec);
    assert_eq!(rec.leaves, vec![(0, Rect::new(0, 0, 8, 8), None, 0)]);
    assert!(rec.splits.is_empty());
}

#[test]
fn every_point_is_in_exactly_one_leaf() {
    let mut db = ViewportDB::new();
    db.split_v();
    db.split_h();
    db.focus(ViewportNodeID(2));
    db.split_h();
    let root = Rect::new(3, 5, 7, 9);
    let leaves = db.leaf_rects(root);
    assert_eq!(leaves.len(), 4);
    for x in 0..14 {
        for y in 0..18 {
            let p = Vec2::new(x, y);
            let hits = leaves.iter().filter(|l| l.1.contains_point(p)).count();
            assert_eq!(hits, if root.contains_point(p) { 1 } else { 0 }, "at {:?}", p);
            let mut picker = ViewportPicker::new(p);
            db.visit(root, &mut picker);
            let owner = leaves.iter().find(|l| l.1.contains_point(p)).map(|l| l.0);
            assert_eq!(picker.found, owner, "at {:?}", p);
        }
    }
    let area: u32 = leaves.iter().map(|l| l.1.w * l.1.h).sum();
    assert_eq!(area, 7 * 9);
}

#[test]
fn leaf_rects_lists_the_leaves_and_changes_nothing() {
    let mut db = ViewportDB::new();
    db.split_h();
    db.focus(ViewportNodeID(2));
    db.split_v();
    let rects = db.leaf_rects(Rect::new(0, 0, 9, 9));
    assert_eq!(
        rects,
        vec![
            (ViewportNodeID(1), Rect::new(0, 0, 9, 4)),
            (ViewportNodeID(3), Rect::new(0, 4, 4, 5)),
            (ViewportNodeID(4), Rect::new(4, 4, 5, 5)),
        ]
    );
    assert_eq!(db.focused(), ViewportNodeID(3));
    assert_eq!(db.leaf_rects(Rect::new(0, 0, 0, 0)).len(), 3);
}

/// Walks the records from the root and returns the identifiers met, after
/// checking that every child names its parent.
fn walk(db: &ViewportDB, id: ViewportNodeID, parent: Option<ViewportNodeID>, met: &mut Vec<u32>) {
    met.push(id.0);
    match db.node(id).expect("a node of the tree has a record") {
        ViewportNode::Whole { parent: p, .. } => assert_eq!(*p, parent),
        ViewportNode::Split { parent: p, children, .. } => {
            assert_eq!(*p, parent);
            walk(db, children.0, Some(id), met);
            walk(db, children.1, Some(id), met);
        }
    }
}

#[test]
fn the_tree_stays_connected_and_the_focus_on_a_leaf() {
    let mut db = ViewportDB::new();
    let mut allocated = 1;
    // Splits, merges and moves of the focus to the leaf of the given number.
    let steps = [
        "v", "h", "h", "m", "v", "m", "m", "v", "m", "m", "m", "h", "v", "12", "h", "13", "m",
        "v", "m", "m",
    ];
    for step in steps {
        match step {
            "v" => db.split_v(),
            "h" => db.split_h(),
            "m" => db.merge(),
            id => db.focus(ViewportNodeID(id.parse().unwrap())),
        }
        let mut met = vec![];
        walk(&db, db.root(), None, &mut met);
        let mut sorted = met.clone();
        sorted.sort();
        sorted.dedup();
        assert_eq!(sorted.len(), met.len(), "a node was met twice after {}", step);
        allocated = allocated.max(met.iter().max().unwrap() + 1);
        let records = (0..allocated + 2).filter(|&i| db.node(ViewportNodeID(i)).is_some()).count();
        assert_eq!(records, met.len(), "a record lies outside the tree after {}", step);
        assert!(db.is_leaf(db.focused()));
        assert!(matches!(db.node(db.focused()), Some(ViewportNode::Whole { .. })));
        assert_eq!(db.root(), ViewportNodeID(0));
    }
}

#[test]
fn a_walk_calls_once_for_every_node() {
    let mut db = ViewportDB::new();
    assert_eq!(db.calls(), vec![NodeCall::Leaf(ViewportNodeID(0))]);
    db.split_v();
    db.split_h();
    db.focus(ViewportNodeID(2));
    db.split_v();
    let id = ViewportNodeID;
    assert_eq!(
        db.calls(),
        vec![
            NodeCall::Split(id(0)),
            NodeCall::Split(id(1)),
            NodeCall::Leaf(id(3)),
            NodeCall::Leaf(id(4)),
            NodeCall::Split(id(2)),
            NodeCall::Leaf(id(5)),
            NodeCall::Leaf(id(6)),
        ]
    );
    for call in db.calls() {
        let (node, leaf) = match call {
            NodeCall::Leaf(node) => (node, true),
            NodeCall::Split(node) => (node, false),
        };
        assert_eq!(matches!(db.node(node), Some(ViewportNode::Whole { .. })), leaf);
        assert_eq!(db.is_leaf(node), leaf);
    }
    assert_eq!(db.focused(), ViewportNodeID(5));
    db.focus(ViewportNodeID(3));
    db.merge();
    db.merge();
    assert_eq!(db.calls(), vec![NodeCall::Leaf(id(0))]);
}

#[test]
fn a_merge_next_to_a_split_removes_all_that_hangs_below() {
    let mut db = ViewportDB::new();
    db.split_v();
    db.split_h();
    db.focus(ViewportNodeID(4));
    db.split_v();
    db.focus(ViewportNodeID(2));
    db.merge();
    assert_eq!(db.focused(), ViewportNodeID(0));
    assert!(db.is_leaf(ViewportNodeID(0)));
    for id in 1..=8 {
        assert!(db.node(ViewportNodeID(id)).is_none(), "record {} is still allocated", id);
        assert!(!db.is_leaf(ViewportNodeID(id)));
    }
    assert_eq!(whole(&db, 0).0, None);
    assert_eq!(db.leaf_rects(Rect::new(0, 0, 4, 4)), vec![(ViewportNodeID(0), Rect::new(0, 0, 4, 4))]);
    // Identifiers are not handed out again.
    db.split_h();
    assert_eq!(split_of(&db, 0).2, (ViewportNodeID(7), ViewportNodeID(8)));
}

#[test]
fn a_merge_takes_what_the_focused_leaf_shows() {
    let mut db = ViewportDB::new();
    db.split_with_color(SplitDirection::Vertical, Rgba::new_opaque(9, 8, 7));
    db.focus(ViewportNodeID(2));
    db.split_h();
    // 0 = (1 | 2), 2 = (3 / 4); the focus is on 3.
    db.focus(ViewportNodeID(1));
    let shown = whole(&db, 1).1;
    db.merge();
    assert_eq!(whole(&db, 0), (None, shown));
    for id in 1..=4 {
        assert!(db.node(ViewportNodeID(id)).is_none());
    }
}

#[test]
fn a_hover_on_a_node_that_stops_being_a_leaf_is_cleared() {
    let mut db = ViewportDB::new();
    db.hover(Some(ViewportNodeID(0)));
    db.split_v();
    assert_eq!(db.hovered(), None);
    db.hover(Some(ViewportNodeID(2)));
    db.split_h();
    // The focus was on 1; the hover on 2 is untouched.
    assert_eq!(db.hovered(), Some(ViewportNodeID(2)));
    db.merge();
    assert_eq!(db.hovered(), Some(ViewportNodeID(2)));
    assert_eq!(db.focused(), ViewportNodeID(1));
    db.merge();
    assert_eq!(db.hovered(), None);
    assert_eq!(db.focused(), ViewportNodeID(0));
}

#[test]
fn picker_takes_the_right_or_upper_leaf_on_a_divider() {
    let mut db = ViewportDB::new();
    db.split_v();
    db.split_h();
    let rect = Rect::new(0, 0, 100, 100);
    let pick = |db: &mut ViewportDB, x: u32, y: u32| {
        let mut picker = ViewportPicker::new(Vec2::new(x, y));
        db.visit(rect, &mut picker);
        picker.found
    };
    assert_eq!(pick(&mut db, 0, 0), Some(ViewportNodeID(3)));
    assert_eq!(pick(&mut db, 49, 49), Some(ViewportNodeID(3)));
    assert_eq!(pick(&mut db, 49, 50), Some(ViewportNodeID(4)));
    assert_eq!(pick(&mut db, 50, 50), Some(ViewportNodeID(2)));
    assert_eq!(pick(&mut db, 50, 0), Some(ViewportNodeID(2)));
    assert_eq!(pick(&mut db, 99, 99), Some(ViewportNodeID(2)));
    assert_eq!(pick(&mut db, 100, 50), None);
    assert_eq!(pick(&mut db, 50, 100), None);
}

#[test]
fn contains_point_is_half_open() {
    let r = Rect::new(2, 3, 4, 5);
    assert!(r.contains_point(Vec2::new(2, 3)));
    assert!(r.contains_point(Vec2::new(5, 7)));
    assert!(!r.contains_point(Vec2::new(6, 7)));
    assert!(!r.contains_point(Vec2::new(5, 8)));
    assert!(!r.contains_point(Vec2::new(1, 3)));
    assert!(!r.contains_point(Vec2::new(2, 2)));
    assert!(!Rect::new(2, 3, 0, 5).contains_point(Vec2::new(2, 3)));
    let edge = Rect::new(u32::MAX - 1, 0, 1, 1);
    assert!(edge.is_representable());
    assert!(edge.contains_point(Vec2::new(u32::MAX - 1, 0)));
    assert!(!Rect::new(u32::MAX, 0, 1, 1).is_representable());
}

#[test]
fn cuts_round_the_first_half_down() {
    assert_eq!(
        Rect::new(1, 2, 5, 7).cut_horizontal(),
        (Rect::new(1, 2, 5, 3), Rect::new(1, 5, 5, 4))
    );
    assert_eq!(
        Rect::new(1, 2, 5, 7).cut_vertical(),
        (Rect::new(1, 2, 2, 7), Rect::new(3, 2, 3, 7))
    );
    assert_eq!(
        Rect::new(0, 0, 1, 1).cut_vertical(),
        (Rect::new(0, 0, 0, 1), Rect::new(0, 0, 1, 1))
    );
}
