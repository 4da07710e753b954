use std::collections::HashMap;
use std::rc::Rc;

use game::device::{Key, Keysym, MouseButton};
use game::event::Event;
use game::gl_setup::GlErrorTally;
use game::math::{Extent2, Rect};
use game::mdi::{GLDrawElementsIndirectCommand, HeapInfo};
use game::platform::{DmcEvent, DmcPlatform};
use game::text::{Atlas, AtlasGlyphInfo, AtlasInfo, Font, PenOffset, TextMesh};
use game::viewport::node::{ViewportNode, ViewportNodeValue};
use game::viewport::{
    Split, SplitDirection, SplitOrigin, SplitUnit, ViewportDB, ViewportInfo, ViewportInputHandler,
    ViewportNodeID,
};

fn glyph(x: u32, advance: i16) -> AtlasGlyphInfo {
    AtlasGlyphInfo {
        bounds_px: Rect::new(x, 0, 6, 9),
        bearing_px: PenOffset { x: 1, y: 8 },
        advance_px: PenOffset { x: advance, y: 0 },
    }
}

fn atlas_info() -> Rc<AtlasInfo> {
    let mut glyphs = HashMap::new();
    glyphs.insert(' ' as u32, glyph(0, 4));
    glyphs.insert('?' as u32, glyph(10, 7));
    glyphs.insert('a' as u32, glyph(20, 6));
    glyphs.insert('b' as u32, glyph(30, 5));
    let atlas = Atlas { glyphs, size: Extent2::new(128, 128) };
    let info = AtlasInfo::new(&Font { height_px: 11 }, &atlas);
    assert_eq!(info.font_height_px(), 11);
    assert_eq!(info.atlas_size(), Extent2::new(128, 128));
    assert_eq!(info.glyph('a' as u32), Some(glyph(20, 6)));
    assert_eq!(info.glyph('z' as u32), None);
    Rc::new(info)
}

#[test]
fn text_is_laid_out_glyph_by_glyph() {
    let mut mesh = TextMesh::with_capacity(8, atlas_info());
    assert_eq!(mesh.nb_quads(), 0);
    assert_eq!(mesh.max_quads(), 8);
    let geometry = mesh.set_text("ab a\n\tz\r\u{7f}b");
    let placed: Vec<(char, i16, i16)> = geometry
        .quads
        .iter()
        .map(|q| (char::from_u32(q.glyph).unwrap(), q.cursor.x, q.cursor.y))
        .collect();
    assert_eq!(
        placed,
        vec![('a', 0, 0), ('b', 6, 0), ('a', 15, 0), ('?', 16, 11), ('b', 23, 11)]
    );
    assert_eq!(geometry.quads[3].info, glyph(10, 7));
    assert_eq!(
        geometry.indices,
        vec![
            0, 1, 2, 3, 2, 1, 4, 5, 6, 7, 6, 5, 8, 9, 10, 11, 10, 9, 12, 13, 14, 15, 14, 13, 16,
            17, 18, 19, 18, 17
        ]
    );
    assert_eq!(mesh.nb_quads(), 5);
    assert_eq!(mesh.nb_indices(), 30);

    let empty = mesh.set_text("");
    assert!(empty.quads.is_empty() && empty.indices.is_empty());
    assert_eq!(mesh.nb_quads(), 0);
}

#[test]
fn text_that_cannot_be_laid_out_is_refused() {
    let mut mesh = TextMesh::with_capacity(2, atlas_info());
    assert!(mesh.try_set_text("ab").is_some());
    assert_eq!(mesh.nb_quads(), 2);
    // No room for a third quad.
    assert!(mesh.try_set_text("aba").is_none());
    assert_eq!(mesh.nb_quads(), 0);
    // Spaces take no room.
    assert!(mesh.try_set_text("a  b   ").is_some());

    // The pen leaves its 16 bits after 2979 lines of height 11.
    let lines: String = "\n".repeat(2978);
    assert!(mesh.try_set_text(&lines).is_some());
    let lines: String = "\n".repeat(2979);
    assert!(mesh.try_set_text(&lines).is_none());

    // Without `?` in the atlas an unknown character cannot be shown.
    let mut glyphs = HashMap::new();
    glyphs.insert('a' as u32, glyph(0, 6));
    let bare = Rc::new(AtlasInfo::new(
        &Font { height_px: 40000 },
        &Atlas { glyphs, size: Extent2::new(8, 8) },
    ));
    let mut mesh = TextMesh::with_capacity(4, bare);
    assert!(mesh.try_set_text("aa").is_some());
    assert!(mesh.try_set_text("ab").is_none());
    assert!(mesh.try_set_text("a a").is_none());
    assert!(mesh.try_set_text("a\ta").is_none());
    assert!(mesh.try_set_text("a\n").is_none());
    assert!(mesh.try_set_text("a\r").is_some());
}

#[test]
fn sixteen_bit_indices_address_16384_quads() {
    let mut glyphs = HashMap::new();
    let still = AtlasGlyphInfo {
        bounds_px: Rect::new(0, 0, 1, 1),
        bearing_px: PenOffset { x: 0, y: 0 },
        advance_px: PenOffset { x: 0, y: 0 },
    };
    glyphs.insert('.' as u32, still);
    let info = Rc::new(AtlasInfo::new(
        &Font { height_px: 1 },
        &Atlas { glyphs, size: Extent2::new(1, 1) },
    ));
    let mut mesh = TextMesh::with_capacity(usize::MAX, info);
    let geometry = mesh.try_set_text(&".".repeat(16384)).unwrap();
    assert_eq!(geometry.quads.len(), 16384);
    assert_eq!(geometry.indices.len(), 6 * 16384);
    assert_eq!(geometry.indices[6 * 16384 - 3], 65535);
    assert_eq!(geometry.indices[6 * 16383], 65532);
    assert_eq!(mesh.nb_indices(), 98304);
    assert!(mesh.try_set_text(&".".repeat(16385)).is_none());
}

#[test]
fn draw_commands_follow_the_heap() {
    let mut heap = HeapInfo::new();
    assert!(heap.draw_commands().is_empty());
    heap.add_meshes();
    assert_eq!(heap.vertex_ranges, vec![0..3, 3..6]);
    assert_eq!(heap.index_ranges, vec![0..3, 3..6]);
    assert_eq!(heap.instance_ranges, vec![0..3, 3..6]);
    assert_eq!(heap.instance_range_mesh_entry, vec![0, 1]);
    assert_eq!(
        heap.draw_commands(),
        vec![
            GLDrawElementsIndirectCommand {
                nb_indices: 3,
                nb_instances: 3,
                first_index: 0,
                base_vertex: 0,
                base_instance: 0,
            },
            GLDrawElementsIndirectCommand {
                nb_indices: 3,
                nb_instances: 3,
                first_index: 3,
                base_vertex: 3,
                base_instance: 3,
            },
        ]
    );
    let heap = HeapInfo {
        vertex_ranges: vec![10..20, 20..50],
        index_ranges: vec![7..9, 9..30],
        instance_ranges: vec![0..1, 1..5, 5..6],
        instance_range_mesh_entry: vec![1, 0],
    };
    assert_eq!(
        heap.draw_commands(),
        vec![
            GLDrawElementsIndirectCommand {
                nb_indices: 21,
                nb_instances: 1,
                first_index: 9,
                base_vertex: 20,
                base_instance: 0,
            },
            GLDrawElementsIndirectCommand {
                nb_indices: 2,
                nb_instances: 4,
                first_index: 7,
                base_vertex: 10,
                base_instance: 1,
            },
        ]
    );
}

#[test]
fn node_records_in_both_forms() {
    let leaf = ViewportInfo::default();
    let root = ViewportNode::new_root(leaf);
    assert_eq!(root.parent, None);
    assert_eq!(*root.value.unwrap_leaf(), leaf);

    let mut db = ViewportDB::new();
    assert_eq!(db.root_node(), root);
    db.split_v();
    let node = db.root_node();
    assert_eq!(node.parent, None);
    assert_eq!(
        node.value,
        ViewportNodeValue::Split {
            split: Split {
                origin: SplitOrigin::Middle,
                unit: SplitUnit::Ratio,
                value: 0,
                direction: SplitDirection::Vertical,
            },
            children: (ViewportNodeID(1), ViewportNodeID(2)),
        }
    );
    let child = ViewportNode::from_record(db.node(ViewportNodeID(1)).unwrap());
    assert_eq!(child.parent, Some(ViewportNodeID(0)));
    assert_eq!(*child.value.unwrap_leaf(), leaf);
}

#[test]
fn window_events_are_translated_and_queued_in_order() {
    let key = Key { code: 30, sym: Some(Keysym::V) };
    let mut platform = DmcPlatform::new();
    assert_eq!(platform.poll_event(), None);
    platform.pump_dmc_event(DmcEvent::WindowResized { size: Extent2::new(640, 480) });
    platform.pump_dmc_event(DmcEvent::KeyboardKeyPressed { key, is_repeat: true });
    platform.pump_dmc_event(DmcEvent::KeyboardKeyPressed { key, is_repeat: false });
    platform.pump_dmc_event(DmcEvent::WindowMoved { x: 1, y: 2 });
    platform.pump_dmc_event(DmcEvent::KeyboardTextString { text: vec!['h', 'é', '!'] });
    platform.pump_dmc_event(DmcEvent::WindowCloseRequested);
    platform.pump_dmc_event(DmcEvent::MouseMotion { x: 3, y: 4 });
    platform.pump_dmc_event(DmcEvent::MouseScrollRaw { x: -1, y: 2 });
    platform.pump_dmc_event(DmcEvent::MouseButtonPressed { button: MouseButton::Left });
    platform.pump_dmc_event(DmcEvent::KeyboardTextString { text: vec![] });
    platform.pump_dmc_event(DmcEvent::Quit);
    let mut seen = vec![];
    while let Some(event) = platform.poll_event() {
        seen.push(event);
    }
    assert_eq!(
        seen,
        vec![
            Event::CanvasResized(640, 480),
            Event::KeyboardKeyPressed(key),
            Event::KeyboardTextChar('h'),
            Event::KeyboardTextChar('é'),
            Event::KeyboardTextChar('!'),
            Event::Quit,
            Event::MouseMotion(3, 4),
            Event::MouseScrollRaw(-1, 2),
            Event::MouseButtonPressed(MouseButton::Left),
            Event::Quit,
        ]
    );
    assert_eq!(platform.poll_event(), None);
}

#[test]
fn events_reach_the_viewport_handler() {
    let mut db = ViewportDB::new();
    let mut handler = ViewportInputHandler::new();
    let canvas = Extent2::new(100, 100);
    let press = |sym| Event::KeyboardKeyPressed(Key { code: 0, sym: Some(sym) });

    assert_eq!(press(Keysym::V).dispatch(&mut handler, &mut db, canvas), None);
    assert_eq!(db.focused(), ViewportNodeID(1));
    let released = Event::KeyboardKeyReleased(Key { code: 0, sym: Some(Keysym::V) });
    assert_eq!(released.dispatch(&mut handler, &mut db, canvas), None);
    assert_eq!(db.focused(), ViewportNodeID(1));

    let cursor = Event::MouseMotion(75, 50).dispatch(&mut handler, &mut db, canvas);
    assert!(cursor.is_some());
    assert_eq!(db.hovered(), Some(ViewportNodeID(2)));
    Event::MouseButtonReleased(MouseButton::Left).dispatch(&mut handler, &mut db, canvas);
    assert_eq!(db.focused(), ViewportNodeID(1));
    Event::MouseButtonPressed(MouseButton::Left).dispatch(&mut handler, &mut db, canvas);
    assert_eq!(db.focused(), ViewportNodeID(2));
    Event::MouseLeave.dispatch(&mut handler, &mut db, canvas);
    assert_eq!(db.hovered(), None);

    for event in [Event::Quit, Event::CanvasResized(5, 5), Event::KeyboardTextChar('v'), Event::MouseEnter] {
        assert_eq!(event.dispatch(&mut handler, &mut db, canvas), None);
    }
    assert_eq!(db.focused(), ViewportNodeID(2));
    press(Keysym::M).dispatch(&mut handler, &mut db, canvas);
    assert_eq!(db.focused(), ViewportNodeID(0));
}

#[test]
fn driver_errors_are_tallied() {
    let mut tally = GlErrorTally::new();
    assert_eq!(tally.error_hook(None), Ok(()));
    assert_eq!(tally.error_hook(Some(0x0502)), Ok(()));
    assert_eq!(tally.error_hook(Some(0x0501)), Ok(()));
    assert_eq!(tally.nb_errors(), 2);
    assert_eq!(tally.error_hook(None), Err(2));
    assert_eq!(tally.nb_errors(), 2);
}
