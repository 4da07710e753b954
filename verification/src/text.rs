//! Laying out a line of text as quads, one for each glyph, in whole pixels.
//!
//! The pen starts at the origin and moves with each character: a newline
//! takes it to the start of the next line, a space or a tab moves it by the
//! advance of the space glyph, once or four times, other control characters
//! leave it alone, and any other character puts down the quad of its glyph,
//! or of `?` where the atlas has no such glyph, and moves the pen by the
//! glyph's advance. The division by the atlas size that turns pixels into
//! texture coordinates is left to the caller.

use std::collections::HashMap;
use std::rc::Rc;
use vstd::prelude::*;
use vstd::std_specs::hash::group_hash_axioms;
use vstd::std_specs::iter::IteratorSpec;
use vstd::string::{axiom_spec_iter, next_postcondition};
use crate::math::{Extent2, Rect};

verus! {

/// A position or a displacement of the pen, in pixels.
#[derive(Debug, Default, Copy, Clone, Hash, PartialEq, Eq, Structural)]
pub struct PenOffset {
    pub x: i16,
    pub y: i16,
}

/// Where a glyph lies in the atlas and how the pen moves with it.
#[derive(Debug, Copy, Clone, Hash, PartialEq, Eq, Structural)]
pub struct AtlasGlyphInfo {
    pub bounds_px: Rect,
    pub bearing_px: PenOffset,
    pub advance_px: PenOffset,
}

/// What the layout reads of a font.
#[derive(Debug, Copy, Clone, Hash, PartialEq, Eq, Structural)]
pub struct Font {
    pub height_px: u32,
}

/// What the layout reads of a glyph atlas: its glyphs by code point, and
/// the size of its image.
#[derive(Debug)]
pub struct Atlas {
    pub glyphs: HashMap<u32, AtlasGlyphInfo>,
    pub size: Extent2,
}

#[derive(Debug)]
pub struct AtlasInfo {
    glyphs: HashMap<u32, AtlasGlyphInfo>,
    font_height_px: u32,
    atlas_size: Extent2,
}

/// The quad of one glyph: where the pen was and which glyph it is.
#[derive(Debug, Copy, Clone, Hash, PartialEq, Eq, Structural)]
pub struct TextQuad {
    /// The code point of the glyph that is shown.
    pub glyph: u32,
    /// The pen position, `y` counted downwards.
    pub cursor: PenOffset,
    pub info: AtlasGlyphInfo,
}

/// The quads of a text and the indices that draw each quad as two
/// triangles.
#[derive(Debug)]
pub struct TextGeometry {
    pub quads: Vec<TextQuad>,
    pub indices: Vec<u16>,
}

/// A mesh that holds the quads of a text, up to a fixed number of them.
#[derive(Debug)]
pub struct TextMesh {
    nb_quads: usize,
    max_quads: usize,
    atlas_info: Rc<AtlasInfo>,
}

/// The pen and the quads put down so far.
pub struct TextPen {
    pub cur: PenOffset,
    pub quads: Seq<TextQuad>,
}

/// The code point of the space, whose advance also measures a tab.
pub const SPACE: u32 = 32;

/// The code point of `?`, the glyph for characters that the atlas lacks.
pub const FALLBACK: u32 = 63;

/// The most quads that 16-bit indices can address.
pub const MAX_ADDRESSABLE_QUADS: usize = 16384;

/// The pen moved by `dx` and `dy`, where it stays within 16 bits.
pub open spec fn pen_moved(cur: PenOffset, dx: int, dy: int) -> Option<PenOffset> {
    if i16::MIN <= cur.x + dx <= i16::MAX && i16::MIN <= cur.y + dy <= i16::MAX {
        Some(PenOffset { x: (cur.x + dx) as i16, y: (cur.y + dy) as i16 })
    } else {
        None
    }
}

/// The character is a control character of ASCII.
pub open spec fn is_control(code: u32) -> bool {
    code < 32 || code == 127
}

/// The six indices of the `q`-th quad: its corners 0, 1, 2 and 3, 2, 1.
pub open spec fn quad_index(j: int) -> u16 {
    let corner: int = if j % 6 == 0 {
        0
    } else if j % 6 == 1 {
        1
    } else if j % 6 == 2 {
        2
    } else if j % 6 == 3 {
        3
    } else if j % 6 == 4 {
        2
    } else {
        1
    };
    (4 * (j / 6) + corner) as u16
}

/// The indices of `n` quads.
pub open spec fn quad_indices(n: nat) -> Seq<u16> {
    Seq::new(6 * n, |j: int| quad_index(j))
}

/// What one character does to the pen and the quads, or `None` where the
/// text cannot be laid out: the pen would leave the 16 bits of its
/// coordinates, a glyph is wanted that the atlas lacks, as is `?`, or there
/// is no room for another quad.
pub open spec fn layout_step(
    glyphs: Map<u32, AtlasGlyphInfo>,
    font_height_px: u32,
    max_quads: usize,
    pen: TextPen,
    c: char,
) -> Option<TextPen> {
    let code = c as u32;
    if c == '\n' {
        if font_height_px <= i16::MAX && pen.cur.y + font_height_px <= i16::MAX {
            Some(
                TextPen {
                    cur: PenOffset { x: 0, y: (pen.cur.y + font_height_px) as i16 },
                    ..pen
                },
            )
        } else {
            None
        }
    } else if c == ' ' || c == '\t' {
        let times: int = if c == ' ' {
            1
        } else {
            4
        };
        if !glyphs.contains_key(SPACE) {
            None
        } else {
            let advance = glyphs[SPACE].advance_px;
            if i16::MIN <= advance.x * times <= i16::MAX && i16::MIN <= advance.y * times
                <= i16::MAX {
                match pen_moved(pen.cur, advance.x * times, advance.y * times) {
                    Some(cur) => Some(TextPen { cur, ..pen }),
                    None => None,
                }
            } else {
                None
            }
        }
    } else if is_control(code) {
        Some(pen)
    } else if !glyphs.contains_key(code) && !glyphs.contains_key(FALLBACK) {
        None
    } else if pen.quads.len() >= max_quads || pen.quads.len() >= MAX_ADDRESSABLE_QUADS {
        None
    } else {
        let glyph = if glyphs.contains_key(code) {
            code
        } else {
            FALLBACK
        };
        let info = glyphs[glyph];
        match pen_moved(pen.cur, info.advance_px.x as int, info.advance_px.y as int) {
            Some(cur) => Some(
                TextPen { cur, quads: pen.quads.push(TextQuad { glyph, cursor: pen.cur, info }) },
            ),
            None => None,
        }
    }
}

/// The pen and the quads after the characters of `text` from the `k`-th on,
/// starting from `pen`.
pub open spec fn layout_from(
    glyphs: Map<u32, AtlasGlyphInfo>,
    font_height_px: u32,
    max_quads: usize,
    text: Seq<char>,
    k: int,
    pen: TextPen,
) -> Option<TextPen>
    decreases text.len() - k,
{
    if k < 0 || k >= text.len() {
        Some(pen)
    } else {
        match layout_step(glyphs, font_height_px, max_quads, pen, text[k]) {
            Some(next) => layout_from(glyphs, font_height_px, max_quads, text, k + 1, next),
            None => None,
        }
    }
}

/// The quads of `text`, or `None` where it cannot be laid out.
pub open spec fn layout(
    glyphs: Map<u32, AtlasGlyphInfo>,
    font_height_px: u32,
    max_quads: usize,
    text: Seq<char>,
) -> Option<Seq<TextQuad>> {
    match layout_from(
        glyphs,
        font_height_px,
        max_quads,
        text,
        0,
        TextPen { cur: PenOffset { x: 0, y: 0 }, quads: Seq::empty() },
    ) {
        Some(pen) => Some(pen.quads),
        None => None,
    }
}

impl Font {
    pub fn height_px(&self) -> (h: u32)
        ensures
            h == self.height_px,
    {
        self.height_px
    }
}

impl Atlas {
    pub fn size(&self) -> (size: Extent2)
        ensures
            size == self.size,
    {
        self.size
    }
}

impl AtlasInfo {
    pub closed spec fn glyphs(&self) -> Map<u32, AtlasGlyphInfo> {
        self.glyphs@
    }

    pub closed spec fn font_height(&self) -> u32 {
        self.font_height_px
    }

    pub closed spec fn size(&self) -> Extent2 {
        self.atlas_size
    }

    pub fn new(font: &Font, atlas: &Atlas) -> (info: Self)
        ensures
            info.glyphs() == atlas.glyphs@,
            info.font_height() == font.height_px,
            info.size() == atlas.size,
    {
        Self {
            glyphs: atlas.glyphs.clone(),
            font_height_px: font.height_px(),
            atlas_size: atlas.size(),
        }
    }

    pub fn font_height_px(&self) -> (h: u32)
        ensures
            h == self.font_height(),
    {
        self.font_height_px
    }

    pub fn atlas_size(&self) -> (size: Extent2)
        ensures
            size == self.size(),
    {
        self.atlas_size
    }

    /// Where the glyph of the code point lies, if the atlas has it.
    pub fn glyph(&self, code: u32) -> (info: Option<AtlasGlyphInfo>)
        ensures
            info == if self.glyphs().contains_key(code) {
                Some(self.glyphs()[code])
            } else {
                None
            },
    {
        broadcast use group_hash_axioms;

        match self.glyphs.get(&code) {
            Some(info) => Some(*info),
            None => None,
        }
    }
}

fn move_pen(cur: PenOffset, by: PenOffset) -> (moved: Option<PenOffset>)
    ensures
        moved == pen_moved(cur, by.x as int, by.y as int),
{
    match (cur.x.checked_add(by.x), cur.y.checked_add(by.y)) {
        (Some(x), Some(y)) => Some(PenOffset { x, y }),
        _ => None,
    }
}

impl TextMesh {
    pub closed spec fn atlas(&self) -> AtlasInfo {
        *self.atlas_info
    }

    /// How many quads the mesh holds at present.
    pub closed spec fn quads(&self) -> usize {
        self.nb_quads
    }

    /// How many quads the mesh has room for.
    pub closed spec fn capacity(&self) -> usize {
        self.max_quads
    }

    /// The mesh holds no more quads than it has room for, nor more than its
    /// indices can address.
    pub open spec fn wf(&self) -> bool {
        self.quads() <= self.capacity() && self.quads() <= MAX_ADDRESSABLE_QUADS
    }

    /// What `text` is laid out as in this mesh, or `None` where it cannot be.
    pub open spec fn layout_of(&self, text: Seq<char>) -> Option<Seq<TextQuad>> {
        layout(self.atlas().glyphs(), self.atlas().font_height(), self.capacity(), text)
    }

    /// An empty mesh with room for `max_quads` quads.
    pub fn with_capacity(max_quads: usize, atlas_info: Rc<AtlasInfo>) -> (mesh: Self)
        ensures
            mesh.wf(),
            mesh.quads() == 0,
            mesh.capacity() == max_quads,
            mesh.atlas() == *atlas_info,
    {
        Self { nb_quads: 0, max_quads, atlas_info }
    }

    pub fn nb_quads(&self) -> (n: usize)
        ensures
            n == self.quads(),
    {
        self.nb_quads
    }

    pub fn max_quads(&self) -> (n: usize)
        ensures
            n == self.capacity(),
    {
        self.max_quads
    }

    /// How many indices a draw of the mesh reads: six for each quad.
    pub fn nb_indices(&self) -> (n: usize)
        requires
            self.wf(),
        ensures
            n == 6 * self.quads(),
    {
        self.nb_quads * 6
    }

    /// Lays out `string`, which must be a text that can be laid out, and
    /// makes its quads the content of the mesh.
    pub fn set_text(&mut self, string: &str) -> (geometry: TextGeometry)
        requires
            old(self).layout_of(string@) is Some,
        ensures
            final(self).wf(),
            final(self).atlas() == old(self).atlas(),
            final(self).capacity() == old(self).capacity(),
            geometry.quads@ == old(self).layout_of(string@)->0,
            geometry.indices@ == quad_indices(geometry.quads@.len()),
            final(self).quads() == geometry.quads@.len(),
    {
        match self.try_set_text(string) {
            Some(geometry) => geometry,
            None => vstd::pervasive::unreached(),
        }
    }

    /// Lays out `string` and makes its quads the content of the mesh. Where
    /// the text cannot be laid out, `None` comes back and the mesh is left
    /// empty.
    pub fn try_set_text(&mut self, string: &str) -> (geometry: Option<TextGeometry>)
        ensures
            final(self).wf(),
            final(self).atlas() == old(self).atlas(),
            final(self).capacity() == old(self).capacity(),
            geometry is Some <==> old(self).layout_of(string@) is Some,
            geometry matches Some(g) ==> {
                &&& g.quads@ == old(self).layout_of(string@)->0
                &&& g.indices@ == quad_indices(g.quads@.len())
                &&& final(self).quads() == g.quads@.len()
            },
            geometry is None ==> final(self).quads() == 0,
    {
        broadcast use {axiom_spec_iter, next_postcondition};

        let font_height_px = self.atlas_info.font_height_px();
        let max_quads = self.max_quads;
        let ghost glyphs = self.atlas().glyphs();
        let ghost text = string@;
        let ghost whole = layout_from(
            glyphs,
            font_height_px,
            max_quads,
            text,
            0,
            TextPen { cur: PenOffset { x: 0, y: 0 }, quads: Seq::empty() },
        );

        let mut cur = PenOffset { x: 0, y: 0 };
        let mut quads: Vec<TextQuad> = Vec::new();
        let mut indices: Vec<u16> = Vec::new();

        self.nb_quads = 0;

        let mut chars = string.chars();
        let ghost mut k: int = 0;
        loop
            invariant
                0 <= k <= text.len(),
                chars.remaining() == text.subrange(k, text.len() as int),
                text == string@,
                glyphs == self.atlas().glyphs(),
                font_height_px == self.atlas().font_height(),
                max_quads == self.capacity(),
                self.atlas() == old(self).atlas(),
                self.capacity() == old(self).capacity(),
                self.quads() == 0,
                quads@.len() <= max_quads,
                quads@.len() <= MAX_ADDRESSABLE_QUADS,
                indices@ == quad_indices(quads@.len()),
                whole == layout_from(
                    glyphs,
                    font_height_px,
                    max_quads,
                    text,
                    k,
                    TextPen { cur, quads: quads@ },
                ),
                whole == layout_from(
                    glyphs,
                    font_height_px,
                    max_quads,
                    text,
                    0,
                    TextPen { cur: PenOffset { x: 0, y: 0 }, quads: Seq::empty() },
                ),
            ensures
                k == text.len(),
            decreases text.len() - k,
        {
            let c = match chars.next() {
                Some(c) => c,
                None => {
                    break ;
                },
            };
            let code = c as u32;
            assert(whole == match layout_step(
                glyphs,
                font_height_px,
                max_quads,
                TextPen { cur, quads: quads@ },
                text[k],
            ) {
                Some(next) => layout_from(glyphs, font_height_px, max_quads, text, k + 1, next),
                None => None,
            });
            proof {
                assert(text.subrange(k, text.len() as int).drop_first() =~= text.subrange(
                    k + 1,
                    text.len() as int,
                ));
                k = k + 1;
            }
            if c == '\n' {
                if font_height_px > 32767 {
                    return None;
                }
                match cur.y.checked_add(font_height_px as i16) {
                    Some(y) => {
                        cur = PenOffset { x: 0, y };
                    },
                    None => {
                        return None;
                    },
                }
                continue ;
            }
            if c == ' ' || c == '\t' {
                let advance = match self.atlas_info.glyph(SPACE) {
                    Some(info) => info.advance_px,
                    None => {
                        return None;
                    },
                };
                let by = if c == ' ' {
                    advance
                } else {
                    match (advance.x.checked_mul(4), advance.y.checked_mul(4)) {
                        (Some(x), Some(y)) => PenOffset { x, y },
                        _ => {
                            return None;
                        },
                    }
                };
                match move_pen(cur, by) {
                    Some(moved) => {
                        cur = moved;
                    },
                    None => {
                        return None;
                    },
                }
                continue ;
            }
            if code < 32 || code == 127 {
                continue ;
            }
            let (glyph, info) = match self.atlas_info.glyph(code) {
                Some(info) => (code, info),
                None => match self.atlas_info.glyph(FALLBACK) {
                    Some(info) => (FALLBACK, info),
                    None => {
                        return None;
                    },
                },
            };
            if quads.len() >= max_quads || quads.len() >= MAX_ADDRESSABLE_QUADS {
                return None;
            }
            let moved = match move_pen(cur, info.advance_px) {
                Some(moved) => moved,
                None => {
                    return None;
                },
            };
            let ghost before = indices@;
            let ghost q = quads@.len();
            let i: u16 = quads.len() as u16;
            quads.push(TextQuad { glyph, cursor: cur, info });
            indices.push(i * 4 + 0);
            indices.push(i * 4 + 1);
            indices.push(i * 4 + 2);
            indices.push(i * 4 + 3);
            indices.push(i * 4 + 2);
            indices.push(i * 4 + 1);
            assert(indices@ =~= quad_indices(q + 1)) by {
                assert(indices@.len() == 6 * (q + 1));
                assert forall|j: int| 0 <= j < 6 * (q + 1) implies indices@[j] == quad_index(j) by {
                    if j < 6 * q {
                        assert(indices@[j] == before[j]);
                    }
                }
            }
            cur = moved;
        }
        self.nb_quads = quads.len();
        Some(TextGeometry { quads, indices })
    }
}

} // verus!
