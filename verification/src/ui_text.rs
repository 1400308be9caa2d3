//! Glyph layout: turning UTF text plus a font into a positioned glyph run.
//!
//! The font is represented by [`UiFont`], a plain-value table of the data the
//! layout reads: the character-to-glyph map, the per-glyph advance widths and
//! the line metrics, all in units already scaled to the chosen size. The
//! unverified shell fills such a table from the parsed font file; the layout
//! itself is verified against the recursive specification [`spec_shape`].

use vstd::prelude::*;
use vstd::string::StrSliceExecFns;
use crate::canvas::Canvas;
use crate::canvas::Color;
use crate::canvas::DrawStyle;
use crate::canvas::GlyphRunCmd;
use crate::canvas::Transform;

verus! {

/// One positioned glyph of a glyph run: a glyph id with the pen position at
/// which it is drawn, in scaled font units.
#[derive(Clone, Copy, PartialEq, Eq, Structural, Debug)]
pub struct Glyph {
    pub id: u32,
    pub x: u64,
    pub y: u64,
}

/// A font instantiated at a chosen size and variation location, reduced to
/// the plain values glyph layout reads.
///
/// `id` identifies the underlying font handle among the fonts the
/// application loaded, so a recorded draw command can name which font its
/// glyph ids belong to. `char_map` maps a character to its glyph id (first
/// matching entry wins; an unmapped character degrades to glyph id 0,
/// "notdef"). `advances` maps a glyph id to its advance width (0 on a
/// miss). The line metrics follow the usual convention: `ascent` and
/// `leading` are non-negative for ordinary fonts and `descent` is
/// non-positive, but no such restriction is assumed; only the derived line
/// height must fit in `u32`.
#[derive(Clone, PartialEq, Debug)]
pub struct UiFont {
    pub id: u32,
    pub char_map: Vec<(char, u32)>,
    pub advances: Vec<(u32, u32)>,
    pub ascent: i32,
    pub descent: i32,
    pub leading: i32,
}

/// The glyph id a character maps to: the first matching entry of the
/// character map, or 0 ("notdef") when no entry matches.
pub open spec fn spec_map_char(cmap: Seq<(char, u32)>, ch: char) -> u32
    decreases cmap.len(),
{
    if cmap.len() == 0 {
        0
    } else if cmap[0].0 == ch {
        cmap[0].1
    } else {
        spec_map_char(cmap.drop_first(), ch)
    }
}

/// The advance width of a glyph id: the first matching entry of the advance
/// table, or 0 when no entry matches.
pub open spec fn spec_advance(advances: Seq<(u32, u32)>, gid: u32) -> u32
    decreases advances.len(),
{
    if advances.len() == 0 {
        0
    } else if advances[0].0 == gid {
        advances[0].1
    } else {
        spec_advance(advances.drop_first(), gid)
    }
}

impl UiFont {
    /// The line height: ascent minus descent plus leading.
    pub open spec fn line_height_spec(self) -> int {
        self.ascent - self.descent + self.leading
    }

    /// A well-formed font has a line height that fits in `u32`.
    pub open spec fn wf(self) -> bool {
        0 <= self.line_height_spec() <= u32::MAX
    }

    /// Instantiates a font table. Returns `None` exactly when the derived
    /// line height does not fit in `u32`.
    pub fn new(
        id: u32,
        char_map: Vec<(char, u32)>,
        advances: Vec<(u32, u32)>,
        ascent: i32,
        descent: i32,
        leading: i32,
    ) -> (r: Option<UiFont>)
        ensures
            r is Some <==> 0 <= ascent - descent + leading <= u32::MAX,
            r matches Some(f) ==> f
                == (UiFont { id, char_map, advances, ascent, descent, leading }) && f.wf(),
    {
        let lh: i64 = ascent as i64 - descent as i64 + leading as i64;
        if 0 <= lh && lh <= u32::MAX as i64 {
            Some(UiFont { id, char_map, advances, ascent, descent, leading })
        } else {
            None
        }
    }

    /// The line height in scaled units.
    pub fn line_height(&self) -> (r: u32)
        requires
            self.wf(),
        ensures
            r == self.line_height_spec(),
    {
        (self.ascent as i64 - self.descent as i64 + self.leading as i64) as u32
    }

    /// Maps a character to its glyph id, 0 ("notdef") on a lookup miss.
    pub fn map_char(&self, ch: char) -> (r: u32)
        ensures
            r == spec_map_char(self.char_map@, ch),
    {
        let ghost cmap = self.char_map@;
        let n = self.char_map.len();
        let mut i: usize = 0;
        proof {
            assert(cmap.skip(0) =~= cmap);
        }
        while i < n
            invariant
                i <= n,
                n == cmap.len(),
                self.char_map@ == cmap,
                spec_map_char(cmap, ch) == spec_map_char(cmap.skip(i as int), ch),
            decreases n - i,
        {
            let (c, gid) = self.char_map[i];
            proof {
                assert(cmap.skip(i as int)[0] == cmap[i as int]);
                assert(cmap.skip(i as int).drop_first() =~= cmap.skip(i as int + 1));
            }
            if c == ch {
                return gid;
            }
            i = i + 1;
        }
        proof {
            assert(cmap.skip(n as int).len() == 0);
        }
        0
    }

    /// Looks up the advance width of a glyph id, 0 on a metrics miss.
    pub fn advance_width(&self, gid: u32) -> (r: u32)
        ensures
            r == spec_advance(self.advances@, gid),
    {
        let ghost advances = self.advances@;
        let n = self.advances.len();
        let mut i: usize = 0;
        proof {
            assert(advances.skip(0) =~= advances);
        }
        while i < n
            invariant
                i <= n,
                n == advances.len(),
                self.advances@ == advances,
                spec_advance(advances, gid) == spec_advance(advances.skip(i as int), gid),
            decreases n - i,
        {
            let (g, adv) = self.advances[i];
            proof {
                assert(advances.skip(i as int)[0] == advances[i as int]);
                assert(advances.skip(i as int).drop_first() =~= advances.skip(i as int + 1));
            }
            if g == gid {
                return adv;
            }
            i = i + 1;
        }
        proof {
            assert(advances.skip(n as int).len() == 0);
        }
        0
    }
}

/// The outcome of shaping a piece of text: the glyphs produced, as
/// (glyph id, x, y) triples, and the pen position afterwards.
pub ghost struct ShapeResult {
    pub glyphs: Seq<(u32, int, int)>,
    pub pen_x: int,
    pub pen_y: int,
}

/// Shapes `text` against `font` starting from pen position
/// (`pen_x`, `pen_y`): a newline resets the horizontal pen to 0 and advances
/// the vertical pen by the line height; any other character is mapped to a
/// glyph id, placed at the current pen position, and advances the horizontal
/// pen by its advance width.
pub open spec fn spec_shape(font: UiFont, text: Seq<char>, pen_x: int, pen_y: int) -> ShapeResult
    decreases text.len(),
{
    if text.len() == 0 {
        ShapeResult { glyphs: Seq::empty(), pen_x, pen_y }
    } else if text[0] == '\n' {
        spec_shape(font, text.drop_first(), 0, pen_y + font.line_height_spec())
    } else {
        let gid = spec_map_char(font.char_map@, text[0]);
        let adv = spec_advance(font.advances@, gid) as int;
        let rest = spec_shape(font, text.drop_first(), pen_x + adv, pen_y);
        ShapeResult {
            glyphs: seq![(gid, pen_x, pen_y)] + rest.glyphs,
            pen_x: rest.pen_x,
            pen_y: rest.pen_y,
        }
    }
}

/// Every intermediate pen position of shaping `text` from (`pen_x`, `pen_y`)
/// stays within `u64`: the machine-limit side condition of the executable
/// layout.
pub open spec fn shape_fits(font: UiFont, text: Seq<char>, pen_x: int, pen_y: int) -> bool
    decreases text.len(),
{
    if text.len() == 0 {
        true
    } else if text[0] == '\n' {
        &&& pen_y + font.line_height_spec() <= u64::MAX
        &&& shape_fits(font, text.drop_first(), 0, pen_y + font.line_height_spec())
    } else {
        let gid = spec_map_char(font.char_map@, text[0]);
        let adv = spec_advance(font.advances@, gid) as int;
        &&& pen_x + adv <= u64::MAX
        &&& shape_fits(font, text.drop_first(), pen_x + adv, pen_y)
    }
}

/// A short text shaped from a small pen position always fits: each step
/// advances a pen by at most `u32::MAX`.
pub proof fn lemma_shape_fits_bounded(font: UiFont, text: Seq<char>, pen_x: int, pen_y: int)
    requires
        font.wf(),
        0 <= pen_x,
        0 <= pen_y,
        pen_x + text.len() * (u32::MAX as int) <= u64::MAX,
        pen_y + text.len() * (u32::MAX as int) <= u64::MAX,
    ensures
        shape_fits(font, text, pen_x, pen_y),
    decreases text.len(),
{
    if text.len() > 0 {
        let k = u32::MAX as int;
        assert(text.len() * k == k + (text.len() - 1) * k) by (nonlinear_arith)
            requires text.len() >= 1;
        if text[0] == '\n' {
            lemma_shape_fits_bounded(font, text.drop_first(), 0, pen_y + font.line_height_spec());
        } else {
            let gid = spec_map_char(font.char_map@, text[0]);
            let adv = spec_advance(font.advances@, gid) as int;
            lemma_shape_fits_bounded(font, text.drop_first(), pen_x + adv, pen_y);
        }
    }
}

/// The (glyph id, x, y) triples of a sequence of positioned glyphs.
pub open spec fn glyph_triples(glyphs: Seq<Glyph>) -> Seq<(u32, int, int)> {
    glyphs.map_values(|g: Glyph| (g.id, g.x as int, g.y as int))
}

/// Glyph layout is deterministic: identical (font, text, pen position)
/// inputs always produce an identical glyph-run sequence, with the same ids
/// and the same positions.
pub proof fn lemma_layout_deterministic(
    f1: UiFont,
    f2: UiFont,
    t1: Seq<char>,
    t2: Seq<char>,
    x1: int,
    y1: int,
    x2: int,
    y2: int,
)
    requires
        f1 == f2,
        t1 == t2,
        x1 == x2,
        y1 == y2,
    ensures
        spec_shape(f1, t1, x1, y1) == spec_shape(f2, t2, x2, y2),
{
}

/// A glyph run under construction: a pen position and the glyphs shaped so
/// far, building up in text order across calls to [`UiBasicText::push_str`].
/// The run borrows its font for the duration of a draw call only.
pub struct UiBasicText<'a> {
    pub ui_font: &'a UiFont,
    pub pen_x: u64,
    pub pen_y: u64,
    pub glyphs: Vec<Glyph>,
}

impl<'a> UiBasicText<'a> {
    /// A well-formed run carries a well-formed font.
    pub open spec fn wf(self) -> bool {
        self.ui_font.wf()
    }

    /// Starts an empty glyph run for `ui_font`, with the pen at the origin.
    /// Construction cannot fail; the `Option` mirrors the fallible shaping
    /// interface its callers consume.
    pub fn new(ui_font: &'a UiFont) -> (r: Option<UiBasicText<'a>>)
        requires
            ui_font.wf(),
        ensures
            r matches Some(t) && t.ui_font == ui_font && t.pen_x == 0 && t.pen_y == 0
                && t.glyphs@ == Seq::<Glyph>::empty(),
            r matches Some(t) ==> t.wf(),
    {
        Some(UiBasicText { ui_font, pen_x: 0, pen_y: 0, glyphs: Vec::new() })
    }

    /// Shapes `content` character by character, appending the produced
    /// glyphs to the run and advancing the pen, exactly as [`spec_shape`]
    /// describes. Unmapped characters degrade to glyph id 0 rather than
    /// failing.
    pub fn push_str(&mut self, content: &str)
        requires
            old(self).wf(),
            shape_fits(
                *old(self).ui_font,
                content@,
                old(self).pen_x as int,
                old(self).pen_y as int,
            ),
        ensures
            final(self).wf(),
            final(self).ui_font == old(self).ui_font,
            ({
                let r = spec_shape(
                    *old(self).ui_font,
                    content@,
                    old(self).pen_x as int,
                    old(self).pen_y as int,
                );
                &&& glyph_triples(final(self).glyphs@) == glyph_triples(old(self).glyphs@)
                    + r.glyphs
                &&& final(self).pen_x == r.pen_x
                &&& final(self).pen_y == r.pen_y
            }),
    {
        let ghost font = *self.ui_font;
        let ghost t = content@;
        let ghost done0 = glyph_triples(self.glyphs@);
        let ghost x0 = self.pen_x as int;
        let ghost y0 = self.pen_y as int;
        let line_height = self.ui_font.line_height();
        let n = content.unicode_len();
        let mut i: usize = 0;
        proof {
            assert(t.skip(0) =~= t);
        }
        while i < n
            invariant
                i <= n,
                n == t.len(),
                content@ == t,
                *self.ui_font == font,
                self.ui_font == old(self).ui_font,
                font.wf(),
                line_height == font.line_height_spec(),
                shape_fits(font, t.skip(i as int), self.pen_x as int, self.pen_y as int),
                done0 + spec_shape(font, t, x0, y0).glyphs == glyph_triples(self.glyphs@)
                    + spec_shape(font, t.skip(i as int), self.pen_x as int, self.pen_y as int).glyphs,
                spec_shape(font, t, x0, y0).pen_x
                    == spec_shape(font, t.skip(i as int), self.pen_x as int, self.pen_y as int).pen_x,
                spec_shape(font, t, x0, y0).pen_y
                    == spec_shape(font, t.skip(i as int), self.pen_x as int, self.pen_y as int).pen_y,
            decreases n - i,
        {
            let ch = content.get_char(i);
            proof {
                assert(t.skip(i as int).len() > 0);
                assert(t.skip(i as int)[0] == t[i as int]);
                assert(t.skip(i as int).drop_first() =~= t.skip(i as int + 1));
            }
            if ch == '\n' {
                self.pen_y = self.pen_y + line_height as u64;
                self.pen_x = 0;
            } else {
                let gid = self.ui_font.map_char(ch);
                let advance = self.ui_font.advance_width(gid);
                let g = Glyph { id: gid, x: self.pen_x, y: self.pen_y };
                let ghost rem = spec_shape(font, t.skip(i as int), self.pen_x as int, self.pen_y as int);
                let ghost rem_next = spec_shape(
                    font,
                    t.skip(i as int + 1),
                    self.pen_x as int + advance as int,
                    self.pen_y as int,
                );
                self.pen_x = self.pen_x + advance as u64;
                let ghost gs = self.glyphs@;
                self.glyphs.push(g);
                proof {
                    assert(glyph_triples(gs.push(g)) =~= glyph_triples(gs)
                        + seq![(g.id, g.x as int, g.y as int)]);
                    assert(rem.glyphs =~= seq![(g.id, g.x as int, g.y as int)] + rem_next.glyphs);
                    assert(glyph_triples(gs) + rem.glyphs =~= glyph_triples(gs.push(g))
                        + rem_next.glyphs);
                    assert(done0 + spec_shape(font, t, x0, y0).glyphs =~= glyph_triples(self.glyphs@)
                        + rem_next.glyphs);
                }
            }
            i = i + 1;
        }
        proof {
            assert(t.skip(n as int).len() == 0);
            assert(glyph_triples(self.glyphs@)
                + spec_shape(font, t.skip(n as int), self.pen_x as int, self.pen_y as int).glyphs
                =~= glyph_triples(self.glyphs@));
            assert(glyph_triples(self.glyphs@) =~= done0 + spec_shape(font, t, x0, y0).glyphs);
        }
    }

    /// Draws the accumulated run onto the canvas as one glyph-run command,
    /// consuming the run; the glyphs arrive on the canvas exactly as shaped.
    pub fn draw(
        self,
        canvas: &mut Canvas,
        transform: Transform,
        glyph_transform: Option<Transform>,
        brush: Color,
        style: DrawStyle,
    )
        ensures
            final(canvas).scene_view() == old(canvas).scene_view().push(
                GlyphRunCmd {
                    transform,
                    glyph_transform,
                    brush,
                    style,
                    font_id: self.ui_font.id,
                    glyphs: self.glyphs,
                },
            ),
            final(canvas).scale_factor_milli == old(canvas).scale_factor_milli,
    {
        canvas.draw_text(transform, glyph_transform, brush, style, self.ui_font, self.glyphs);
    }
}

} // verus!
