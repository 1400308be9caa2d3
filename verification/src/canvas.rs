//! A DPI-aware, reusable scene buffer.
//!
//! The canvas accumulates draw commands for one frame and is reset — not
//! reallocated — between frames. Commands are recorded in logical
//! (DPI-independent) units together with the canvas's current scale factor;
//! the presentation step scales the draw transform and the glyph transform by
//! that factor exactly once, and leaves the nominal font size and the glyph
//! positions unscaled, so that no quantity is ever scaled twice.

use vstd::prelude::*;
use crate::ui_text::Glyph;
use crate::ui_text::UiFont;

verus! {

/// A translation in logical units: the modeled part of a draw transform.
#[derive(Clone, Copy, PartialEq, Eq, Structural, Debug)]
pub struct Transform {
    pub tx: i64,
    pub ty: i64,
}

/// An sRGB color with alpha, as used for brushes and backgrounds.
#[derive(Clone, Copy, PartialEq, Eq, Structural, Debug)]
pub struct Color {
    pub r: u8,
    pub g: u8,
    pub b: u8,
    pub a: u8,
}

/// The fill rule a draw command paints with.
#[derive(Clone, Copy, PartialEq, Eq, Structural, Debug)]
pub enum DrawStyle {
    FillNonZero,
    FillEvenOdd,
}

/// One recorded glyph-run draw command, holding exactly the values the draw
/// call was given, unscaled. The font is named by the id of its handle;
/// the presentation step resolves the id to the loaded font it stands for.
#[derive(PartialEq, Debug)]
pub struct GlyphRunCmd {
    pub transform: Transform,
    pub glyph_transform: Option<Transform>,
    pub brush: Color,
    pub style: DrawStyle,
    pub font_id: u32,
    pub glyphs: Vec<Glyph>,
}

/// The scene buffer: draw commands accumulated for the current frame, plus
/// the DPI scale factor in thousandths (1000 is a scale of one).
#[derive(PartialEq, Debug)]
pub struct Canvas {
    pub scene: Vec<GlyphRunCmd>,
    pub scale_factor_milli: u32,
}

impl Canvas {
    /// The accumulated scene contents, for use in contracts.
    pub open spec fn scene_view(self) -> Seq<GlyphRunCmd> {
        self.scene@
    }

    /// Creates an empty canvas with the given DPI scale factor, in
    /// thousandths.
    pub fn new(scale_factor_milli: u32) -> (r: Canvas)
        ensures
            r.scene_view() == Seq::<GlyphRunCmd>::empty(),
            r.scale_factor_milli == scale_factor_milli,
    {
        Canvas { scene: Vec::new(), scale_factor_milli }
    }

    /// Clears all accumulated geometry without releasing the buffer's
    /// backing storage, keeping the scale factor.
    pub fn reset(&mut self)
        ensures
            final(self).scene_view() == Seq::<GlyphRunCmd>::empty(),
            final(self).scale_factor_milli == old(self).scale_factor_milli,
    {
        // reusing the same buffer every frame saves the per-frame allocation
        self.scene.clear();
    }

    /// Replaces the DPI scale factor, keeping the scene contents.
    pub fn update_scale_factor(&mut self, scale_factor_milli: u32)
        ensures
            final(self).scene_view() == old(self).scene_view(),
            final(self).scale_factor_milli == scale_factor_milli,
    {
        self.scale_factor_milli = scale_factor_milli;
    }

    /// Records a glyph-run draw command. The command stores the given
    /// values as they are: applying the DPI scale factor is left to the
    /// presentation step, which applies it to the transforms only.
    pub fn draw_text(
        &mut self,
        transform: Transform,
        glyph_transform: Option<Transform>,
        brush: Color,
        style: DrawStyle,
        ui_font: &UiFont,
        glyphs: Vec<Glyph>,
    )
        ensures
            final(self).scene_view() == old(self).scene_view().push(
                GlyphRunCmd {
                    transform,
                    glyph_transform,
                    brush,
                    style,
                    font_id: ui_font.id,
                    glyphs,
                },
            ),
            final(self).scale_factor_milli == old(self).scale_factor_milli,
    {
        self.scene.push(
            GlyphRunCmd {
                transform,
                glyph_transform,
                brush,
                style,
                font_id: ui_font.id,
                glyphs,
            },
        );
    }
}

/// Resetting a canvas and then issuing zero draw calls leaves it equivalent
/// to a freshly constructed one with the same scale factor: both observe an
/// empty scene, so every later frame starts from the same state either way.
pub proof fn lemma_reset_is_fresh(after_reset: Canvas, fresh: Canvas)
    requires
        after_reset.scene_view() == Seq::<GlyphRunCmd>::empty(),
        fresh.scene_view() == Seq::<GlyphRunCmd>::empty(),
        after_reset.scale_factor_milli == fresh.scale_factor_milli,
    ensures
        after_reset.scene_view() == fresh.scene_view(),
        after_reset.scale_factor_milli == fresh.scale_factor_milli,
{
}

} // verus!
