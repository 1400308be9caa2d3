//! The render-producing state of the application: the loaded fonts and the
//! UI-mode flag, and the frame rendering that turns them into canvas
//! contents.

use vstd::prelude::*;
use crate::canvas::Canvas;
use crate::canvas::Color;
use crate::canvas::DrawStyle;
use crate::canvas::Transform;
use crate::command_bar::CommandBar;
use crate::font::DefaultFonts;
use crate::ui_text::UiBasicText;
use crate::ui_text::glyph_triples;
use crate::ui_text::lemma_shape_fits_bounded;
use crate::ui_text::spec_shape;

verus! {

/// Nominal size of the mode-indicator font, in logical pixels. The text is
/// drawn one font size below the canvas origin so that its first line is
/// visible.
pub const MODE_FONT_SIZE_PX: i64 = 32;

/// The state a frame is rendered from.
pub struct Core {
    pub default_fonts: DefaultFonts,
    pub command_bar: CommandBar,
}

impl Core {
    /// A well-formed core carries a well-formed monospace font table.
    pub open spec fn wf(self) -> bool {
        self.default_fonts.monospace_view().wf()
    }

    /// The text of the mode indicator, chosen by the command bar's mode.
    pub open spec fn mode_text(self) -> Seq<char> {
        if self.command_bar.is_active() {
            "COMMAND"@
        } else {
            "NORMAL"@
        }
    }

    /// Whether `cmd` is the glyph-run command one frame of this core
    /// records: the mode text shaped with the default monospace font from
    /// the origin, drawn as a white fill one font size below the canvas
    /// origin.
    pub open spec fn frame_cmd_matches(self, cmd: crate::canvas::GlyphRunCmd) -> bool {
        let font = self.default_fonts.monospace_view();
        let run = spec_shape(font, self.mode_text(), 0, 0);
        &&& cmd.transform == (Transform { tx: 0, ty: MODE_FONT_SIZE_PX })
        &&& cmd.glyph_transform is None
        &&& cmd.brush == (Color { r: 255, g: 255, b: 255, a: 255 })
        &&& cmd.style == DrawStyle::FillNonZero
        &&& cmd.font_id == font.id
        &&& glyph_triples(cmd.glyphs@) == run.glyphs
    }

    /// Builds the render state around the fonts loaded at startup; the
    /// command bar starts out in normal mode.
    pub fn new(default_fonts: DefaultFonts) -> (r: Core)
        requires
            default_fonts.monospace_view().wf(),
        ensures
            r.default_fonts == default_fonts,
            !r.command_bar.is_active(),
            r.wf(),
    {
        Core { default_fonts, command_bar: CommandBar::new() }
    }

    /// Renders one frame into the canvas: lays out the mode text with the
    /// default monospace font, starting from the origin, and records it as
    /// a single white fill glyph run placed one font size below the canvas
    /// origin. The canvas keeps whatever it already held; clearing between
    /// frames is the redraw step's job.
    pub fn render(&self, canvas: &mut Canvas)
        requires
            self.wf(),
        ensures
            final(canvas).scale_factor_milli == old(canvas).scale_factor_milli,
            ({
                let s = final(canvas).scene_view();
                &&& s.len() == old(canvas).scene_view().len() + 1
                &&& s.drop_last() == old(canvas).scene_view()
                &&& self.frame_cmd_matches(s.last())
            }),
    {
        let mode: &str = if self.command_bar.active() {
            "COMMAND"
        } else {
            "NORMAL"
        };
        let ui_font = self.default_fonts.monospace();
        proof {
            reveal_strlit("COMMAND");
            reveal_strlit("NORMAL");
            assert(mode@ == self.mode_text());
            assert(mode@.len() <= 7);
            lemma_shape_fits_bounded(*ui_font, mode@, 0, 0);
        }
        let mut ui_text = UiBasicText::new(ui_font).unwrap();
        let ghost run = spec_shape(*ui_font, mode@, 0, 0);
        ui_text.push_str(mode);
        proof {
            assert(glyph_triples(Seq::<crate::ui_text::Glyph>::empty()) =~= Seq::empty());
            assert(glyph_triples(ui_text.glyphs@) =~= run.glyphs);
        }
        let ghost before = canvas.scene_view();
        ui_text.draw(
            canvas,
            Transform { tx: 0, ty: MODE_FONT_SIZE_PX },
            None,
            Color { r: 255, g: 255, b: 255, a: 255 },
            DrawStyle::FillNonZero,
        );
        proof {
            assert(canvas.scene_view().drop_last() =~= before);
        }
    }
}

} // verus!
