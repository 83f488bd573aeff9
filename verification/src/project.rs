//! The validated projection pipeline: from decoded scheme fields to the two
//! color-file texts in one step.

use vstd::prelude::*;

use crate::scheme::ColorScheme;
use crate::scheme::PALETTE_LEN;
use crate::scheme::ThemeError;
use crate::scheme::palette_view;
use crate::statusbar::polybar_doc;
use crate::statusbar::render_polybar;
use crate::terminal::alacritty_doc;
use crate::terminal::render_alacritty;

verus! {

/// Both projections are functions of the scheme's text content alone: two
/// schemes whose fields read the same produce byte-identical texts. Since
/// the caller overwrites (truncates) the target files, repeated runs on
/// unchanged input leave the files byte-identical.
pub proof fn lemma_projections_deterministic(a: ColorScheme, b: ColorScheme)
    requires
        a.theme@ == b.theme@,
        a.palette() == b.palette(),
        a.background@ == b.background@,
        a.foreground@ == b.foreground@,
    ensures
        alacritty_doc(a.theme@, a.palette(), a.background@, a.foreground@) == alacritty_doc(
            b.theme@,
            b.palette(),
            b.background@,
            b.foreground@,
        ),
        polybar_doc(a.palette(), a.background@, a.foreground@) == polybar_doc(
            b.palette(),
            b.background@,
            b.foreground@,
        ),
{
}

/// The two generated color-file texts, ready to be written out.
pub struct RenderedColors {
    /// The terminal emulator's color file text.
    pub alacritty: String,
    /// The status bar's color file text.
    pub polybar: String,
}

/// Validate the decoded scheme fields and project them into both color-file
/// texts.
///
/// Fails with `InvalidPaletteSize` exactly when the palette does not hold
/// sixteen entries, and then produces no output text at all; on success both
/// texts are exactly what the projection specifications state.
pub fn render_color_files(
    theme: String,
    color: Vec<String>,
    background: String,
    foreground: String,
) -> (r: Result<RenderedColors, ThemeError>)
    requires
        background@.len() >= 1,
        foreground@.len() >= 1,
        forall|i: int| 0 <= i < color@.len() ==> color@[i]@.len() >= 1,
    ensures
        r is Ok <==> color@.len() == PALETTE_LEN,
        r matches Err(e) ==> (e matches ThemeError::InvalidPaletteSize { got } && got
            == color@.len()),
        r matches Ok(files) ==> files.alacritty@ == alacritty_doc(
            theme@,
            palette_view(color@),
            background@,
            foreground@,
        ) && files.polybar@ == polybar_doc(palette_view(color@), background@, foreground@),
{
    let cs = match ColorScheme::new(theme, color, background, foreground) {
        Ok(cs) => cs,
        Err(e) => {
            return Err(e);
        },
    };
    let alacritty = render_alacritty(&cs);
    let polybar = render_polybar(&cs);
    Ok(RenderedColors { alacritty, polybar })
}

} // verus!
