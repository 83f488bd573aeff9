//! Verified core of a desktop color-scheme switcher.
//!
//! A color scheme (a theme name, sixteen positional palette entries, a
//! background and a foreground value) is validated once and then projected
//! into two textual configuration formats; a third target file has a single
//! `theme=` line rewritten in place. All text generation is specified down
//! to the byte; reading and writing the actual files is left to the caller.

use vstd::prelude::*;

pub mod decimal;
pub mod names;
pub mod paths;
pub mod project;
pub mod rewrite;
pub mod scheme;
pub mod statusbar;
pub mod terminal;

pub use paths::OutputAction;
pub use paths::verify_input_file;
pub use paths::verify_output_file;
pub use project::RenderedColors;
pub use project::render_color_files;
pub use rewrite::rewrite_theme_line;
pub use rewrite::should_rewrite;
pub use scheme::ColorScheme;
pub use scheme::ThemeError;
pub use statusbar::render_polybar;
pub use terminal::render_alacritty;

verus! {

} // verus!
