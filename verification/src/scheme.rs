//! The color-scheme record and the error taxonomy shared by every operation.

use vstd::prelude::*;

use crate::decimal::dec_str;
use crate::decimal::usize_to_decimal;

verus! {

/// How many entries a palette must have: eight normal colors followed by
/// their eight bright counterparts.
pub const PALETTE_LEN: usize = 16;

/// A sequence of stored color values as a sequence of character sequences.
pub open spec fn palette_view(colors: Seq<String>) -> Seq<Seq<char>> {
    Seq::new(colors.len(), |i: int| colors[i]@)
}

/// Data structure for maintaining all colors.
///
/// `color` is positionally significant: indices 0..8 are the normal palette
/// (black, red, green, yellow, blue, magenta, cyan, white in that order) and
/// indices 8..16 are the bright counterparts in the same order. Each value
/// is a text token expected to begin with `#`; beyond the count of entries
/// nothing about the values themselves is validated.
pub struct ColorScheme {
    pub theme: String,
    pub color: Vec<String>,
    pub background: String,
    pub foreground: String,
}

impl ColorScheme {
    /// The structural invariant: exactly sixteen palette entries.
    pub open spec fn wf(&self) -> bool {
        self.color@.len() == PALETTE_LEN
    }

    /// The palette as a sequence of character sequences, in stored order.
    pub open spec fn palette(&self) -> Seq<Seq<char>> {
        palette_view(self.color@)
    }

    /// Every color value (palette, background, foreground) holds at least
    /// one character, so the `#`-stripping rewrite has a character to strip.
    pub open spec fn hex_ready(&self) -> bool {
        &&& self.background@.len() >= 1
        &&& self.foreground@.len() >= 1
        &&& forall|i: int| 0 <= i < self.color@.len() ==> self.color@[i]@.len() >= 1
    }

    /// Build a validated scheme from its decoded fields.
    ///
    /// Fails with `InvalidPaletteSize` exactly when the palette does not
    /// hold sixteen entries; on success the fields are taken over unchanged.
    pub fn new(theme: String, color: Vec<String>, background: String, foreground: String) -> (r:
        Result<ColorScheme, ThemeError>)
        ensures
            color@.len() == PALETTE_LEN <==> r is Ok,
            r matches Ok(cs) ==> cs.wf() && cs.theme == theme && cs.color == color
                && cs.background == background && cs.foreground == foreground,
            r matches Err(e) ==> (e matches ThemeError::InvalidPaletteSize { got } && got
                == color@.len()),
    {
        if color.len() != PALETTE_LEN {
            Err(ThemeError::InvalidPaletteSize { got: color.len() })
        } else {
            Ok(ColorScheme { theme, color, background, foreground })
        }
    }
}

/// Everything that can go wrong while changing themes.
///
/// Every kind but `AssetDirectoryMissing` is fatal for the whole run;
/// `AssetDirectoryMissing` only downgrades the startup-script rewrite to a
/// warned no-op.
pub enum ThemeError {
    /// The input text did not decode into the expected scheme shape.
    MalformedInput { detail: String },
    /// The decoded `color` array did not hold exactly sixteen entries.
    InvalidPaletteSize { got: usize },
    /// A path that should name a file names a directory.
    PathIsDirectory { path: String },
    /// The required input path does not exist.
    MissingInputFile { path: String },
    /// An underlying read, write or create failed on the named path.
    IoFailure { path: String },
    /// The wallpaper asset directory is absent; the rewrite is skipped.
    AssetDirectoryMissing { path: String },
}

impl ThemeError {
    /// Whether this error must abort the run.
    ///
    /// Only a missing asset directory is recovered locally (with a warning);
    /// every other kind terminates the run.
    pub fn is_fatal(&self) -> (r: bool)
        ensures
            r == !(self is AssetDirectoryMissing),
    {
        !matches!(self, ThemeError::AssetDirectoryMissing { .. })
    }

    /// The human-readable message of this error, naming the offending path
    /// or the structural mismatch.
    pub open spec fn message_spec(&self) -> Seq<char> {
        match self {
            ThemeError::MalformedInput { detail } => "malformed input: "@ + detail@,
            ThemeError::InvalidPaletteSize { got } => "length of color array is "@ + dec_str(
                *got as nat,
            ) + ", expected 16"@,
            ThemeError::PathIsDirectory { path } => "\""@ + path@ + "\" is a directory"@,
            ThemeError::MissingInputFile { path } => "provided file \""@ + path@
                + "\" does not exist"@,
            ThemeError::IoFailure { path } => "could not read or write \""@ + path@ + "\""@,
            ThemeError::AssetDirectoryMissing { path } => "could not find wallpaper directory \""@
                + path@ + "\""@,
        }
    }

    /// Render the human-readable message of this error.
    pub fn message(&self) -> (r: String)
        ensures
            r@ == self.message_spec(),
    {
        let mut r: String;
        match self {
            ThemeError::MalformedInput { detail } => {
                r = String::from_str("malformed input: ");
                r.append(detail.as_str());
            },
            ThemeError::InvalidPaletteSize { got } => {
                r = String::from_str("length of color array is ");
                let n = usize_to_decimal(*got);
                r.append(n.as_str());
                r.append(", expected 16");
            },
            ThemeError::PathIsDirectory { path } => {
                r = String::from_str("\"");
                r.append(path.as_str());
                r.append("\" is a directory");
            },
            ThemeError::MissingInputFile { path } => {
                r = String::from_str("provided file \"");
                r.append(path.as_str());
                r.append("\" does not exist");
            },
            ThemeError::IoFailure { path } => {
                r = String::from_str("could not read or write \"");
                r.append(path.as_str());
                r.append("\"");
            },
            ThemeError::AssetDirectoryMissing { path } => {
                r = String::from_str("could not find wallpaper directory \"");
                r.append(path.as_str());
                r.append("\"");
            },
        }
        proof {
            assert(r@ =~= self.message_spec());
        }
        r
    }
}

} // verus!
