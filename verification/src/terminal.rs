//! Projection of a color scheme into the terminal emulator's YAML-like
//! color-block syntax.
//!
//! The whole document is pinned down by [`alacritty_doc`]; the emitter
//! returns exactly that text. Color values are rewritten from `#RRGGBB` to
//! `0xRRGGBB`: the leading character is stripped and `0x` is prepended, with
//! no further transformation or validation of the hex payload.

use vstd::prelude::*;

use crate::names::GROUP_LEN;
use crate::scheme::ColorScheme;

verus! {

/// A color value rewritten for the terminal file: the leading character
/// (expected to be `#`) stripped, `0x` prepended.
pub open spec fn hex_0x(c: Seq<char>) -> Seq<char>
    recommends
        c.len() >= 1,
{
    "0x"@ + c.subrange(1, c.len() as int)
}

/// The padded `name:` label of group position `i`, left-aligned in a field
/// of ten characters.
pub open spec fn alc_label(i: int) -> Seq<char> {
    if i == 0 {
        "black:    "@
    } else if i == 1 {
        "red:      "@
    } else if i == 2 {
        "green:    "@
    } else if i == 3 {
        "yellow:   "@
    } else if i == 4 {
        "blue:     "@
    } else if i == 5 {
        "magenta:  "@
    } else if i == 6 {
        "cyan:     "@
    } else {
        "white:    "@
    }
}

/// One line of a `normal` or `bright` block: the padded label of position
/// `i`, then the rewritten color value, quoted.
pub open spec fn alc_entry_line(i: int, c: Seq<char>) -> Seq<char> {
    "    "@ + alc_label(i) + "'"@ + hex_0x(c) + "'\n"@
}

/// The eight lines of one block: position `i` renders `colors[shift + i]`,
/// so the `normal` block (`shift == 0`) lists `colors[0..8]` and the
/// `bright` block (`shift == 8`) lists `colors[8..16]` under the same names.
pub open spec fn alc_block_lines(colors: Seq<Seq<char>>, shift: int) -> Seq<Seq<char>> {
    Seq::new(GROUP_LEN as nat, |i: int| alc_entry_line(i, colors[shift + i]))
}

/// The full terminal color file: a header comment naming the theme, a
/// `primary` block with the rewritten background and foreground, then the
/// `normal` and `bright` blocks.
pub open spec fn alacritty_doc(
    theme: Seq<char>,
    colors: Seq<Seq<char>>,
    bg: Seq<char>,
    fg: Seq<char>,
) -> Seq<char> {
    "# Colors ("@ + theme + " Theme)\n colors:\n"@ + "  # Default colors\n"@ + "  primary:\n"@
        + "    background: '"@ + hex_0x(bg) + "'\n"@ + "    foreground: '"@ + hex_0x(fg) + "'\n"@
        + "\n"@ + "  # Normal colors\n  normal:\n"@ + alc_block_lines(colors, 0).flatten() + "\n"@
        + "  # Bright colors\n  bright:\n"@ + alc_block_lines(colors, 8).flatten() + "\n"@
}

/// The normal and bright blocks list the same names shifted by eight: for
/// every sixteen-entry palette and every position `i` of a block, line `i`
/// of the `normal` block renders `colors[i]` and line `i` of the `bright`
/// block renders `colors[i + 8]`, both under the label of position `i` and
/// as `0x` followed by the value with its leading character stripped.
pub proof fn lemma_normal_bright_shift(colors: Seq<Seq<char>>, i: int)
    requires
        colors.len() == 16,
        0 <= i < 8,
    ensures
        alc_block_lines(colors, 0)[i] == alc_entry_line(i, colors[i]),
        alc_block_lines(colors, 8)[i] == alc_entry_line(i, colors[i + 8]),
        alc_entry_line(i, colors[i + 8]) == "    "@ + alc_label(i) + "'"@ + ("0x"@ + colors[i
            + 8].subrange(1, colors[i + 8].len() as int)) + "'\n"@,
        alc_entry_line(i, colors[i]) == "    "@ + alc_label(i) + "'"@ + ("0x"@ + colors[i].subrange(
            1,
            colors[i].len() as int,
        )) + "'\n"@,
{
}

/// Rewrite one color value for the terminal file.
fn hex_0x_at(c: &str) -> (r: String)
    requires
        c@.len() >= 1,
    ensures
        r@ == hex_0x(c@),
{
    let n = c.unicode_len();
    let rest = c.substring_char(1, n);
    let mut r = String::from_str("0x");
    r.append(rest);
    r
}

/// The padded label of group position `i`.
fn alc_label_at(i: usize) -> (r: &'static str)
    requires
        i < GROUP_LEN,
    ensures
        r@ == alc_label(i as int),
{
    match i {
        0 => "black:    ",
        1 => "red:      ",
        2 => "green:    ",
        3 => "yellow:   ",
        4 => "blue:     ",
        5 => "magenta:  ",
        6 => "cyan:     ",
        _ => "white:    ",
    }
}

/// Append one eight-line block (normal for `shift == 0`, bright for
/// `shift == 8`) to the document being built.
fn push_alc_block(out: &mut String, cs: &ColorScheme, shift: usize)
    requires
        cs.wf(),
        cs.hex_ready(),
        shift == 0 || shift == GROUP_LEN,
    ensures
        final(out)@ == old(out)@ + alc_block_lines(cs.palette(), shift as int).flatten(),
{
    broadcast use Seq::<_>::group_seq_flatten;

    let ghost lines = alc_block_lines(cs.palette(), shift as int);
    let ghost base = out@;
    assert(out@ == base + lines.take(0).flatten());
    for i in 0..GROUP_LEN
        invariant
            cs.wf(),
            cs.hex_ready(),
            shift == 0 || shift == GROUP_LEN,
            lines == alc_block_lines(cs.palette(), shift as int),
            out@ == base + lines.take(i as int).flatten(),
    {
        out.append("    ");
        out.append(alc_label_at(i));
        out.append("'");
        let h = hex_0x_at(cs.color[shift + i].as_str());
        out.append(h.as_str());
        out.append("'\n");
        proof {
            assert(lines[i as int] == alc_entry_line(i as int, cs.palette()[shift + i]));
            assert(lines.take(i as int + 1) =~= lines.take(i as int).push(lines[i as int]));
            lines.take(i as int).lemma_flatten_push(lines[i as int]);
            assert(out@ =~= base + (lines.take(i as int).flatten() + lines[i as int]));
            assert(out@ =~= base + lines.take(i as int + 1).flatten());
        }
    }
    proof {
        assert(lines.take(GROUP_LEN as int) =~= lines);
    }
}

/// Serialize a validated scheme into the terminal emulator's color file
/// text, exactly as [`alacritty_doc`] states it.
pub fn render_alacritty(cs: &ColorScheme) -> (r: String)
    requires
        cs.wf(),
        cs.hex_ready(),
    ensures
        r@ == alacritty_doc(cs.theme@, cs.palette(), cs.background@, cs.foreground@),
{
    let mut out = String::new();
    assert(out@ =~= Seq::<char>::empty());
    out.append("# Colors (");
    proof {
        assert(out@ =~= "# Colors ("@);
    }
    out.append(cs.theme.as_str());
    out.append(" Theme)\n colors:\n");
    out.append("  # Default colors\n");
    out.append("  primary:\n");
    out.append("    background: '");
    let hb = hex_0x_at(cs.background.as_str());
    out.append(hb.as_str());
    out.append("'\n");
    out.append("    foreground: '");
    let hf = hex_0x_at(cs.foreground.as_str());
    out.append(hf.as_str());
    out.append("'\n");
    out.append("\n");
    out.append("  # Normal colors\n  normal:\n");
    push_alc_block(&mut out, cs, 0);
    out.append("\n");
    out.append("  # Bright colors\n  bright:\n");
    push_alc_block(&mut out, cs, GROUP_LEN);
    out.append("\n");
    out
}

} // verus!
