//! Projection of a color scheme into the status bar's ini-like key=value
//! syntax.
//!
//! The document is a `[color]` section header followed by exactly eighteen
//! data lines: background, foreground, the eight normal colors under their
//! fixed names, and the eight bright colors under the same names prefixed
//! with `alt`. Unlike the terminal projection, every value is written
//! verbatim: no `#` is stripped and no `0x` is added.

use vstd::prelude::*;

use crate::names::GROUP_LEN;
use crate::names::color_name;
use crate::names::color_name_at;
use crate::scheme::ColorScheme;

verus! {

/// One data line: `<prefix><name> = <value>`, the value verbatim.
pub open spec fn pb_line(prefix: Seq<char>, name: Seq<char>, value: Seq<char>) -> Seq<char> {
    prefix + name + " = "@ + value + "\n"@
}

/// The eighteen data lines of the status bar file, in order: background,
/// foreground, the normal group (`colors[0..8]`), the bright group
/// (`colors[8..16]`, names prefixed with `alt`).
pub open spec fn polybar_data_lines(colors: Seq<Seq<char>>, bg: Seq<char>, fg: Seq<char>) -> Seq<
    Seq<char>,
> {
    seq![pb_line(""@, "background"@, bg), pb_line(""@, "foreground"@, fg)] + Seq::new(
        GROUP_LEN as nat,
        |i: int| pb_line(""@, color_name(i), colors[i]),
    ) + Seq::new(GROUP_LEN as nat, |i: int| pb_line("alt"@, color_name(i), colors[GROUP_LEN + i]))
}

/// The full status bar color file: the `[color]` section header, then the
/// eighteen data lines.
pub open spec fn polybar_doc(colors: Seq<Seq<char>>, bg: Seq<char>, fg: Seq<char>) -> Seq<char> {
    "[color]\n"@ + polybar_data_lines(colors, bg, fg).flatten()
}

/// The status bar projection holds exactly eighteen data lines, in order:
/// background, foreground, the eight normal colors, the eight bright colors
/// under `alt`-prefixed names — and every value is carried verbatim, with no
/// `#` stripped and no `0x` added.
pub proof fn lemma_polybar_lines(colors: Seq<Seq<char>>, bg: Seq<char>, fg: Seq<char>)
    requires
        colors.len() == 16,
    ensures
        polybar_data_lines(colors, bg, fg).len() == 18,
        polybar_data_lines(colors, bg, fg)[0] == ""@ + "background"@ + " = "@ + bg + "\n"@,
        polybar_data_lines(colors, bg, fg)[1] == ""@ + "foreground"@ + " = "@ + fg + "\n"@,
        forall|i: int|
            0 <= i < 8 ==> polybar_data_lines(colors, bg, fg)[2 + i] == ""@ + color_name(i)
                + " = "@ + colors[i] + "\n"@,
        forall|i: int|
            0 <= i < 8 ==> polybar_data_lines(colors, bg, fg)[10 + i] == "alt"@ + color_name(i)
                + " = "@ + colors[8 + i] + "\n"@,
{
}

/// Append one `<prefix><name> = <value>` data line.
fn push_pb_line(out: &mut String, prefix: &str, name: &str, value: &str)
    ensures
        final(out)@ == old(out)@ + pb_line(prefix@, name@, value@),
{
    out.append(prefix);
    out.append(name);
    out.append(" = ");
    out.append(value);
    out.append("\n");
    proof {
        assert(out@ =~= old(out)@ + pb_line(prefix@, name@, value@));
    }
}

/// Serialize a validated scheme into the status bar's color file text,
/// exactly as [`polybar_doc`] states it.
pub fn render_polybar(cs: &ColorScheme) -> (r: String)
    requires
        cs.wf(),
    ensures
        r@ == polybar_doc(cs.palette(), cs.background@, cs.foreground@),
{
    let ghost lines = polybar_data_lines(cs.palette(), cs.background@, cs.foreground@);
    let mut out = String::from_str("[color]\n");
    push_pb_line(&mut out, "", "background", cs.background.as_str());
    push_pb_line(&mut out, "", "foreground", cs.foreground.as_str());
    proof {
        assert(lines.take(2) =~= seq![lines[0], lines[1]]);
        lines.take(0).lemma_flatten_push(lines[0]);
        lines.take(1).lemma_flatten_push(lines[1]);
        assert(lines.take(1) =~= lines.take(0).push(lines[0]));
        assert(lines.take(2) =~= lines.take(1).push(lines[1]));
        assert(lines.take(0).flatten() =~= Seq::<char>::empty());
        assert(out@ =~= "[color]\n"@ + lines.take(2).flatten());
    }
    for i in 0..GROUP_LEN
        invariant
            cs.wf(),
            lines == polybar_data_lines(cs.palette(), cs.background@, cs.foreground@),
            out@ == "[color]\n"@ + lines.take(2 + i as int).flatten(),
    {
        push_pb_line(&mut out, "", color_name_at(i), cs.color[i].as_str());
        proof {
            assert(lines[2 + i as int] == pb_line(""@, color_name(i as int), cs.palette()[i as int]));
            assert(lines.take(2 + i as int + 1) =~= lines.take(2 + i as int).push(
                lines[2 + i as int],
            ));
            lines.take(2 + i as int).lemma_flatten_push(lines[2 + i as int]);
            assert(out@ =~= "[color]\n"@ + lines.take(2 + i as int + 1).flatten());
        }
    }
    for i in 0..GROUP_LEN
        invariant
            cs.wf(),
            lines == polybar_data_lines(cs.palette(), cs.background@, cs.foreground@),
            out@ == "[color]\n"@ + lines.take(10 + i as int).flatten(),
    {
        push_pb_line(&mut out, "alt", color_name_at(i), cs.color[GROUP_LEN + i].as_str());
        proof {
            assert(lines[10 + i as int] == pb_line(
                "alt"@,
                color_name(i as int),
                cs.palette()[GROUP_LEN + i],
            ));
            assert(lines.take(10 + i as int + 1) =~= lines.take(10 + i as int).push(
                lines[10 + i as int],
            ));
            lines.take(10 + i as int).lemma_flatten_push(lines[10 + i as int]);
            assert(out@ =~= "[color]\n"@ + lines.take(10 + i as int + 1).flatten());
        }
    }
    proof {
        assert(lines.take(18) =~= lines);
    }
    out
}

} // verus!
